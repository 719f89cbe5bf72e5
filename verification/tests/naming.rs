use std::cmp::Ordering;
use std::collections::HashMap;
use std::collections::hash_map::DefaultHasher;
use std::hash::Hash;
use std::hash::Hasher;

use typed_arena::Arena;

use syntax_arena::arenas::Arenas;
use syntax_arena::name::Id;
use syntax_arena::name::Qid;
use syntax_arena::name::ids_cmp;
use syntax_arena::name::ids_eq;
use syntax_arena::name::str_cmp;
use syntax_arena::name::str_eq;

fn hash_of<T: Hash>(value: &T) -> u64 {
    let mut hasher = DefaultHasher::new();
    value.hash(&mut hasher);
    hasher.finish()
}

#[test]
fn equal_text_identifiers_compare_equal_and_hash_identically() {
    let bytes = Arena::new();
    let ids = Arena::new();
    let defs = Arena::new();
    let types = Arena::new();
    let terms = Arena::new();
    let ar = Arenas { bytes: &bytes, ids: &ids, defs: &defs, types: &types, terms: &terms };

    let t1 = String::from("hello");
    let t2 = String::from("hello");
    let a = ar.allocId(&t1);
    let b = ar.allocId(&t2);
    assert_eq!(a, b);
    assert_eq!(hash_of(&a), hash_of(&b));

    let c = ar.allocId("world");
    assert_ne!(a, c);
}

#[test]
fn unicode_identifiers_compare_by_content() {
    let bytes = Arena::new();
    let ids = Arena::new();
    let defs = Arena::new();
    let types = Arena::new();
    let terms = Arena::new();
    let ar = Arenas { bytes: &bytes, ids: &ids, defs: &defs, types: &types, terms: &terms };

    let a = ar.allocId("héλλo✓");
    let b = ar.allocId("héλλo✓");
    assert_eq!(a, b);
    assert!(str_eq(a.name, b.name));
    assert!(!str_eq(a.name, "héλλo"));
}

#[test]
fn namespace_name_reproduces_segments_in_order() {
    let bytes = Arena::new();
    let ids = Arena::new();
    let defs = Arena::new();
    let types = Arena::new();
    let terms = Arena::new();
    let ar = Arenas { bytes: &bytes, ids: &ids, defs: &defs, types: &types, terms: &terms };

    let a = ar.allocId("outer");
    let b = ar.allocId("middle");
    let c = ar.allocId("inner");
    let ns = ar.allocNs(&[a, b, c]);
    assert_eq!(ns.segments.len(), 3);
    assert_eq!(ns.segments[0], a);
    assert_eq!(ns.segments[1], b);
    assert_eq!(ns.segments[2], c);

    let reversed = ar.allocNs(&[c, b, a]);
    assert_ne!(ns, reversed);
}

#[test]
fn qualified_identifier_round_trip() {
    let bytes = Arena::new();
    let ids = Arena::new();
    let defs = Arena::new();
    let types = Arena::new();
    let terms = Arena::new();
    let ar = Arenas { bytes: &bytes, ids: &ids, defs: &defs, types: &types, terms: &terms };

    let a = ar.allocId("a");
    let b = ar.allocId("b");
    let c = ar.allocId("c");
    let ns = ar.allocNs(&[a, b]);
    let qid = Qid { namespace: ns, member: c };

    assert_eq!(qid.namespace.segments.len(), 2);
    assert_eq!(qid.namespace.segments[0], ar.allocId("a"));
    assert_eq!(qid.namespace.segments[1], ar.allocId("b"));
    assert_eq!(qid.member, ar.allocId("c"));
    assert_eq!(qid.namespace, ar.allocNs(&[ar.allocId("a"), ar.allocId("b")]));
}

#[test]
fn empty_identifier_and_empty_namespace_are_ordinary_values() {
    let bytes = Arena::new();
    let ids = Arena::new();
    let defs = Arena::new();
    let types = Arena::new();
    let terms = Arena::new();
    let ar = Arenas { bytes: &bytes, ids: &ids, defs: &defs, types: &types, terms: &terms };

    let empty1 = ar.allocId("");
    let empty2 = ar.allocId("");
    let named = ar.allocId("x");
    assert_eq!(empty1, empty2);
    assert_ne!(empty1, named);
    assert!(empty1 < named);
    assert!(empty1 <= empty2);
    assert_eq!(hash_of(&empty1), hash_of(&empty2));

    let root1 = ar.allocNs(&[]);
    let root2 = ar.allocNs(&[]);
    let deeper = ar.allocNs(&[named]);
    assert_eq!(root1.segments.len(), 0);
    assert_eq!(root1, root2);
    assert_ne!(root1, deeper);
    assert!(root1 < deeper);
    assert_eq!(hash_of(&root1), hash_of(&root2));

    let qid1 = Qid { namespace: root1, member: empty1 };
    let qid2 = Qid { namespace: root2, member: empty2 };
    assert_eq!(qid1, qid2);
    assert_eq!(hash_of(&qid1), hash_of(&qid2));
}

#[test]
fn identifiers_work_as_map_keys_across_separate_allocations() {
    let bytes = Arena::new();
    let ids = Arena::new();
    let defs = Arena::new();
    let types = Arena::new();
    let terms = Arena::new();
    let ar = Arenas { bytes: &bytes, ids: &ids, defs: &defs, types: &types, terms: &terms };

    let mut table: HashMap<Id, u32> = HashMap::new();
    table.insert(ar.allocId("alpha"), 1);
    table.insert(ar.allocId("beta"), 2);
    assert_eq!(table.get(&ar.allocId("alpha")), Some(&1));
    assert_eq!(table.get(&ar.allocId("beta")), Some(&2));
    assert_eq!(table.get(&ar.allocId("gamma")), None);
}

#[test]
fn identifier_sequences_compare_by_content() {
    let bytes = Arena::new();
    let ids = Arena::new();
    let defs = Arena::new();
    let types = Arena::new();
    let terms = Arena::new();
    let ar = Arenas { bytes: &bytes, ids: &ids, defs: &defs, types: &types, terms: &terms };

    let a1 = ar.allocId("a");
    let b1 = ar.allocId("b");
    let a2 = ar.allocId("a");
    let b2 = ar.allocId("b");
    assert!(ids_eq(&[a1, b1], &[a2, b2]));
    assert!(!ids_eq(&[a1, b1], &[b2, a2]));
    assert!(!ids_eq(&[a1, b1], &[a2]));
    assert!(ids_eq(&[], &[]));
}

#[test]
fn ordering_is_structural_and_lexicographic() {
    let bytes = Arena::new();
    let ids = Arena::new();
    let defs = Arena::new();
    let types = Arena::new();
    let terms = Arena::new();
    let ar = Arenas { bytes: &bytes, ids: &ids, defs: &defs, types: &types, terms: &terms };

    let apple = ar.allocId("apple");
    let banana = ar.allocId("banana");
    let app = ar.allocId("app");
    assert!(apple < banana);
    assert!(app < apple);
    assert_eq!(apple.partial_cmp(&ar.allocId("apple")), Some(Ordering::Equal));
    assert_eq!(apple.cmp(&banana), Ordering::Less);
    assert_eq!(str_cmp("apple", "banana"), Ordering::Less);
    assert_eq!(str_cmp("", "a"), Ordering::Less);
    assert_eq!(str_cmp("b", "aa"), Ordering::Greater);

    // The hand-written character order and the derived byte order agree,
    // including on multi-byte text.
    let pairs = ["", "a", "ab", "b", "é", "héllo", "hz", "λ", "✓"];
    for x in pairs {
        for y in pairs {
            let ix = ar.allocId(x);
            let iy = ar.allocId(y);
            assert_eq!(ix.partial_cmp(&iy), Some(ix.cmp(&iy)));
            assert_eq!(ix.partial_cmp(&iy), Some(x.cmp(y)));
        }
    }

    let outer = ar.allocNs(&[apple]);
    let deeper = ar.allocNs(&[apple, banana]);
    let other = ar.allocNs(&[banana]);
    assert!(outer < deeper);
    assert!(deeper < other);
    assert_eq!(ids_cmp(outer.segments, other.segments), Ordering::Less);
    assert_eq!(outer.cmp(&deeper), Ordering::Less);
    assert_eq!(outer.partial_cmp(&deeper), Some(Ordering::Less));

    let qa = Qid { namespace: outer, member: apple };
    let qb = Qid { namespace: outer, member: banana };
    let qc = Qid { namespace: other, member: apple };
    assert!(qa < qb);
    assert!(qb < qc);
    assert_eq!(qa.partial_cmp(&Qid { namespace: ar.allocNs(&[ar.allocId("apple")]), member: ar.allocId("apple") }), Some(Ordering::Equal));
    assert_eq!(qa.cmp(&qb), Ordering::Less);
}
