//! The naming model: identifiers, namespace names, and qualified identifiers.
//!
//! Equality over these types is structural: it compares the referenced text
//! and segments, never the storage address, so two names allocated at
//! different times with identical content are indistinguishable to any
//! consumer.

use core::cmp::Ordering;

use vstd::prelude::*;
use vstd::std_specs::cmp::PartialEqSpec;
use vstd::std_specs::cmp::PartialOrdSpec;
use vstd::string::StrSliceExecFns;

verus! {

/// Compares two strings by character content.
pub fn str_eq(a: &str, b: &str) -> (r: bool)
    ensures
        r == (a@ == b@),
{
    let a_len = a.unicode_len();
    let b_len = b.unicode_len();
    if a_len != b_len {
        return false;
    }
    let mut i: usize = 0;
    while i < a_len
        invariant
            a_len == a@.len(),
            a_len == b@.len(),
            i <= a_len,
            forall|j: int| 0 <= j < i ==> a@[j] == b@[j],
        decreases a_len - i,
    {
        if a.get_char(i) != b.get_char(i) {
            return false;
        }
        i += 1;
    }
    proof {
        assert(a@ =~= b@);
    }
    true
}

/// Lexicographic order over character sequences, by code point; a proper
/// prefix comes first.
pub open spec fn lex_cmp_texts(a: Seq<char>, b: Seq<char>) -> Ordering
    decreases a.len(),
{
    if a.len() == 0 && b.len() == 0 {
        Ordering::Equal
    } else if a.len() == 0 {
        Ordering::Less
    } else if b.len() == 0 {
        Ordering::Greater
    } else if (a[0] as u32) < (b[0] as u32) {
        Ordering::Less
    } else if (b[0] as u32) < (a[0] as u32) {
        Ordering::Greater
    } else {
        lex_cmp_texts(a.skip(1), b.skip(1))
    }
}

/// Compares two strings lexicographically by character content.
pub fn str_cmp(a: &str, b: &str) -> (r: Ordering)
    ensures
        r == lex_cmp_texts(a@, b@),
{
    let a_len = a.unicode_len();
    let b_len = b.unicode_len();
    let shorter: usize = if a_len < b_len {
        a_len
    } else {
        b_len
    };
    proof {
        assert(a@.skip(0) =~= a@);
        assert(b@.skip(0) =~= b@);
    }
    let mut i: usize = 0;
    while i < shorter
        invariant
            a_len == a@.len(),
            b_len == b@.len(),
            shorter == if a_len < b_len { a_len } else { b_len },
            i <= shorter,
            lex_cmp_texts(a@, b@) == lex_cmp_texts(a@.skip(i as int), b@.skip(i as int)),
        decreases shorter - i,
    {
        let ca = a.get_char(i);
        let cb = b.get_char(i);
        proof {
            assert(a@.skip(i as int)[0] == a@[i as int]);
            assert(b@.skip(i as int)[0] == b@[i as int]);
        }
        if (ca as u32) < (cb as u32) {
            return Ordering::Less;
        }
        if (cb as u32) < (ca as u32) {
            return Ordering::Greater;
        }
        proof {
            assert(a@.skip(i as int).skip(1) =~= a@.skip(i as int + 1));
            assert(b@.skip(i as int).skip(1) =~= b@.skip(i as int + 1));
        }
        i += 1;
    }
    if a_len < b_len {
        Ordering::Less
    } else if b_len < a_len {
        Ordering::Greater
    } else {
        Ordering::Equal
    }
}

/// An identifier defines or refers to a feature.
///
/// Identifiers typically occur literally in the source code being compiled.
/// There are no restrictions as to which code points occur within an
/// identifier, and even the empty identifier is allowed.
#[derive(Clone, Copy, Debug, Hash, Ord)]
pub struct Id<'a> {
    pub name: &'a str,
}

impl<'a> View for Id<'a> {
    type V = Seq<char>;

    open spec fn view(&self) -> Seq<char> {
        self.name@
    }
}

impl<'a> PartialEq for Id<'a> {
    fn eq(&self, other: &Id<'a>) -> bool {
        str_eq(self.name, other.name)
    }
}

impl<'a> Eq for Id<'a> {}

impl<'a> vstd::std_specs::cmp::PartialEqSpecImpl for Id<'a> {
    open spec fn obeys_eq_spec() -> bool {
        true
    }

    open spec fn eq_spec(&self, other: &Id<'a>) -> bool {
        self@ == other@
    }
}

impl<'a> PartialOrd for Id<'a> {
    fn partial_cmp(&self, other: &Id<'a>) -> Option<Ordering> {
        Some(str_cmp(self.name, other.name))
    }
}

impl<'a> vstd::std_specs::cmp::PartialOrdSpecImpl for Id<'a> {
    open spec fn obeys_partial_cmp_spec() -> bool {
        true
    }

    open spec fn partial_cmp_spec(&self, other: &Id<'a>) -> Option<Ordering> {
        Some(lex_cmp_texts(self@, other@))
    }
}

/// The character content of each identifier in a sequence, in order.
pub open spec fn texts_of<'a>(ids: Seq<Id<'a>>) -> Seq<Seq<char>> {
    ids.map_values(|i: Id<'a>| i@)
}

/// Compares two identifier sequences segment by segment, by text content.
pub fn ids_eq<'a, 'b>(a: &[Id<'a>], b: &[Id<'b>]) -> (r: bool)
    ensures
        r == (texts_of(a@) == texts_of(b@)),
{
    let a_len = a.len();
    let b_len = b.len();
    if a_len != b_len {
        proof {
            assert(texts_of(a@).len() == a@.len());
            assert(texts_of(b@).len() == b@.len());
        }
        return false;
    }
    let mut i: usize = 0;
    while i < a_len
        invariant
            a_len == a@.len(),
            a_len == b@.len(),
            i <= a_len,
            forall|j: int| 0 <= j < i ==> a@[j]@ == b@[j]@,
        decreases a_len - i,
    {
        if !str_eq(a[i].name, b[i].name) {
            proof {
                assert(texts_of(a@)[i as int] == a@[i as int]@);
                assert(texts_of(b@)[i as int] == b@[i as int]@);
            }
            return false;
        }
        i += 1;
    }
    proof {
        assert forall|j: int| 0 <= j < a@.len() implies texts_of(a@)[j] == texts_of(
            b@,
        )[j] by {
            assert(a@[j]@ == b@[j]@);
        }
        assert(texts_of(a@) =~= texts_of(b@));
    }
    true
}

/// Lexicographic order over segment sequences: segments are compared in
/// order by their text, and a proper prefix comes first.
pub open spec fn lex_cmp_segments(a: Seq<Seq<char>>, b: Seq<Seq<char>>) -> Ordering
    decreases a.len(),
{
    if a.len() == 0 && b.len() == 0 {
        Ordering::Equal
    } else if a.len() == 0 {
        Ordering::Less
    } else if b.len() == 0 {
        Ordering::Greater
    } else if lex_cmp_texts(a[0], b[0]) == Ordering::Equal {
        lex_cmp_segments(a.skip(1), b.skip(1))
    } else {
        lex_cmp_texts(a[0], b[0])
    }
}

/// Compares two identifier sequences lexicographically, segment by segment,
/// by text content.
pub fn ids_cmp<'a, 'b>(a: &[Id<'a>], b: &[Id<'b>]) -> (r: Ordering)
    ensures
        r == lex_cmp_segments(texts_of(a@), texts_of(b@)),
{
    let a_len = a.len();
    let b_len = b.len();
    let shorter: usize = if a_len < b_len {
        a_len
    } else {
        b_len
    };
    proof {
        assert(texts_of(a@).skip(0) =~= texts_of(a@));
        assert(texts_of(b@).skip(0) =~= texts_of(b@));
    }
    let mut i: usize = 0;
    while i < shorter
        invariant
            a_len == a@.len(),
            b_len == b@.len(),
            shorter == if a_len < b_len { a_len } else { b_len },
            i <= shorter,
            lex_cmp_segments(texts_of(a@), texts_of(b@)) == lex_cmp_segments(
                texts_of(a@).skip(i as int),
                texts_of(b@).skip(i as int),
            ),
        decreases shorter - i,
    {
        proof {
            assert(texts_of(a@).skip(i as int)[0] == texts_of(a@)[i as int]);
            assert(texts_of(b@).skip(i as int)[0] == texts_of(b@)[i as int]);
            assert(texts_of(a@)[i as int] == a@[i as int]@);
            assert(texts_of(b@)[i as int] == b@[i as int]@);
        }
        match str_cmp(a[i].name, b[i].name) {
            Ordering::Less => {
                return Ordering::Less;
            },
            Ordering::Greater => {
                return Ordering::Greater;
            },
            Ordering::Equal => {
                proof {
                    assert(texts_of(a@).skip(i as int).skip(1) =~= texts_of(a@).skip(
                        i as int + 1,
                    ));
                    assert(texts_of(b@).skip(i as int).skip(1) =~= texts_of(b@).skip(
                        i as int + 1,
                    ));
                }
                i += 1;
            },
        }
    }
    proof {
        assert(texts_of(a@).len() == a@.len());
        assert(texts_of(b@).len() == b@.len());
    }
    if a_len < b_len {
        Ordering::Less
    } else if b_len < a_len {
        Ordering::Greater
    } else {
        Ordering::Equal
    }
}

/// The name of a namespace is a list of identifiers.
///
/// Order is significant: the segments run from the outermost namespace
/// inwards. The empty sequence denotes the root namespace.
#[derive(Clone, Copy, Debug, Hash, Ord)]
pub struct Ns<'a> {
    pub segments: &'a [Id<'a>],
}

impl<'a> View for Ns<'a> {
    type V = Seq<Seq<char>>;

    open spec fn view(&self) -> Seq<Seq<char>> {
        texts_of(self.segments@)
    }
}

impl<'a> PartialEq for Ns<'a> {
    fn eq(&self, other: &Ns<'a>) -> bool {
        ids_eq(self.segments, other.segments)
    }
}

impl<'a> Eq for Ns<'a> {}

impl<'a> vstd::std_specs::cmp::PartialEqSpecImpl for Ns<'a> {
    open spec fn obeys_eq_spec() -> bool {
        true
    }

    open spec fn eq_spec(&self, other: &Ns<'a>) -> bool {
        self@ == other@
    }
}

impl<'a> PartialOrd for Ns<'a> {
    fn partial_cmp(&self, other: &Ns<'a>) -> Option<Ordering> {
        Some(ids_cmp(self.segments, other.segments))
    }
}

impl<'a> vstd::std_specs::cmp::PartialOrdSpecImpl for Ns<'a> {
    open spec fn obeys_partial_cmp_spec() -> bool {
        true
    }

    open spec fn partial_cmp_spec(&self, other: &Ns<'a>) -> Option<Ordering> {
        Some(lex_cmp_segments(self@, other@))
    }
}

/// A qualified identifier is an identifier paired with the name of a
/// namespace.
///
/// A qualified identifier refers to a particular globally-defined feature
/// unambiguously.
#[derive(Clone, Copy, Debug, Hash, Ord)]
pub struct Qid<'a> {
    pub namespace: Ns<'a>,
    pub member: Id<'a>,
}

impl<'a> View for Qid<'a> {
    type V = (Seq<Seq<char>>, Seq<char>);

    open spec fn view(&self) -> (Seq<Seq<char>>, Seq<char>) {
        (self.namespace@, self.member@)
    }
}

impl<'a> PartialEq for Qid<'a> {
    fn eq(&self, other: &Qid<'a>) -> bool {
        self.namespace == other.namespace && self.member == other.member
    }
}

impl<'a> Eq for Qid<'a> {}

impl<'a> vstd::std_specs::cmp::PartialEqSpecImpl for Qid<'a> {
    open spec fn obeys_eq_spec() -> bool {
        true
    }

    open spec fn eq_spec(&self, other: &Qid<'a>) -> bool {
        self@ == other@
    }
}

impl<'a> PartialOrd for Qid<'a> {
    fn partial_cmp(&self, other: &Qid<'a>) -> Option<Ordering> {
        match ids_cmp(self.namespace.segments, other.namespace.segments) {
            Ordering::Less => Some(Ordering::Less),
            Ordering::Greater => Some(Ordering::Greater),
            Ordering::Equal => Some(str_cmp(self.member.name, other.member.name)),
        }
    }
}

impl<'a> vstd::std_specs::cmp::PartialOrdSpecImpl for Qid<'a> {
    open spec fn obeys_partial_cmp_spec() -> bool {
        true
    }

    open spec fn partial_cmp_spec(&self, other: &Qid<'a>) -> Option<Ordering> {
        if lex_cmp_segments(self.namespace@, other.namespace@) == Ordering::Equal {
            Some(lex_cmp_texts(self.member@, other.member@))
        } else {
            Some(lex_cmp_segments(self.namespace@, other.namespace@))
        }
    }
}

/// Lexicographic comparison of texts is consistent with equality: two
/// character sequences compare `Equal` exactly when they are equal.
pub proof fn lemma_lex_cmp_texts_equal(a: Seq<char>, b: Seq<char>)
    ensures
        (lex_cmp_texts(a, b) == Ordering::Equal) <==> a == b,
    decreases a.len(),
{
    if a.len() == 0 && b.len() == 0 {
        assert(a =~= b);
    } else if a.len() == 0 || b.len() == 0 {
    } else if (a[0] as u32) < (b[0] as u32) || (b[0] as u32) < (a[0] as u32) {
    } else {
        lemma_lex_cmp_texts_equal(a.skip(1), b.skip(1));
        vstd::utf8::char_u32_cast(a[0], a[0] as u32);
        vstd::utf8::char_u32_cast(b[0], b[0] as u32);
        assert(a[0] == b[0]);
        if a.skip(1) == b.skip(1) {
            assert forall|j: int| 0 <= j < a.len() implies a[j] == b[j] by {
                if j > 0 {
                    assert(a.skip(1)[j - 1] == a[j]);
                    assert(b.skip(1)[j - 1] == b[j]);
                }
            }
            assert(a =~= b);
        }
        if a == b {
            assert(a.skip(1) == b.skip(1));
        }
    }
}

/// Lexicographic comparison of segment sequences is consistent with
/// equality: two segment sequences compare `Equal` exactly when they are
/// equal.
pub proof fn lemma_lex_cmp_segments_equal(a: Seq<Seq<char>>, b: Seq<Seq<char>>)
    ensures
        (lex_cmp_segments(a, b) == Ordering::Equal) <==> a == b,
    decreases a.len(),
{
    if a.len() == 0 && b.len() == 0 {
        assert(a =~= b);
    } else if a.len() == 0 || b.len() == 0 {
    } else {
        lemma_lex_cmp_texts_equal(a[0], b[0]);
        if lex_cmp_texts(a[0], b[0]) == Ordering::Equal {
            lemma_lex_cmp_segments_equal(a.skip(1), b.skip(1));
            if a.skip(1) == b.skip(1) {
                assert forall|j: int| 0 <= j < a.len() implies a[j] == b[j] by {
                    if j > 0 {
                        assert(a.skip(1)[j - 1] == a[j]);
                        assert(b.skip(1)[j - 1] == b[j]);
                    }
                }
                assert(a =~= b);
            }
            if a == b {
                assert(a.skip(1) == b.skip(1));
            }
        } else {
            if a == b {
                assert(a[0] == b[0]);
            }
        }
    }
}

/// Identifier equality is structural: two identifiers compare equal under
/// `==` exactly when their text content is equal, whatever storage backs
/// each of them. Identifiers allocated separately from equal text are
/// therefore indistinguishable to any consumer of `==`.
pub proof fn lemma_id_equality_structural<'a>(a: Id<'a>, b: Id<'a>)
    ensures
        a.eq_spec(&b) <==> a@ == b@,
{
}

/// Namespace-name equality is structural: two namespace names compare equal
/// under `==` exactly when their segments carry equal text, segment by
/// segment, in the same order.
pub proof fn lemma_ns_equality_structural<'a>(a: Ns<'a>, b: Ns<'a>)
    ensures
        a.eq_spec(&b) <==> texts_of(a.segments@) == texts_of(b.segments@),
{
}

/// Qualified-identifier equality is structural: two qualified identifiers
/// compare equal under `==` exactly when their namespaces and their members
/// both do.
pub proof fn lemma_qid_equality_structural<'a>(a: Qid<'a>, b: Qid<'a>)
    ensures
        a.eq_spec(&b) <==> (a.namespace@ == b.namespace@ && a.member@ == b.member@),
{
}

/// Ordering of identifiers is consistent with their equality: `partial_cmp`
/// answers `Equal` exactly when `==` answers true.
pub proof fn lemma_id_ordering_consistent<'a>(a: Id<'a>, b: Id<'a>)
    ensures
        (a.partial_cmp_spec(&b) == Some(Ordering::Equal)) <==> a.eq_spec(&b),
{
    lemma_lex_cmp_texts_equal(a@, b@);
}

/// Ordering of namespace names is consistent with their equality:
/// `partial_cmp` answers `Equal` exactly when `==` answers true.
pub proof fn lemma_ns_ordering_consistent<'a>(a: Ns<'a>, b: Ns<'a>)
    ensures
        (a.partial_cmp_spec(&b) == Some(Ordering::Equal)) <==> a.eq_spec(&b),
{
    lemma_lex_cmp_segments_equal(a@, b@);
}

/// Ordering of qualified identifiers is consistent with their equality:
/// `partial_cmp` answers `Equal` exactly when `==` answers true.
pub proof fn lemma_qid_ordering_consistent<'a>(a: Qid<'a>, b: Qid<'a>)
    ensures
        (a.partial_cmp_spec(&b) == Some(Ordering::Equal)) <==> a.eq_spec(&b),
{
    lemma_lex_cmp_segments_equal(a.namespace@, b.namespace@);
    lemma_lex_cmp_texts_equal(a.member@, b.member@);
}

} // verus!
