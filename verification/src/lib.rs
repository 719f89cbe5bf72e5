//! The front-end data substrate of a compiler: the naming model (identifiers,
//! namespace names, qualified identifiers), source positions, the syntactic
//! abstract syntax tree a parser produces, and the arena allocation that gives
//! every tree node a stable, never-freed lifetime.
#![allow(non_snake_case)]

pub mod arenas;
pub mod name;
pub mod pos;
pub mod syntactic;
