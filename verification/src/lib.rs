//! The rules of a role-playing game around one character: its attributes,
//! the items it wears and wields, the attack damage that follows from both,
//! and the campagnes it plays.
//!
//! Every function of the crate is verified against its contract. The
//! contracts speak of what a value is mathematically: a character is its
//! `CharacterView`, an attribute store is a map that holds every attribute,
//! and the attack damage is a sum of whole numbers that are scaled the way
//! binary64 arithmetic scales them.

pub mod attributes;
pub mod character;
pub mod damage;
pub mod inventory;
pub mod item;
pub mod scaling;
pub mod types;
pub mod world;
