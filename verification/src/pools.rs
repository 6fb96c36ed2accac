//! The pools every character has.

pub mod life;
pub mod mana;
