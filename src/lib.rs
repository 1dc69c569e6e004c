//! A CHIP-8 interpreter: a decoder from instruction words to operations, and a
//! machine whose every operation is stated over an abstract view of its state.
pub mod font;
pub mod instruction;
pub mod laws;
pub mod machine;
