//! An in-memory catalog of books with single-session borrowing, and the
//! decision logic of the text prompt that drives it.

pub mod book;
pub mod display;
pub mod laws;
pub mod session;
pub mod text;
