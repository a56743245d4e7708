//! Vocabulary flashcards: study sessions whose state is kept in client
//! tokens, and a cursor over a deck ordered by recency.

pub mod cursor;
pub mod db;
pub mod decimal;
pub mod model;
pub mod render;
pub mod session;
pub mod text;
pub mod types;
