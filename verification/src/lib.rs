pub mod possibilities;
pub mod variants;
