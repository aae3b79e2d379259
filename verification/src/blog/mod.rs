//! Reading uploaded posts.

pub mod text;
pub mod upload;
pub mod wikilinks;
