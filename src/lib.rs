//! Documentation trees for configuration schemas: an ordered tree whose
//! leaves pair a field's key with its description, flattened into key and
//! description pairs or rendered as aligned text.

pub mod model;
pub mod documentation;
pub mod laws;
pub mod doc_comment;
