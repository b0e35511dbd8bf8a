//! Core of a terminal browser for a remote, paginated collection of
//! classical-text records. The library models the browsing method (the active
//! filter), derives the query for each navigation step, validates the page
//! envelopes that come back, and tracks the in-page item cursor. All network
//! and terminal work lives outside the library.

pub mod art_list;
pub mod article;
pub mod cursor;
pub mod error;
pub mod method;
pub mod sentence;
pub mod writer;

pub use crate::art_list::ArtListResp;
pub use crate::art_list::list_accepted;
pub use crate::article::Article;
pub use crate::article::ArticleSimple;
pub use crate::cursor::CursorState;
pub use crate::error::APIError;
pub use crate::method::DetailQuery;
pub use crate::method::ListQuery;
pub use crate::method::Method;
pub use crate::method::PageQuery;
pub use crate::sentence::Sentence;
pub use crate::sentence::SentenceListResp;
pub use crate::writer::Writer;
pub use crate::writer::WriterListResp;
