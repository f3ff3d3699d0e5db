//! A gateway in front of a document-search backend that holds a catalogue
//! of stories, chapters, categories and authors.
//!
//! The crate decides and performs no I/O. A caller hands it the path and
//! the query string of a request and receives either a finished response
//! or a search to run against the backend ([`router::Router::route_request`]).
//! For a search it later hands back how the call to the backend ended and
//! receives the response for the client ([`step::Search::conclude`]), and
//! [`service::deliver`] makes that response ready to go out.

pub mod authors;
pub mod backend;
pub mod categories;
pub mod chapters;
pub mod codec;
pub mod json;
pub mod pagination;
pub mod params;
pub mod query;
pub mod response;
pub mod router;
pub mod service;
pub mod shaper;
pub mod step;
pub mod stories;
pub mod text;
