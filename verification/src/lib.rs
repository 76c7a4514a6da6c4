//! The logic of a personal site's backend: cache keys and cached bookkeeping,
//! the application error and its replies, request validation, the conversion of
//! stored rows into what pages show, the sitemap, and the decisions of the
//! form and API handlers.
use vstd::prelude::*;

pub mod cache;
pub mod config;
pub mod database;
pub mod error;
pub mod handler;
pub mod model;
pub mod text;
pub mod time;
pub mod validation;

verus! {

} // verus!
