//! A small content-management backend: posts and users in in-memory tables
//! with verified CRUD semantics, salted password hashing and verification,
//! markdown rendering and HTML/JSON output building.

pub mod clock;
pub mod post;
pub mod render;
pub mod serialize;
pub mod text;
pub mod user;

use vstd::prelude::*;

verus! {

} // verus!
