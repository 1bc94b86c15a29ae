//! A static-site builder: markdown posts, per-post metadata and two HTML
//! templates become article pages and a home page.

pub mod text;
pub mod reading;
pub mod posts;
pub mod index;
pub mod catalog;
pub mod site;
