//! Renders the forms of a self-service identity flow.
//!
//! A flow describes its user interface as an ordered list of nodes. This
//! library turns such a list into markup: one fragment per node, grouped
//! into one form per authentication method. It also holds what the pages
//! around the forms decide: what is sent when a form is submitted, whether
//! the session is active and for how long, and what the user sees of an
//! error.
//!
//! - [`model`] and [`value`]: the nodes of a flow and the values of their
//!   fields.
//! - [`markup`]: the tree that rendering produces.
//! - [`render`], [`dispatch`], [`assemble`]: from the attributes of one
//!   node, to a list of nodes, to the forms of a flow.
//! - [`validation`]: which fields the browser validates, and that no other
//!   markup says so.
//! - [`submit`]: forms that the page sends itself.
//! - [`session`], [`cookie`]: the session and the cookie that remembers it.
//! - [`error_view`], [`pages`]: errors, the menu and the session page.
//! - [`text`]: decimal texts of integers.

pub mod assemble;
pub mod cookie;
pub mod dispatch;
pub mod error_view;
pub mod markup;
pub mod model;
pub mod pages;
pub mod render;
pub mod session;
pub mod submit;
pub mod text;
pub mod validation;
pub mod value;
