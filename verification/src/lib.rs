//! The verified core of a blog front end: the decisions that the web
//! handlers take on what the back end answers, the URLs and cookie headers
//! they send, and the models they exchange.

pub mod text;
pub mod status;
pub mod errors;
pub mod models;
pub mod requests;
pub mod common;
pub mod pages;
pub mod post;
pub mod user;
pub mod tag;
pub mod session;
pub mod tera_custom;
pub mod jsonapi;
