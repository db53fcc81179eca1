//! A verified core for a three-entity CRUD backend: users, roles and posts,
//! each carried through an identifier codec, a repository, a thin service and
//! a response-envelope layer.

pub mod config;
pub mod entities;
pub mod errors;
pub mod handlers;
pub mod ident;
pub mod models;
pub mod repositories;
pub mod services;
