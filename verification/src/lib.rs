//! A small CRUD library for a single `Person` resource: an in-memory
//! table offering the five storage operations (list, get, insert,
//! update, delete), and request handlers that turn storage outcomes
//! into HTTP status codes. Transport and persistence are I/O and live
//! outside this crate; the logic they drive is verified here.

pub mod handler;
pub mod person;
pub mod repository;
