//! A verified library for a small game site: the session tokens and
//! cookies of its logins, the decisions of its pages, and the steps of
//! serving its stored image.
use vstd::prelude::*;

pub mod auth;
pub mod components;
pub mod cors;
pub mod handlers;
pub mod json;
pub mod model;
pub mod s3;

verus! {

/// The HTTP statuses that the server answers with.
#[derive(Debug, PartialEq, Eq, Structural, Clone, Copy)]
pub enum HttpStatus {
    Success,
    Found,
    NotFound,
    InternalServerError,
}

impl HttpStatus {
    /// The numeric status code.
    pub fn code(&self) -> (c: u16)
        ensures
            c == match self {
                HttpStatus::Success => 200u16,
                HttpStatus::Found => 302u16,
                HttpStatus::NotFound => 404u16,
                HttpStatus::InternalServerError => 500u16,
            },
    {
        match self {
            HttpStatus::Success => 200,
            HttpStatus::Found => 302,
            HttpStatus::NotFound => 404,
            HttpStatus::InternalServerError => 500,
        }
    }
}

} // verus!
