//! A small JSON API over one table of people: a greeting route and a route
//! that stores a person and answers with the stored row.
//!
//! The library holds the data model and every decision the two routes make.
//! The HTTP server and the database are driven by the program around it.
pub mod person;

pub use person::{InsertablePerson, Person};
pub mod routes;

pub use routes::{
    create, created, index, service_not_available, Body, Field, Payload, Response,
    INTERNAL_SERVER_ERROR, OK, SERVICE_UNAVAILABLE, UNPROCESSABLE_ENTITY,
};
