//! Domain logic of the thaichess.org backend: sign-up input validation,
//! password hashing, sessions, authentication and the decisions the HTTP
//! layer takes on their outcomes.

pub mod text;
pub mod domain;
pub mod configuration;
pub mod database;
pub mod startup;
pub mod auth;
pub mod status;
pub mod routes;
