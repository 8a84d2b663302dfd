//! The domain model: new users, sessions and e-mail delivery outcomes.

pub mod auth;
pub mod email;
pub mod new_user;
