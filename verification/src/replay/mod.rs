//! Replaying captured games through the engines.

pub mod adapter;
pub mod capture;
pub mod corpus;
pub mod execute;
pub mod model;
mod text;
