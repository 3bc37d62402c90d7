//! CircleCI data model, sample data, client and errors.

pub mod models;
pub mod mock_data;
pub mod error;
pub mod client;
