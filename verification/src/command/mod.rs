pub mod error;
pub mod view;
