//! A small regressor that learns to add two numbers: the shape of its
//! parameter set, the fixed training examples and the schedule of the
//! training loop, each with a verified contract. The numeric engine itself
//! runs on floating point and lives in the application around this library.

pub mod schedule;
pub mod model;
pub mod training_data;
