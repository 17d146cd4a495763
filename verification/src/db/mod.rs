//! The records of the coin economy's database and the rules applied to
//! them. Running the queries is left to the program around the library.
pub mod error;
pub mod ids;
pub mod model;
pub mod rules;
