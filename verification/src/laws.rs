//! What holds of the library as a whole.
pub mod connections;
pub mod delivery;
pub mod exchange;
pub mod frames;
pub mod sending;
pub mod streams;
pub mod texts;
pub mod turns;
pub mod urls;
pub mod views;
