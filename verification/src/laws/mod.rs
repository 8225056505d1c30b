//! What the library promises of all inputs, stated over results rather than
//! over how they come about.

pub mod environment;
pub mod exchanges;
pub mod reports;
pub mod sampling;
pub mod sharing;
pub mod submissions;
pub mod text;
pub mod views;
