//! State-transition core of a marketplace where agents publish API skills,
//! buyers purchase them, and purchases feed ratings back into reputations.

pub mod address;
pub mod fee;
pub mod laws;
pub mod lookup;
pub mod rating;
pub mod records;
pub mod registry;
pub mod token;
