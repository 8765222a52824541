//! Laws of the registry, proved over the model that the operations' contracts
//! are stated in.

pub mod counting;
pub mod delivery;
pub mod lifecycle;
