//! Solo heist engine: player progression, item loadouts, risk and heat
//! modelling, skill-check minigames and outcome resolution.

pub mod types;
pub mod balance;
pub mod items;
pub mod minigames;
pub mod resolution;
pub mod repo;
pub mod keys;
pub mod session;
pub mod labels;
pub mod events;
mod entropy;
