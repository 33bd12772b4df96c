//! What holds of the vault as a whole.
pub mod accounting;
pub mod announcements;
pub mod circuit;
pub mod cold;
pub mod configuration;
pub mod frame;
pub mod functions;
pub mod funds;
pub mod meaning;
pub mod names;
pub mod requests;
pub mod roles;
pub mod timelock;
