//! Plot regions for a shared game world: rectangle geometry, the decisions of
//! the plot lifecycle (create, redefine, delete, members), the commands sent
//! to the world's region tool, the id cache, the whitelist rules of account
//! binding, and the profile lookup of the game's account service.

pub mod account;
pub mod bind;
pub mod choices;
pub mod commands;
pub mod conf;
pub mod errors;
pub mod geometry;
pub mod idcache;
pub mod lifecycle;
pub mod text;
