//! CableDesk: the verified core of a direct USB4/Thunderbolt desktop link.
use vstd::prelude::*;

pub mod agent;
pub mod classify;
pub mod config;
pub mod device;
pub mod display;
pub mod error;
pub mod fedora;
pub mod helper;
pub mod manager;
pub mod peer;
pub mod profile;
pub mod report;
pub mod service;
pub mod simulation;
pub mod state;
pub mod system;
pub mod text;

verus! {

} // verus!
