//! benchScale: verified core of a VM lab substrate.
use vstd::prelude::*;

pub mod error;
pub mod text;
pub mod order;
pub mod backend;
pub mod config;
pub mod time;
pub mod path;
pub mod capabilities;
pub mod config_legacy;
pub mod cloud_init;

verus! {
}
