//! Negotiation and lifecycle of a presentable image chain (a swapchain).
//!
//! `negotiate` selects a configuration from what the platform reports of a
//! surface; `manager` owns the chain's life from creation to destruction, with
//! the platform calls left to the caller.

use vstd::prelude::*;

pub mod error;
pub mod manager;
pub mod negotiate;

verus! {

} // verus!
