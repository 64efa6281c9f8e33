//! Core contracts of an agent runtime.

use vstd::prelude::*;

pub mod approval;
pub mod artifact;
pub mod broker;
pub mod cancel;
pub mod catalog;
pub mod check_set;
pub mod checkpoint;
pub mod clock;
pub mod collections;
pub mod compat;
pub mod content;
pub mod delegation;
pub mod error;
pub mod event;
pub mod fingerprint;
pub mod goal;
pub mod grant;
pub mod ids;
pub mod interaction;
pub mod json;
pub mod manifest;
pub mod metadata;
pub mod order;
pub mod provider;
pub mod record;
pub mod security;
pub mod store;
pub mod text;
pub mod tool;
pub mod usage;

verus! {

} // verus!
