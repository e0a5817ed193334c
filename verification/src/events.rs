//! Events the core publishes towards attached dashboard clients; the
//! surrounding program serializes and delivers them.

use vstd::prelude::*;

verus! {

/// All events that might be sent.
#[derive(Debug, Clone)]
pub enum Event {
    PrefixChanged { prefix: String },
    SceneSwitched { scene: String },
}

} // verus!
