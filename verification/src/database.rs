//! Where microVM configurations are stored between runs.
use vstd::prelude::*;

verus! {

/// The store of microVM configurations, keyed by the microVM's id. Its
/// records are kept by the backend it connects to.
#[derive(Debug)]
pub struct Database {}

} // verus!
