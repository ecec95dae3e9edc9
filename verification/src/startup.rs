//! The web application.
use vstd::prelude::*;

verus! {

/// The web service that answers on the configured address.
pub struct Application;

} // verus!
