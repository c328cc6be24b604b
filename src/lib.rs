//! The bootstrap of a desktop application shell: the plugins it activates,
//! the order of its launch, and the diagnostic line that setup prints.
use vstd::prelude::*;

pub mod launch;
pub mod plugins;
pub mod timing;
pub mod trace;

verus! {

} // verus!
