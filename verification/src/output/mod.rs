//! Output sinks.

use vstd::prelude::*;

pub mod stdout;

verus! {

/// A write target. `push` takes one rendered text; it gives no signal back,
/// and a sink that fails to write keeps the failure to itself. Several
/// callers may push to one sink at the same time, so a sink serialises its
/// writes itself.
pub trait Output: Sync + Send {
    fn push(&self, string: &str);

    fn has_color(&self) -> bool;
}

} // verus!
