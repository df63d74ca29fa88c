//! The weekday as the scheduler sees it.

use vstd::prelude::*;

verus! {

/// One of the seven days of the week.
///
/// The selection rule in [`crate::selector`] is a closed, total function over
/// these seven values; no default case is ever needed.
#[derive(Clone, Copy, PartialEq, Eq, Structural, Debug)]
pub enum Day {
    Monday,
    Tuesday,
    Wednesday,
    Thursday,
    Friday,
    Saturday,
    Sunday,
}

} // verus!
