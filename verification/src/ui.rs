//! Plain UI state of the dashboard.

use vstd::prelude::*;

verus! {

/// Active tab in the visualization.
#[derive(Clone, Copy, PartialEq, Eq, Structural, Debug)]
pub enum ActiveTab {
    Ring,
    Graphs,
}

impl Default for ActiveTab {
    fn default() -> (r: Self)
        ensures
            r == ActiveTab::Ring,
    {
        ActiveTab::Ring
    }
}

} // verus!
