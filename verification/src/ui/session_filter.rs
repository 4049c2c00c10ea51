//! The player-facing two-state listing filter.
use vstd::prelude::*;

verus! {

#[derive(Debug, Clone, PartialEq, Eq, Structural)]
pub enum SessionFilter {
    MySubscriptions,
    AllAvailable,
}

impl SessionFilter {
    pub open spec fn spec_toggle(self) -> SessionFilter {
        match self {
            SessionFilter::MySubscriptions => SessionFilter::AllAvailable,
            SessionFilter::AllAvailable => SessionFilter::MySubscriptions,
        }
    }

    /// Switches between the two filter states.
    pub fn toggle(&self) -> (r: SessionFilter)
        ensures
            r == self.spec_toggle(),
    {
        match self {
            SessionFilter::MySubscriptions => SessionFilter::AllAvailable,
            SessionFilter::AllAvailable => SessionFilter::MySubscriptions,
        }
    }

    pub open spec fn spec_str(self) -> Seq<char> {
        match self {
            SessionFilter::MySubscriptions => "My Subscriptions"@,
            SessionFilter::AllAvailable => "All Available"@,
        }
    }

    pub fn as_str(&self) -> (r: &'static str)
        ensures
            r@ == self.spec_str(),
    {
        match self {
            SessionFilter::MySubscriptions => "My Subscriptions",
            SessionFilter::AllAvailable => "All Available",
        }
    }
}

/// Toggling the filter twice returns to the starting state.
pub proof fn lemma_filter_toggle_involutive(f: SessionFilter)
    ensures
        f.spec_toggle().spec_toggle() == f,
{
}

} // verus!
