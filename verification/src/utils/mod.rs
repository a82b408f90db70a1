pub mod config;
pub mod mqtt;
pub mod text;
pub mod ticks;

use vstd::prelude::*;

verus! {

/// Availability of a device: unknown before the first report, then on or off.
#[derive(Debug, Clone, Copy)]
pub enum Availability {
    FirstRun,
    True,
    False,
}

/// `Availability == bool`: never equal before the first report.
impl PartialEq<bool> for Availability {
    fn eq(&self, other: &bool) -> (r: bool) {
        match self {
            Availability::FirstRun => false,
            Availability::True => *other,
            Availability::False => !*other,
        }
    }
}

impl vstd::std_specs::cmp::PartialEqSpecImpl<bool> for Availability {
    open spec fn obeys_eq_spec() -> bool {
        true
    }

    open spec fn eq_spec(&self, other: &bool) -> bool {
        match self {
            Availability::FirstRun => false,
            Availability::True => *other,
            Availability::False => !*other,
        }
    }
}

impl From<bool> for Availability {
    fn from(value: bool) -> (r: Self) {
        if value {
            Availability::True
        } else {
            Availability::False
        }
    }
}

impl vstd::std_specs::convert::FromSpecImpl<bool> for Availability {
    open spec fn obeys_from_spec() -> bool {
        true
    }

    open spec fn from_spec(v: bool) -> Self {
        if v {
            Availability::True
        } else {
            Availability::False
        }
    }
}

} // verus!
