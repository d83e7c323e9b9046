//! `==` and `<` on parsed versions, by their version order.
use vstd::prelude::*;
use std::cmp::Ordering;
use vstd::std_specs::cmp::PartialEqSpecImpl;
use vstd::std_specs::cmp::PartialOrdSpecImpl;
use crate::order::Order;
use crate::version::ParsedVersion;
use crate::version_order::{compare_versions, version_order};

verus! {

impl PartialEq for ParsedVersion {
    fn eq(&self, other: &Self) -> (r: bool) {
        match compare_versions(self, other) {
            Order::Equal => true,
            _ => false,
        }
    }
}

impl PartialEqSpecImpl for ParsedVersion {
    open spec fn obeys_eq_spec() -> bool {
        true
    }

    open spec fn eq_spec(&self, other: &ParsedVersion) -> bool {
        version_order(self@, other@) == Order::Equal
    }
}

impl Eq for ParsedVersion {
}

impl PartialOrd for ParsedVersion {
    fn partial_cmp(&self, other: &Self) -> (r: Option<Ordering>) {
        match compare_versions(self, other) {
            Order::Less => Some(Ordering::Less),
            Order::Equal => Some(Ordering::Equal),
            Order::Greater => Some(Ordering::Greater),
        }
    }
}

impl PartialOrdSpecImpl for ParsedVersion {
    open spec fn obeys_partial_cmp_spec() -> bool {
        true
    }

    open spec fn partial_cmp_spec(&self, other: &ParsedVersion) -> Option<Ordering> {
        match version_order(self@, other@) {
            Order::Less => Some(Ordering::Less),
            Order::Equal => Some(Ordering::Equal),
            Order::Greater => Some(Ordering::Greater),
        }
    }
}

} // verus!
