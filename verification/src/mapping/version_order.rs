//! The order of game versions: by major, then minor, then patch number.

use crate::mapping::minecraft_version::MinecraftVersion;
use std::cmp::Ordering;
use vstd::prelude::*;

verus! {

impl PartialOrd for MinecraftVersion {
    fn partial_cmp(&self, other: &MinecraftVersion) -> (order: Option<Ordering>) {
        if self.precedes(other) {
            Some(Ordering::Less)
        } else if other.precedes(self) {
            Some(Ordering::Greater)
        } else {
            Some(Ordering::Equal)
        }
    }
}

impl vstd::std_specs::cmp::PartialOrdSpecImpl for MinecraftVersion {
    open spec fn obeys_partial_cmp_spec() -> bool {
        true
    }

    open spec fn partial_cmp_spec(&self, other: &MinecraftVersion) -> Option<Ordering> {
        if self.earlier_than(*other) {
            Some(Ordering::Less)
        } else if other.earlier_than(*self) {
            Some(Ordering::Greater)
        } else {
            Some(Ordering::Equal)
        }
    }
}

} // verus!
