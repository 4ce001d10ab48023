//! The set of interrupt names that the selected target knows.

use vstd::prelude::*;
use crate::targets::{names_view, vector_names, TargetVariant};

verus! {

/// The names that a target selection makes known: those of the selected chip's
/// vector table, and none where no chip is selected.
pub open spec fn known_names(selection: Option<TargetVariant>) -> Set<Seq<char>> {
    match selection {
        None => Set::empty(),
        Some(variant) => vector_names(variant),
    }
}

/// The interrupt names of one build. The set is fixed when the registry is
/// made.
pub struct TargetVectorRegistry {
    names: Vec<String>,
}

impl View for TargetVectorRegistry {
    type V = Set<Seq<char>>;

    closed spec fn view(&self) -> Set<Seq<char>> {
        names_view(self.names@).to_set()
    }
}

impl TargetVectorRegistry {
    /// The registry of a target selection.
    pub fn new(selection: Option<TargetVariant>) -> (registry: TargetVectorRegistry)
        ensures
            registry@ == known_names(selection),
    {
        match selection {
            None => {
                let registry = TargetVectorRegistry { names: Vec::new() };
                assert(registry@ =~= Set::empty());
                registry
            },
            Some(variant) => TargetVectorRegistry { names: variant.vectors() },
        }
    }

    /// A registry of the given names, in place of a chip's table.
    pub fn from_names(names: Vec<String>) -> (registry: TargetVectorRegistry)
        ensures
            registry@ == names_view(names@).to_set(),
    {
        TargetVectorRegistry { names }
    }

    /// Whether the name is one of the target's interrupt names. Names are
    /// compared letter by letter: case counts.
    pub fn contains(&self, name: &str) -> (found: bool)
        ensures
            found == self@.contains(name@),
    {
        let wanted: String = name.to_owned();
        let mut i: usize = 0;
        while i < self.names.len()
            invariant
                i <= self.names@.len(),
                wanted@ == name@,
                forall|j: int| 0 <= j < i ==> (#[trigger] self.names@[j])@ != name@,
            decreases self.names@.len() - i,
        {
            if self.names[i] == wanted {
                assert(names_view(self.names@)[i as int] == name@);
                return true;
            }
            i += 1;
        }
        false
    }
}

} // verus!
