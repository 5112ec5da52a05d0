//! Nesting-safe critical sections on one core.
//!
//! Entering a section masks interrupts and remembers whether they were
//! enabled; leaving it restores exactly that, so a section entered inside
//! another (possibly another cell's) leaves interrupts masked for the outer one.

use vstd::prelude::*;

verus! {

/// The interrupt mask as critical sections see it, and how deeply sections
/// are nested.
#[derive(Clone, Copy, Debug, PartialEq, Eq, Structural)]
pub struct CriticalSectionState {
    pub interrupts_enabled: bool,
    pub depth: u32,
}

/// Entering a section from `s`: what to remember, and the state inside.
pub open spec fn spec_acquire(s: CriticalSectionState) -> (bool, CriticalSectionState) {
    (s.interrupts_enabled, CriticalSectionState { interrupts_enabled: false, depth: (s.depth + 1) as u32 })
}

/// Leaving a section from `s` with the remembered `restore`.
pub open spec fn spec_release(s: CriticalSectionState, restore: bool) -> CriticalSectionState {
    CriticalSectionState {
        interrupts_enabled: s.interrupts_enabled || restore,
        depth: (s.depth - 1) as u32,
    }
}

impl CriticalSectionState {
    /// The state outside every section, with interrupts enabled.
    pub fn new() -> (r: Self)
        ensures
            r.interrupts_enabled,
            r.depth == 0,
    {
        CriticalSectionState { interrupts_enabled: true, depth: 0 }
    }

    /// Enters a section: interrupts get masked. Returns whether they were
    /// enabled, which leaving the section needs.
    pub fn acquire(&mut self) -> (was_active: bool)
        requires
            old(self).depth < u32::MAX,
        ensures
            (was_active, *final(self)) == spec_acquire(*old(self)),
    {
        let was_active = self.interrupts_enabled;
        self.interrupts_enabled = false;
        self.depth = self.depth + 1;
        was_active
    }

    /// Leaves a section entered when interrupts were enabled exactly where
    /// `was_active`: interrupts are enabled again only then. Returns whether
    /// they must be enabled now.
    pub fn release(&mut self, was_active: bool) -> (enable: bool)
        requires
            old(self).depth > 0,
        ensures
            *final(self) == spec_release(*old(self), was_active),
            enable == was_active,
    {
        if was_active {
            self.interrupts_enabled = true;
        }
        self.depth = self.depth - 1;
        was_active
    }
}

/// A section entered and left with another section entered and left inside
/// it restores exactly the state it was entered from, and leaving the inner
/// section keeps interrupts masked for the outer one.
pub proof fn lemma_nested_sections_restore(s: CriticalSectionState)
    requires
        s.depth + 2 <= u32::MAX,
    ensures
        ({
            let (outer, s1) = spec_acquire(s);
            let (inner, s2) = spec_acquire(s1);
            let s3 = spec_release(s2, inner);
            let s4 = spec_release(s3, outer);
            &&& !s3.interrupts_enabled
            &&& s4 == s
        }),
{
}

} // verus!
