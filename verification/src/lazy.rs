//! The lazy-once slot a process-wide group lives in.

use vstd::prelude::*;

use crate::group::LibraryGroup;

verus! {

/// What one install attempt leaves in the slot: a filled slot stays as
/// it is, an empty one takes the offered group.
pub open spec fn install_step(s: Option<LibraryGroup>, g: LibraryGroup) -> Option<LibraryGroup> {
    if s is Some {
        s
    } else {
        Some(g)
    }
}

/// The slot after a whole run of install attempts, in order.
pub open spec fn after_installs(s: Option<LibraryGroup>, gs: Seq<LibraryGroup>) -> Option<
    LibraryGroup,
>
    decreases gs.len(),
{
    if gs.len() == 0 {
        s
    } else {
        after_installs(install_step(s, gs[0]), gs.skip(1))
    }
}

/// Idempotence law, first half: once the slot holds a table, any number
/// of further install attempts — from however many racing builders —
/// leaves that very table in place.
pub proof fn lemma_built_once(s: Option<LibraryGroup>, gs: Seq<LibraryGroup>)
    requires
        s is Some,
    ensures
        after_installs(s, gs) == s,
    decreases gs.len(),
{
    if gs.len() > 0 {
        lemma_built_once(s, gs.skip(1));
    }
}

/// Idempotence law, second half: from an empty slot, the first build to
/// arrive is the one that every later access observes; the builds behind
/// it change nothing.
pub proof fn lemma_first_build_wins(gs: Seq<LibraryGroup>)
    requires
        gs.len() > 0,
    ensures
        after_installs(None, gs) == Some(gs[0]),
{
    lemma_built_once(Some(gs[0]), gs.skip(1));
}

/// A slot that holds a built group at most once.  `install` fills an empty
/// slot and refuses a filled one, so whatever synchronization the
/// embedding program wraps around it, the first build wins and the table
/// never changes afterwards.
pub struct LazyGroup {
    pub cell: Option<LibraryGroup>,
}

impl LazyGroup {
    /// An empty slot: no build has happened.
    pub fn new() -> (c: Self)
        ensures
            c.cell is None,
    {
        LazyGroup { cell: None }
    }

    /// Whether a group was installed.
    pub fn is_built(&self) -> (r: bool)
        ensures
            r == (self.cell is Some),
    {
        self.cell.is_some()
    }

    /// The installed group, if any.
    pub fn get(&self) -> (r: Option<&LibraryGroup>)
        ensures
            r is Some <==> self.cell is Some,
            r matches Some(g) ==> self.cell == Some(*g),
    {
        self.cell.as_ref()
    }

    /// Install a built group.  A second install changes nothing and hands
    /// the rejected group back.
    pub fn install(&mut self, g: LibraryGroup) -> (r: Result<(), LibraryGroup>)
        ensures
            final(self).cell == install_step(old(self).cell, g),
            old(self).cell is None ==> final(self).cell == Some(g) && r is Ok,
            old(self).cell is Some ==> *final(self) == *old(self) && r == Err::<(), LibraryGroup>(g),
    {
        if self.cell.is_some() {
            Err(g)
        } else {
            self.cell = Some(g);
            Ok(())
        }
    }
}

} // verus!
