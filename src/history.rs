//! Linear undo/redo history over a document.
use vstd::prelude::*;

use crate::action::UndoError;
use crate::project::{LocationAndAction, Project, lemma_routed_undo_inverts_edit};

verus! {

/// The commands applied and not undone (most recent last), and the commands
/// undone and available for redo (most recently undone last).
pub struct History {
    done: Vec<LocationAndAction>,
    undone: Vec<LocationAndAction>,
}

impl History {
    /// Commands applied and not yet undone, oldest first.
    pub closed spec fn applied_stack(&self) -> Seq<LocationAndAction> {
        self.done@
    }

    /// Commands undone and available for redo; the next to redo is last.
    pub closed spec fn redo_stack(&self) -> Seq<LocationAndAction> {
        self.undone@
    }

    /// `h1` with document `v1` is the outcome of recording `cmd` in `h0` with
    /// document `v0`.
    pub open spec fn record_step(
        h0: History,
        v0: (Seq<i32>, Seq<String>),
        cmd: LocationAndAction,
        h1: History,
        v1: (Seq<i32>, Seq<String>),
    ) -> bool {
        &&& v1 == cmd.applied(v0)
        &&& h1.applied_stack().len() == h0.applied_stack().len() + 1
        &&& h1.applied_stack().drop_last() == h0.applied_stack()
        &&& h1.applied_stack().last().records(cmd, v0)
        &&& h1.redo_stack() == Seq::<LocationAndAction>::empty()
    }

    /// `h1` with document `v1` and result `r` is the outcome of undo on `h0`
    /// with document `v0`.
    pub open spec fn undo_step(
        h0: History,
        v0: (Seq<i32>, Seq<String>),
        h1: History,
        v1: (Seq<i32>, Seq<String>),
        r: Result<(), UndoError>,
    ) -> bool {
        if h0.applied_stack().len() == 0 {
            &&& r is Ok
            &&& v1 == v0
            &&& h1.applied_stack() == h0.applied_stack()
            &&& h1.redo_stack() == h0.redo_stack()
        } else {
            let top = h0.applied_stack().last();
            &&& r is Ok <==> top.can_undo(v0)
            &&& r is Ok ==> {
                &&& v1 == top.reverted(v0)
                &&& h1.applied_stack() == h0.applied_stack().drop_last()
                &&& h1.redo_stack() == h0.redo_stack().push(top.cleared())
            }
            &&& r is Err ==> {
                &&& v1 == v0
                &&& h1.applied_stack() == h0.applied_stack()
                &&& h1.redo_stack() == h0.redo_stack()
            }
        }
    }

    /// `h1` with document `v1` is the outcome of redo on `h0` with document `v0`.
    pub open spec fn redo_step(
        h0: History,
        v0: (Seq<i32>, Seq<String>),
        h1: History,
        v1: (Seq<i32>, Seq<String>),
    ) -> bool {
        if h0.redo_stack().len() == 0 {
            &&& v1 == v0
            &&& h1.applied_stack() == h0.applied_stack()
            &&& h1.redo_stack() == h0.redo_stack()
        } else {
            let top = h0.redo_stack().last();
            &&& v1 == top.applied(v0)
            &&& h1.redo_stack() == h0.redo_stack().drop_last()
            &&& h1.applied_stack().len() == h0.applied_stack().len() + 1
            &&& h1.applied_stack().drop_last() == h0.applied_stack()
            &&& h1.applied_stack().last().records(top, v0)
        }
    }

    /// An empty history.
    pub fn new() -> (r: History)
        ensures
            r.applied_stack() == Seq::<LocationAndAction>::empty(),
            r.redo_stack() == Seq::<LocationAndAction>::empty(),
    {
        History { done: Vec::new(), undone: Vec::new() }
    }

    /// Some command can be undone.
    pub fn can_undo(&self) -> (r: bool)
        ensures
            r == (self.applied_stack().len() > 0),
    {
        self.done.len() > 0
    }

    /// Some command can be redone.
    pub fn can_redo(&self) -> (r: bool)
        ensures
            r == (self.redo_stack().len() > 0),
    {
        self.undone.len() > 0
    }

    /// Applies `cmd` to `doc`, pushes it onto the undo stack, and empties the
    /// redo stack.
    pub fn record(&mut self, doc: &mut Project, cmd: LocationAndAction)
        ensures
            History::record_step(*old(self), old(doc)@, cmd, *final(self), final(doc)@),
    {
        let mut cmd = cmd;
        cmd.edit(doc);
        self.done.push(cmd);
        self.undone.clear();
        assert(self.done@.drop_last() =~= old(self).done@);
    }

    /// Undoes the most recent command and moves it onto the redo stack. With
    /// nothing to undo this changes nothing. Where the document no longer
    /// matches the command's recorded key, nothing changes and the error is
    /// returned.
    pub fn undo(&mut self, doc: &mut Project) -> (r: Result<(), UndoError>)
        ensures
            History::undo_step(*old(self), old(doc)@, *final(self), final(doc)@, r),
    {
        match self.done.pop() {
            None => Ok(()),
            Some(cmd) => {
                let mut cmd = cmd;
                match cmd.undo(doc) {
                    Ok(()) => {
                        self.undone.push(cmd);
                        Ok(())
                    },
                    Err(e) => {
                        self.done.push(cmd);
                        assert(self.done@ =~= old(self).done@);
                        Err(e)
                    },
                }
            },
        }
    }

    /// Re-applies the most recently undone command and moves it back onto the
    /// undo stack. With nothing to redo this changes nothing.
    pub fn redo(&mut self, doc: &mut Project)
        ensures
            History::redo_step(*old(self), old(doc)@, *final(self), final(doc)@),
    {
        match self.undone.pop() {
            None => {},
            Some(cmd) => {
                let mut cmd = cmd;
                cmd.edit(doc);
                self.done.push(cmd);
                assert(self.done@.drop_last() =~= old(self).done@);
            },
        }
    }
}

/// Recording a command and undoing it at once restores the document exactly,
/// leaves the undo stack as it was, and offers the command, in its unapplied
/// shape, as the only one to redo.
pub proof fn lemma_record_undo_round_trip(
    h0: History,
    v0: (Seq<i32>, Seq<String>),
    cmd: LocationAndAction,
    h1: History,
    v1: (Seq<i32>, Seq<String>),
    h2: History,
    v2: (Seq<i32>, Seq<String>),
    r: Result<(), UndoError>,
)
    requires
        cmd.is_unapplied(),
        History::record_step(h0, v0, cmd, h1, v1),
        History::undo_step(h1, v1, h2, v2, r),
    ensures
        r is Ok,
        v2 == v0,
        h2.applied_stack() == h0.applied_stack(),
        h2.redo_stack() == seq![cmd],
{
    lemma_routed_undo_inverts_edit(cmd, h1.applied_stack().last(), v0);
    assert(Seq::<LocationAndAction>::empty().push(cmd) =~= seq![cmd]);
}

/// Two commands recorded one after the other and then undone twice are undone
/// last first: the first undo restores the document between the two, the
/// second the document before both; the undo stack is back as it was and the
/// first command is the next to redo.
pub proof fn lemma_undo_in_reverse_order(
    h0: History,
    v0: (Seq<i32>, Seq<String>),
    c1: LocationAndAction,
    c2: LocationAndAction,
    h1: History,
    v1: (Seq<i32>, Seq<String>),
    h2: History,
    v2: (Seq<i32>, Seq<String>),
    h3: History,
    v3: (Seq<i32>, Seq<String>),
    r3: Result<(), UndoError>,
    h4: History,
    v4: (Seq<i32>, Seq<String>),
    r4: Result<(), UndoError>,
)
    requires
        c1.is_unapplied(),
        c2.is_unapplied(),
        History::record_step(h0, v0, c1, h1, v1),
        History::record_step(h1, v1, c2, h2, v2),
        History::undo_step(h2, v2, h3, v3, r3),
        History::undo_step(h3, v3, h4, v4, r4),
    ensures
        r3 is Ok,
        v3 == v1,
        r4 is Ok,
        v4 == v0,
        h4.applied_stack() == h0.applied_stack(),
        h4.redo_stack() == seq![c2, c1],
{
    lemma_routed_undo_inverts_edit(c2, h2.applied_stack().last(), v1);
    assert(h3.applied_stack() == h1.applied_stack());
    lemma_routed_undo_inverts_edit(c1, h1.applied_stack().last(), v0);
    assert(Seq::<LocationAndAction>::empty().push(c2).push(c1) =~= seq![c2, c1]);
}

/// Redo after undo re-applies the command: the document is again what
/// recording it produced, and the command again records what it changed.
pub proof fn lemma_undo_redo_round_trip(
    h0: History,
    v0: (Seq<i32>, Seq<String>),
    cmd: LocationAndAction,
    h1: History,
    v1: (Seq<i32>, Seq<String>),
    h2: History,
    v2: (Seq<i32>, Seq<String>),
    r: Result<(), UndoError>,
    h3: History,
    v3: (Seq<i32>, Seq<String>),
)
    requires
        cmd.is_unapplied(),
        History::record_step(h0, v0, cmd, h1, v1),
        History::undo_step(h1, v1, h2, v2, r),
        History::redo_step(h2, v2, h3, v3),
    ensures
        v3 == v1,
        h3.applied_stack().drop_last() == h0.applied_stack(),
        h3.applied_stack().last().records(cmd, v0),
        h3.redo_stack().len() == 0,
{
    lemma_record_undo_round_trip(h0, v0, cmd, h1, v1, h2, v2, r);
}

} // verus!
