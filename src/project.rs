//! A document of two independent fields, and commands routed to one of them.
use vstd::prelude::*;

use crate::action::{Action, UndoError, lemma_undo_inverts_edit};
use crate::editable::{Editable, Numbers, Strings};

verus! {

/// The document: a sequence of numbers and a sequence of strings.
#[derive(Clone, Debug)]
pub struct Project {
    pub nums: Numbers,
    pub strs: Strings,
}

impl View for Project {
    type V = (Seq<i32>, Seq<String>);

    open spec fn view(&self) -> (Seq<i32>, Seq<String>) {
        (self.nums.items(), self.strs.items())
    }
}

/// A command tagged with the field of the document it targets.
pub enum LocationAndAction {
    Nums(Action<Numbers>),
    Strs(Action<Strings>),
}

impl LocationAndAction {
    /// The wrapped command carries no inversion data.
    pub open spec fn is_unapplied(self) -> bool {
        match self {
            LocationAndAction::Nums(a) => a.is_unapplied(),
            LocationAndAction::Strs(a) => a.is_unapplied(),
        }
    }

    /// The document after applying the command to `v`.
    pub open spec fn applied(self, v: (Seq<i32>, Seq<String>)) -> (Seq<i32>, Seq<String>) {
        match self {
            LocationAndAction::Nums(a) => (a.applied(v.0), v.1),
            LocationAndAction::Strs(a) => (v.0, a.applied(v.1)),
        }
    }

    /// `self` is `cmd` after applying it to document `v`.
    pub open spec fn records(self, cmd: Self, v: (Seq<i32>, Seq<String>)) -> bool {
        match (cmd, self) {
            (LocationAndAction::Nums(c), LocationAndAction::Nums(r)) => r.records(c, v.0),
            (LocationAndAction::Strs(c), LocationAndAction::Strs(r)) => r.records(c, v.1),
            _ => false,
        }
    }

    /// Undoing the command on document `v` finds its recorded key valid.
    pub open spec fn can_undo(self, v: (Seq<i32>, Seq<String>)) -> bool {
        match self {
            LocationAndAction::Nums(a) => a.can_undo(v.0),
            LocationAndAction::Strs(a) => a.can_undo(v.1),
        }
    }

    /// The document after undoing the command on `v`, where `can_undo` holds.
    pub open spec fn reverted(self, v: (Seq<i32>, Seq<String>)) -> (Seq<i32>, Seq<String>) {
        match self {
            LocationAndAction::Nums(a) => (a.reverted(v.0), v.1),
            LocationAndAction::Strs(a) => (v.0, a.reverted(v.1)),
        }
    }

    /// The command with its inversion slot emptied.
    pub open spec fn cleared(self) -> Self {
        match self {
            LocationAndAction::Nums(a) => LocationAndAction::Nums(a.cleared()),
            LocationAndAction::Strs(a) => LocationAndAction::Strs(a.cleared()),
        }
    }

    /// Applies the command to the field of `target` that it names.
    pub fn edit(&mut self, target: &mut Project)
        ensures
            final(target)@ == old(self).applied(old(target)@),
            final(self).records(*old(self), old(target)@),
    {
        match self {
            LocationAndAction::Nums(action) => {
                let target_field = &mut target.nums;
                action.edit(target_field);
            },
            LocationAndAction::Strs(action) => {
                let target_field = &mut target.strs;
                action.edit(target_field);
            },
        }
    }

    /// Undoes the command on the field of `target` that it names; on error
    /// nothing changes.
    pub fn undo(&mut self, target: &mut Project) -> (r: Result<(), UndoError>)
        ensures
            r is Ok <==> old(self).can_undo(old(target)@),
            r is Ok ==> final(target)@ == old(self).reverted(old(target)@) && *final(self)
                == old(self).cleared(),
            r is Err ==> final(target)@ == old(target)@ && *final(self) == *old(self),
    {
        match self {
            LocationAndAction::Nums(action) => {
                let target_field = &mut target.nums;
                action.undo(target_field)
            },
            LocationAndAction::Strs(action) => {
                let target_field = &mut target.strs;
                action.undo(target_field)
            },
        }
    }
}

/// Inverse law on the whole document: applying a routed command and then
/// undoing it restores every field exactly.
pub proof fn lemma_routed_undo_inverts_edit(
    cmd: LocationAndAction,
    done: LocationAndAction,
    v: (Seq<i32>, Seq<String>),
)
    requires
        cmd.is_unapplied(),
        done.records(cmd, v),
    ensures
        done.can_undo(cmd.applied(v)),
        done.reverted(cmd.applied(v)) == v,
        done.cleared() == cmd,
{
    match (cmd, done) {
        (LocationAndAction::Nums(c), LocationAndAction::Nums(r)) => {
            lemma_undo_inverts_edit(c, r, v.0);
        },
        (LocationAndAction::Strs(c), LocationAndAction::Strs(r)) => {
            lemma_undo_inverts_edit(c, r, v.1);
        },
        _ => {},
    }
}

/// A command routed to one field leaves every other field unchanged, both
/// when applied and when undone.
pub proof fn lemma_other_field_unchanged(cmd: LocationAndAction, v: (Seq<i32>, Seq<String>))
    ensures
        cmd is Nums ==> cmd.applied(v).1 == v.1 && cmd.reverted(v).1 == v.1,
        cmd is Strs ==> cmd.applied(v).0 == v.0 && cmd.reverted(v).0 == v.0,
{
}

} // verus!
