//! Reversible commands on one editable collection.
use vstd::prelude::*;

use crate::editable::Editable;

verus! {

/// Removes the element at `key`; once applied, `result` holds what was removed.
pub struct Delete<T: Editable + Clone> {
    pub key: T::Key,
    pub result: Option<T::Element>,
}

/// Appends `el`; once applied, `key` holds the key it was given.
pub struct Add<T: Editable + Clone> {
    pub el: T::Element,
    pub key: Option<T::Key>,
}

/// Replaces the element at `key` by `new`; once applied, `prev` holds the
/// element it replaced.
pub struct EditAct<T: Editable + Clone> {
    pub new: T::Element,
    pub key: T::Key,
    pub prev: Option<T::Element>,
}

/// One reversible command on a collection of type `T`.
pub enum Action<T: Editable + Clone> {
    Delete(Delete<T>),
    Add(Add<T>),
    Edit(EditAct<T>),
}

/// Undo found the collection out of step with the command: the key that the
/// command recorded no longer addresses a valid position.
#[derive(Clone, Copy, Debug, PartialEq, Eq, Structural)]
pub enum UndoError {
    InvalidKey,
}

impl<T: Editable + Clone> Action<T> {
    /// The command carries no inversion data: it is in its not-yet-applied shape.
    pub open spec fn is_unapplied(self) -> bool {
        match self {
            Action::Delete(d) => d.result is None,
            Action::Add(a) => a.key is None,
            Action::Edit(e) => e.prev is None,
        }
    }

    /// The contents after applying the command to `s`.
    pub open spec fn applied(self, s: Seq<T::Element>) -> Seq<T::Element> {
        match self {
            Action::Delete(d) => {
                let i = T::key_index(d.key);
                if 0 <= i < s.len() { s.remove(i) } else { s }
            },
            Action::Add(a) => s.push(a.el),
            Action::Edit(e) => {
                let i = T::key_index(e.key);
                if 0 <= i < s.len() { s.update(i, e.new) } else { s }
            },
        }
    }

    /// `self` is `cmd` after applying it to contents `s`: the inversion slot
    /// holds what the collection reported, and nothing else changed.
    pub open spec fn records(self, cmd: Self, s: Seq<T::Element>) -> bool {
        match (cmd, self) {
            (Action::Delete(d), Action::Delete(r)) => {
                let i = T::key_index(d.key);
                &&& r.key == d.key
                &&& r.result == if 0 <= i < s.len() { Some(s[i]) } else { None }
            },
            (Action::Add(a), Action::Add(r)) => {
                &&& r.el == a.el
                &&& r.key is Some
                &&& T::key_index(r.key->Some_0) == s.len()
            },
            (Action::Edit(e), Action::Edit(r)) => {
                let i = T::key_index(e.key);
                &&& r.new == e.new
                &&& r.key == e.key
                &&& r.prev == if 0 <= i < s.len() { Some(s[i]) } else { None }
            },
            _ => false,
        }
    }

    /// Undoing the command on contents `s` finds its recorded key valid.
    pub open spec fn can_undo(self, s: Seq<T::Element>) -> bool {
        match self {
            Action::Delete(d) => match d.result {
                Some(_) => 0 <= T::key_index(d.key) <= s.len(),
                None => true,
            },
            Action::Add(a) => match a.key {
                Some(k) => 0 <= T::key_index(k) < s.len(),
                None => true,
            },
            Action::Edit(e) => match e.prev {
                Some(_) => 0 <= T::key_index(e.key) < s.len(),
                None => true,
            },
        }
    }

    /// The contents after undoing the command on `s`, where `can_undo` holds.
    pub open spec fn reverted(self, s: Seq<T::Element>) -> Seq<T::Element> {
        match self {
            Action::Delete(d) => match d.result {
                Some(el) => s.insert(T::key_index(d.key), el),
                None => s,
            },
            Action::Add(a) => match a.key {
                Some(k) => s.remove(T::key_index(k)),
                None => s,
            },
            Action::Edit(e) => match e.prev {
                Some(p) => s.update(T::key_index(e.key), p),
                None => s,
            },
        }
    }

    /// The command with its inversion slot emptied.
    pub open spec fn cleared(self) -> Self {
        match self {
            Action::Delete(d) => Action::Delete(Delete { key: d.key, result: None }),
            Action::Add(a) => Action::Add(Add { el: a.el, key: None }),
            Action::Edit(e) => Action::Edit(EditAct { new: e.new, key: e.key, prev: None }),
        }
    }

    /// Applies the command to `target` and records in the command what undo needs.
    pub fn edit(&mut self, target: &mut T)
        ensures
            final(target).items() == old(self).applied(old(target).items()),
            final(self).records(*old(self), old(target).items()),
    {
        match self {
            Action::Delete(del) => {
                let res = target.delete(&del.key);
                del.result = res;
            },
            Action::Add(add) => {
                let key = target.add(&add.el);
                add.key = Some(key);
            },
            Action::Edit(ed) => {
                let res = target.edit(&ed.key, &ed.new);
                ed.prev = res;
            },
        }
    }

    /// Reverts the command on `target` and empties its inversion slot. A
    /// command whose slot is empty is left as it is and changes nothing. Where
    /// the recorded key no longer addresses a valid position, nothing changes
    /// and the error is returned.
    pub fn undo(&mut self, target: &mut T) -> (r: Result<(), UndoError>)
        ensures
            r is Ok <==> old(self).can_undo(old(target).items()),
            r is Ok ==> final(target).items() == old(self).reverted(old(target).items())
                && *final(self) == old(self).cleared(),
            r is Err ==> final(target).items() == old(target).items() && *final(self)
                == *old(self),
    {
        match self {
            Action::Delete(del) => match &del.result {
                None => Ok(()),
                Some(el) => {
                    if target.insert(&del.key, el) {
                        del.result = None;
                        Ok(())
                    } else {
                        Err(UndoError::InvalidKey)
                    }
                },
            },
            Action::Add(add) => match &add.key {
                None => Ok(()),
                Some(key) => match target.delete(key) {
                    Some(_) => {
                        add.key = None;
                        Ok(())
                    },
                    None => Err(UndoError::InvalidKey),
                },
            },
            Action::Edit(ed) => match &ed.prev {
                None => Ok(()),
                Some(p) => match target.edit(&ed.key, p) {
                    Some(_) => {
                        ed.prev = None;
                        Ok(())
                    },
                    None => Err(UndoError::InvalidKey),
                },
            },
        }
    }
}

/// Inverse law: a command applied to contents `s` and then undone leaves the
/// contents exactly as they were, and the command back in its unapplied shape.
pub proof fn lemma_undo_inverts_edit<T: Editable + Clone>(
    cmd: Action<T>,
    done: Action<T>,
    s: Seq<T::Element>,
)
    requires
        cmd.is_unapplied(),
        done.records(cmd, s),
    ensures
        done.can_undo(cmd.applied(s)),
        done.reverted(cmd.applied(s)) == s,
        done.cleared() == cmd,
{
    match (cmd, done) {
        (Action::Delete(d), Action::Delete(r)) => {
            let i = T::key_index(d.key);
            if 0 <= i < s.len() {
                assert(s.remove(i).insert(i, s[i]) =~= s);
            }
        },
        (Action::Add(a), Action::Add(r)) => {
            assert(s.push(a.el).remove(s.len() as int) =~= s);
        },
        (Action::Edit(e), Action::Edit(r)) => {
            let i = T::key_index(e.key);
            if 0 <= i < s.len() {
                assert(s.update(i, e.new).update(i, s[i]) =~= s);
            }
        },
        _ => {},
    }
}

/// A delete whose key is out of range changes nothing, records nothing, and
/// its undo changes nothing either.
pub proof fn lemma_delete_out_of_range<T: Editable + Clone>(
    cmd: Action<T>,
    done: Action<T>,
    s: Seq<T::Element>,
)
    requires
        cmd is Delete,
        !(0 <= T::key_index(cmd->Delete_0.key) < s.len()),
        done.records(cmd, s),
    ensures
        cmd.applied(s) == s,
        done is Delete && done->Delete_0.result is None,
        done.can_undo(s),
        done.reverted(s) == s,
{
}

} // verus!
