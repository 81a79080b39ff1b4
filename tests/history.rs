use edit_history::action::{Action, Add, Delete, EditAct, UndoError};
use edit_history::editable::{Numbers, Strings};
use edit_history::history::History;
use edit_history::project::{LocationAndAction, Project};

fn strs(v: &[&str]) -> Vec<String> {
    v.iter().map(|s| s.to_string()).collect()
}

fn project() -> Project {
    Project { nums: Numbers(vec![1, 2, 3]), strs: Strings(strs(&["a", "b", "c"])) }
}

fn del_num(key: usize) -> LocationAndAction {
    LocationAndAction::Nums(Action::Delete(Delete { key, result: None }))
}

fn del_str(key: usize) -> LocationAndAction {
    LocationAndAction::Strs(Action::Delete(Delete { key, result: None }))
}

#[test]
fn interleaved_fields_undo() {
    let mut p = project();
    let mut h = History::new();
    h.record(&mut p, del_num(0));
    assert_eq!(p.nums.0, vec![2, 3]);
    h.record(&mut p, del_str(0));
    assert_eq!(p.strs.0, strs(&["b", "c"]));
    assert_eq!(h.undo(&mut p), Ok(()));
    assert_eq!(p.strs.0, strs(&["a", "b", "c"]));
    assert_eq!(p.nums.0, vec![2, 3]);
    assert_eq!(h.undo(&mut p), Ok(()));
    assert_eq!(p.nums.0, vec![1, 2, 3]);

    h.record(&mut p, LocationAndAction::Nums(Action::Add(Add { el: 0, key: None })));
    assert_eq!(p.nums.0, vec![1, 2, 3, 0]);
    assert_eq!(h.undo(&mut p), Ok(()));
    assert_eq!(p.nums.0, vec![1, 2, 3]);

    h.record(&mut p, LocationAndAction::Nums(Action::Edit(EditAct { new: 10, key: 0, prev: None })));
    assert_eq!(p.nums.0, vec![10, 2, 3]);
    assert_eq!(h.undo(&mut p), Ok(()));
    assert_eq!(p.nums.0, vec![1, 2, 3]);
}

#[test]
fn delete_in_one_field_leaves_the_other() {
    let mut p = project();
    let mut h = History::new();
    h.record(&mut p, del_num(1));
    assert_eq!(p.nums.0, vec![1, 3]);
    assert_eq!(p.strs.0, strs(&["a", "b", "c"]));
    assert_eq!(h.undo(&mut p), Ok(()));
    assert_eq!(p.nums.0, vec![1, 2, 3]);
    assert_eq!(p.strs.0, strs(&["a", "b", "c"]));
}

#[test]
fn two_edits_undone_in_reverse_order() {
    let mut p = project();
    let mut h = History::new();
    h.record(&mut p, LocationAndAction::Nums(Action::Edit(EditAct { new: 10, key: 0, prev: None })));
    h.record(&mut p, LocationAndAction::Nums(Action::Edit(EditAct { new: 20, key: 0, prev: None })));
    assert_eq!(p.nums.0, vec![20, 2, 3]);
    assert_eq!(h.undo(&mut p), Ok(()));
    assert_eq!(p.nums.0, vec![10, 2, 3]);
    assert_eq!(h.undo(&mut p), Ok(()));
    assert_eq!(p.nums.0, vec![1, 2, 3]);
    assert!(!h.can_undo());
}

#[test]
fn undo_on_empty_history_is_noop() {
    let mut p = project();
    let mut h = History::new();
    assert!(!h.can_undo());
    assert_eq!(h.undo(&mut p), Ok(()));
    assert_eq!(p.nums.0, vec![1, 2, 3]);
    assert_eq!(p.strs.0, strs(&["a", "b", "c"]));
    h.redo(&mut p);
    assert_eq!(p.nums.0, vec![1, 2, 3]);
}

#[test]
fn redo_reapplies_undone_command() {
    let mut p = project();
    let mut h = History::new();
    h.record(&mut p, del_str(1));
    assert_eq!(h.undo(&mut p), Ok(()));
    assert!(h.can_redo());
    h.redo(&mut p);
    assert_eq!(p.strs.0, strs(&["a", "c"]));
    assert!(!h.can_redo());
    assert!(h.can_undo());
    assert_eq!(h.undo(&mut p), Ok(()));
    assert_eq!(p.strs.0, strs(&["a", "b", "c"]));
}

#[test]
fn record_clears_redo_stack() {
    let mut p = project();
    let mut h = History::new();
    h.record(&mut p, del_num(0));
    assert_eq!(h.undo(&mut p), Ok(()));
    assert!(h.can_redo());
    h.record(&mut p, del_num(2));
    assert!(!h.can_redo());
    assert_eq!(p.nums.0, vec![1, 2]);
}

#[test]
fn history_delete_out_of_range_is_noop() {
    let mut p = project();
    let mut h = History::new();
    h.record(&mut p, del_num(7));
    assert_eq!(p.nums.0, vec![1, 2, 3]);
    assert_eq!(h.undo(&mut p), Ok(()));
    assert_eq!(p.nums.0, vec![1, 2, 3]);
}

#[test]
fn history_undo_error_keeps_command() {
    let mut p = project();
    let mut h = History::new();
    h.record(&mut p, LocationAndAction::Strs(Action::Edit(EditAct { new: "z".to_string(), key: 2, prev: None })));
    p.strs.0.clear();
    assert_eq!(h.undo(&mut p), Err(UndoError::InvalidKey));
    assert!(p.strs.0.is_empty());
    assert!(h.can_undo());
    assert!(!h.can_redo());
}
