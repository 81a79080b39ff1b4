//! The capability a collection needs in order to be edited reversibly,
//! and two collections that have it.
use vstd::prelude::*;

verus! {

/// An ordered collection whose elements are addressed by a positional key.
///
/// `items` is the abstract contents; `key_index` is the position a key names.
pub trait Editable: Sized {
    type Element: Clone;
    type Key;

    /// The contents, in order.
    spec fn items(&self) -> Seq<Self::Element>;

    /// The 0-based position that `key` addresses.
    spec fn key_index(key: Self::Key) -> int;

    /// Appends `new` and returns the key of the position it now occupies.
    fn add(&mut self, new: &Self::Element) -> (r: Self::Key)
        ensures
            final(self).items() == old(self).items().push(*new),
            Self::key_index(r) == old(self).items().len(),
    ;

    /// Removes and returns the element at `key`; an out-of-range key changes nothing.
    fn delete(&mut self, key: &Self::Key) -> (r: Option<Self::Element>)
        ensures
            ({
                let i = Self::key_index(*key);
                let s = old(self).items();
                if 0 <= i < s.len() {
                    r == Some(s[i]) && final(self).items() == s.remove(i)
                } else {
                    r is None && final(self).items() == s
                }
            }),
    ;

    /// Replaces the element at `key` with `edit` and returns the one it replaced;
    /// an out-of-range key changes nothing.
    fn edit(&mut self, key: &Self::Key, edit: &Self::Element) -> (r: Option<Self::Element>)
        ensures
            ({
                let i = Self::key_index(*key);
                let s = old(self).items();
                if 0 <= i < s.len() {
                    r == Some(s[i]) && final(self).items() == s.update(i, *edit)
                } else {
                    r is None && final(self).items() == s
                }
            }),
    ;

    /// Inserts `insert` at `key`, shifting later elements up. Every position up
    /// to and including one past the end is accepted; any other key changes
    /// nothing and is reported by returning `false`.
    fn insert(&mut self, key: &Self::Key, insert: &Self::Element) -> (r: bool)
        ensures
            ({
                let i = Self::key_index(*key);
                let s = old(self).items();
                &&& r == (0 <= i <= s.len())
                &&& r ==> final(self).items() == s.insert(i, *insert)
                &&& !r ==> final(self).items() == s
            }),
    ;
}

/// A sequence of integers.
#[derive(Clone, Debug)]
pub struct Numbers(pub Vec<i32>);

impl Editable for Numbers {
    type Element = i32;
    type Key = usize;

    open spec fn items(&self) -> Seq<i32> {
        self.0@
    }

    open spec fn key_index(key: usize) -> int {
        key as int
    }

    fn add(&mut self, new: &i32) -> (r: usize) {
        self.0.push(*new);
        self.0.len() - 1
    }

    fn delete(&mut self, key: &usize) -> (r: Option<i32>) {
        if *key >= self.0.len() {
            None
        } else {
            let el = self.0.remove(*key);
            Some(el)
        }
    }

    fn edit(&mut self, key: &usize, edit: &i32) -> (r: Option<i32>) {
        if *key < self.0.len() {
            let output = self.0[*key];
            self.0.set(*key, *edit);
            Some(output)
        } else {
            None
        }
    }

    fn insert(&mut self, key: &usize, insert: &i32) -> (r: bool) {
        if *key > self.0.len() {
            false
        } else {
            self.0.insert(*key, *insert);
            true
        }
    }
}

/// A sequence of strings.
#[derive(Clone, Debug)]
pub struct Strings(pub Vec<String>);

impl Editable for Strings {
    type Element = String;
    type Key = usize;

    open spec fn items(&self) -> Seq<String> {
        self.0@
    }

    open spec fn key_index(key: usize) -> int {
        key as int
    }

    fn add(&mut self, new: &String) -> (r: usize) {
        self.0.push(new.clone());
        self.0.len() - 1
    }

    fn delete(&mut self, key: &usize) -> (r: Option<String>) {
        if *key >= self.0.len() {
            None
        } else {
            let el = self.0.remove(*key);
            Some(el)
        }
    }

    fn edit(&mut self, key: &usize, edit: &String) -> (r: Option<String>) {
        if *key < self.0.len() {
            let output = self.0[*key].clone();
            self.0.set(*key, edit.clone());
            Some(output)
        } else {
            None
        }
    }

    fn insert(&mut self, key: &usize, insert: &String) -> (r: bool) {
        if *key > self.0.len() {
            false
        } else {
            self.0.insert(*key, insert.clone());
            true
        }
    }
}

} // verus!
