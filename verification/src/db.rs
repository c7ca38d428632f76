//! The partitions of the key-value store, and what they hold.
//!
//! The store itself is kept by the program around this library. Here stands
//! what the rules of the library need of it: the name and the types of each
//! partition, and a model of a partition as a map from keys to values, with
//! the effect that each write has on it.

pub mod table;

use vstd::prelude::*;

verus! {

/// A partition of the store: its name, the types of its keys and values, and
/// how it is opened.
pub trait Table {
    /// The type of the keys.
    type Key;

    /// The type of the values.
    type Value;

    /// The name of the partition.
    spec fn spec_name() -> Seq<char>;

    /// Whether the partition is opened by a function of its own in place of
    /// the common one.
    spec fn spec_has_get_tree() -> bool;

    /// The name of the partition.
    fn name() -> (name: &'static str)
        ensures
            name@ == Self::spec_name(),
    ;

    /// Whether the partition is opened by a function of its own in place of
    /// the common one.
    fn has_get_tree() -> (custom: bool)
        ensures
            custom == Self::spec_has_get_tree(),
    ;
}

/// The way in which a partition is opened.
#[derive(Clone, Copy, Debug, PartialEq, Eq, Structural)]
pub enum Acquisition {
    /// Opened, or made where it does not exist yet, from the handle of the
    /// whole store.
    Common,
    /// Opened by the function that the partition brings.
    Custom,
}

impl Acquisition {
    /// What is reported where the partition could not be opened in this way.
    /// The partition cannot be used then, whatever the request.
    pub open spec fn spec_failure(self) -> Seq<char> {
        match self {
            Acquisition::Common => "failed to load database"@,
            Acquisition::Custom => "failed to run custom db-loading function"@,
        }
    }

    /// What is reported where the partition could not be opened in this way.
    /// The partition cannot be used then, whatever the request.
    pub fn failure(self) -> (words: &'static str)
        ensures
            words@ == self.spec_failure(),
    {
        match self {
            Acquisition::Common => "failed to load database",
            Acquisition::Custom => "failed to run custom db-loading function",
        }
    }
}

/// The way in which the partition `T` is opened: by its own function where
/// it brings one, else by the common one.
pub fn acquisition<T: Table>() -> (how: Acquisition)
    ensures
        how == if T::spec_has_get_tree() {
            Acquisition::Custom
        } else {
            Acquisition::Common
        },
{
    if T::has_get_tree() {
        Acquisition::Custom
    } else {
        Acquisition::Common
    }
}

/// What stands under `key` in `contents`, if anything does.
pub open spec fn stored<K, V>(contents: Map<K, V>, key: K) -> Option<V> {
    if contents.dom().contains(key) {
        Some(contents[key])
    } else {
        None
    }
}

/// What a partition holds after `value` was written under `key`: the value
/// stands there, whether or not another stood there before.
pub open spec fn inserted<K, V>(contents: Map<K, V>, key: K, value: V) -> Map<K, V> {
    contents.insert(key, value)
}

/// What a partition holds after `key` was deleted.
pub open spec fn deleted<K, V>(contents: Map<K, V>, key: K) -> Map<K, V> {
    contents.remove(key)
}

/// What a partition holds after what stands under `key` was replaced, in one
/// step, by `next`: the value that a transform made of what stood there
/// before. Where the transform gave nothing, nothing stands there any more.
pub open spec fn replaced<K, V>(contents: Map<K, V>, key: K, next: Option<V>) -> Map<K, V> {
    match next {
        Some(value) => contents.insert(key, value),
        None => contents.remove(key),
    }
}

/// Whether `entries` lists `contents`: each key once, with its value.
pub open spec fn lists<K, V>(entries: Seq<(K, V)>, contents: Map<K, V>) -> bool {
    &&& forall|i: int|
        0 <= i < entries.len() ==> contents.dom().contains((#[trigger] entries[i]).0)
            && contents[entries[i].0] == entries[i].1
    &&& forall|key: K| #[trigger]
        contents.dom().contains(key) ==> exists|i: int|
            0 <= i < entries.len() && (#[trigger] entries[i]).0 == key
    &&& forall|i: int, j: int|
        0 <= i < j < entries.len() ==> (#[trigger] entries[i]).0 != (#[trigger] entries[j]).0
}

} // verus!
