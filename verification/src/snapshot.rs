//! The snapshot that lookups are answered from, and the slot that holds it.

use std::sync::Arc;
use vstd::prelude::*;
use crate::error::ServiceError;
use crate::wire::{StateKey, StateValue};

verus! {

/// Why a snapshot could not answer a lookup.
#[derive(Clone, Debug, PartialEq, Eq)]
pub struct StateViewError {
    /// What went wrong, for a person to read.
    pub reason: String,
}

/// A read-only view over all state as of one point in time.
///
/// The service asks a snapshot one thing only: the value that a key holds.
/// How the snapshot finds it is its own affair.
pub trait StateView {
    /// Looks `state_key` up. A key that holds no value is no error: it is
    /// answered with `Ok(None)`.
    fn get_state_value(&self, state_key: &StateKey) -> Result<Option<StateValue>, StateViewError>;
}

/// Whether `answer` is one that `snapshot` can give when asked for the key
/// with the bytes `key`.
pub open spec fn answers<S: StateView>(
    snapshot: S,
    key: Seq<u8>,
    answer: Result<Option<StateValue>, StateViewError>,
) -> bool {
    exists|state_key: StateKey|
        state_key@ == key && #[trigger] call_ensures(
            S::get_state_value,
            (&snapshot, &state_key),
            answer,
        )
}

/// What the service makes of a snapshot's answer: the value, or `None` for a
/// key that holds none, is handed on as it came; a failure of the snapshot
/// becomes `Lookup`.
pub open spec fn outcome(answer: Result<Option<StateValue>, StateViewError>) -> Result<
    Option<StateValue>,
    ServiceError,
> {
    match answer {
        Ok(value) => Ok(value),
        Err(_) => Err(ServiceError::Lookup),
    }
}

/// Whether `found` is what the service can make of asking `snapshot` for
/// `key`: there is an answer that the snapshot can give, and `found` is its
/// outcome.
pub open spec fn answered<S: StateView>(
    snapshot: S,
    key: Seq<u8>,
    found: Result<Option<StateValue>, ServiceError>,
) -> bool {
    exists|answer: Result<Option<StateValue>, StateViewError>|
        #[trigger] answers(snapshot, key, answer) && found == outcome(answer)
}

/// Whether `found` is what a lookup of `key` can give when `current` is the
/// slot's content: `NoStateView` where the slot is empty, and else what the
/// snapshot that the slot holds is answered with.
pub open spec fn reads<S: StateView>(
    current: Option<S>,
    key: Seq<u8>,
    found: Result<Option<StateValue>, ServiceError>,
) -> bool {
    match current {
        None => found == Err::<Option<StateValue>, ServiceError>(ServiceError::NoStateView),
        Some(snapshot) => answered(snapshot, key, found),
    }
}

/// The content of the slot after `snapshot` was installed over `before`:
/// the new snapshot alone, whatever the slot held.
pub open spec fn replaced<S: StateView>(before: Option<S>, snapshot: S) -> Option<S> {
    Some(snapshot)
}

/// The cell that holds the current snapshot.
///
/// It starts empty. `replace` installs a snapshot in place of whatever was
/// there, and every lookup is answered from the snapshot that the slot holds
/// at the moment of that lookup. The snapshots themselves are shared and
/// never changed; only the slot's content changes.
pub struct SnapshotSlot<S: StateView> {
    current: Option<Arc<S>>,
}

impl<S: StateView> View for SnapshotSlot<S> {
    type V = Option<S>;

    closed spec fn view(&self) -> Option<S> {
        match self.current {
            Some(snapshot) => Some(*snapshot),
            None => None,
        }
    }
}

impl<S: StateView> SnapshotSlot<S> {
    /// The empty slot.
    pub fn new() -> (slot: Self)
        ensures
            slot@ is None,
    {
        SnapshotSlot { current: None }
    }

    /// Whether a snapshot was ever installed.
    pub fn is_set(&self) -> (set: bool)
        ensures
            set == self@ is Some,
    {
        self.current.is_some()
    }

    /// Installs `snapshot` as the current one. The snapshot that was current
    /// is let go; whoever still holds it keeps reading it unchanged.
    pub fn replace(&mut self, snapshot: Arc<S>)
        ensures
            final(self)@ == replaced(old(self)@, *snapshot),
    {
        self.current = Some(snapshot);
    }

    /// Looks one key up in the snapshot that is current at this call.
    ///
    /// Fails with `NoStateView` where no snapshot was ever installed, and
    /// with `Lookup` where the snapshot cannot answer. A key that holds no
    /// value is answered with `Ok(None)`.
    pub fn read_one(&self, key: &StateKey) -> (found: Result<Option<StateValue>, ServiceError>)
        ensures
            reads(self@, key@, found),
    {
        match &self.current {
            None => {
                Err(ServiceError::NoStateView)
            },
            Some(snapshot) => {
                let answer = snapshot.get_state_value(key);
                let ghost given = answer;
                let found = match answer {
                    Ok(value) => Ok(value),
                    Err(_) => Err(ServiceError::Lookup),
                };
                assert(answered(**snapshot, key@, found)) by {
                    assert(answers(**snapshot, key@, given) && found == outcome(given));
                }
                found
            },
        }
    }
}

} // verus!
