//! Single-slot holder for the most recent full-screen capture, staged for the
//! overlay UI to display as its background.

use vstd::prelude::*;

verus! {

/// Holds at most one encoded snapshot at a time. A new capture always
/// overwrites the previous value; reads hand out a copy and never consume
/// the slot.
pub struct SnapshotStore {
    slot: Option<Vec<u8>>,
}

impl View for SnapshotStore {
    type V = Option<Seq<u8>>;

    /// The staged snapshot, if any, as a sequence of bytes.
    closed spec fn view(&self) -> Option<Seq<u8>> {
        match self.slot {
            Some(ref v) => Some(v@),
            None => None,
        }
    }
}

impl SnapshotStore {
    /// A fresh store holds no snapshot.
    pub fn new() -> (s: SnapshotStore)
        ensures
            s@ is None,
    {
        SnapshotStore { slot: None }
    }

    /// Stage a snapshot, overwriting any prior value.
    pub fn set(&mut self, value: Vec<u8>)
        ensures
            final(self)@ == Some(value@),
    {
        self.slot = Some(value);
    }

    /// Read the staged snapshot without clearing it; returns a copy.
    pub fn get(&self) -> (r: Option<Vec<u8>>)
        ensures
            match r {
                Some(v) => self@ == Some(v@),
                None => self@ is None,
            },
    {
        match &self.slot {
            Some(v) => Some(v.clone()),
            None => None,
        }
    }

    /// Empty the slot; a no-op when it is already empty.
    pub fn clear(&mut self)
        ensures
            final(self)@ is None,
    {
        self.slot = None;
    }
}

} // verus!
