//! The one replay session of a run: the state snapshot that every block is
//! executed against.

use crate::chain::BlockHash;
use vstd::prelude::*;

verus! {

/// How storage is laid out when a root is computed from a set of changes.
#[derive(Clone, Copy, Debug, PartialEq, Eq, Structural)]
pub enum StateVersion {
    V0,
    V1,
}

/// Which runtime a chain runs: the name of its specification and the version
/// of it.
#[derive(Clone, Debug)]
pub struct SpecIdentity {
    pub name: String,
    pub version: u32,
}

/// An identity as contracts see it.
pub struct IdentityView {
    pub name: Seq<char>,
    pub version: u32,
}

impl View for SpecIdentity {
    type V = IdentityView;

    open spec fn view(&self) -> IdentityView {
        IdentityView { name: self.name@, version: self.version }
    }
}

impl SpecIdentity {
    pub fn new(name: String, version: u32) -> (identity: Self)
        ensures
            identity.name@ == name@,
            identity.version == version,
    {
        SpecIdentity { name, version }
    }

    /// Whether the two are the same runtime: the same name and the same
    /// version.
    pub fn matches(&self, other: &SpecIdentity) -> (same: bool)
        ensures
            same == (self@ == other@),
    {
        let same_name = self.name == other.name;
        proof {
            if self.name@ == other.name@ && self.version == other.version {
                assert(self@ == other@);
            }
        }
        same_name && self.version == other.version
    }
}

/// The state snapshot of a run, as far as the follower reads it.
#[derive(Clone, Copy, Debug, PartialEq, Eq)]
pub struct ReplaySession {
    /// The block at whose state the snapshot was built.
    pub anchor: BlockHash,
    /// The block whose state the snapshot holds now: the anchor at first, then
    /// the block executed last.
    pub tip: BlockHash,
    /// The storage root of the snapshot.
    pub root: BlockHash,
    /// The state version that the snapshot was built with.
    pub state_version: StateVersion,
}

/// Whether the session of the run exists yet.
#[derive(Clone, Copy, Debug, PartialEq, Eq)]
pub enum Session {
    /// No header has come so far, or the snapshot is not yet built.
    Uninitialized,
    /// The snapshot exists and stays for the rest of the run.
    Active(ReplaySession),
}

impl ReplaySession {
    /// The session after a block with hash `block` was executed and its
    /// changes, which lead to `root`, were applied.
    pub open spec fn advanced(self, block: BlockHash, root: BlockHash) -> ReplaySession {
        ReplaySession { tip: block, root, ..self }
    }

    /// Records that the changes of the block with hash `block` were applied
    /// and that `root` is the storage root now.
    pub fn advance(&mut self, block: BlockHash, root: BlockHash)
        ensures
            *final(self) == old(self).advanced(block, root),
    {
        self.tip = block;
        self.root = root;
    }
}

impl Session {
    pub fn is_active(&self) -> (active: bool)
        ensures
            active == (self is Active),
    {
        match self {
            Session::Active(_) => true,
            Session::Uninitialized => false,
        }
    }

    /// The storage root of the snapshot, once there is one.
    pub open spec fn storage_root(self) -> Option<BlockHash> {
        match self {
            Session::Active(session) => Some(session.root),
            Session::Uninitialized => None,
        }
    }

    /// The storage root of the snapshot, once there is one.
    pub fn root(&self) -> (root: Option<BlockHash>)
        ensures
            root == self.storage_root(),
    {
        match self {
            Session::Active(session) => Some(session.root),
            Session::Uninitialized => None,
        }
    }
}

} // verus!
