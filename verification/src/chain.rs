//! Headers of a chain and the links between them.

use vstd::prelude::*;

verus! {

/// The hash that identifies a block.
#[derive(Clone, Copy, Debug, PartialEq, Eq, Hash)]
pub struct BlockHash {
    pub bytes: [u8; 32],
}

/// What the follower reads of a block header: the hash that identifies it,
/// its height and the hash of its parent.
#[derive(Clone, Copy, Debug, PartialEq, Eq, Hash)]
pub struct Header {
    pub hash: BlockHash,
    pub number: u64,
    pub parent_hash: BlockHash,
}

/// `parent` is the block that `child` names as its parent, one height below it.
pub open spec fn is_parent_of(parent: Header, child: Header) -> bool {
    &&& parent.hash == child.parent_hash
    &&& parent.number + 1 == child.number
}

/// Every header of `headers` is the parent of the one that follows it.
pub open spec fn chained(headers: Seq<Header>) -> bool {
    forall|i: int|
        0 <= i && i + 1 < headers.len() ==> is_parent_of(#[trigger] headers[i], headers[i + 1])
}

/// The heights of `headers` go up by one from each header to the next.
pub open spec fn consecutive(headers: Seq<Header>) -> bool {
    forall|i: int|
        0 <= i && i + 1 < headers.len() ==> (#[trigger] headers[i]).number + 1 == headers[i
            + 1].number
}

/// How many headers lie strictly between the height last handed out and the
/// parent of a header at height `number`, that parent included. Nothing lies
/// before the first header handed out, and nothing below height zero.
pub open spec fn missing_before(last: Option<u64>, number: u64) -> nat {
    match last {
        Some(l) => if number > l + 1 {
            (number - 1 - l) as nat
        } else {
            0
        },
        None => 0,
    }
}

impl Header {
    /// The number of headers that a stream which last handed out `last` has to
    /// fetch before it can hand out this one.
    pub fn gap_after(&self, last: Option<u64>) -> (gap: u64)
        ensures
            gap == missing_before(last, self.number),
    {
        match last {
            Some(l) => if self.number > l && self.number - l > 1 {
                self.number - l - 1
            } else {
                0
            },
            None => 0,
        }
    }
}

/// A chain of headers is also consecutive in height.
pub proof fn lemma_chained_is_consecutive(headers: Seq<Header>)
    requires
        chained(headers),
    ensures
        consecutive(headers),
{
}

} // verus!
