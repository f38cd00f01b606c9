//! Which collection an NFT belongs to, as its metadata account states it.

use vstd::prelude::*;
use crate::errors::ErrorCode;
use crate::keys::{key_listed, lists, Key};
use crate::pool::{Pool, PoolView};

verus! {

/// What the metadata of an NFT says of its collection.
#[derive(Clone, Copy, Debug, PartialEq, Eq)]
pub enum CollectionClaim {
    /// The account data is not token metadata.
    Unreadable,
    /// The metadata names no collection.
    Absent,
    /// The metadata names the collection `key`; `verified` is set once the
    /// collection's authority has confirmed the membership.
    Member { verified: bool, key: Key },
}

impl View for CollectionClaim {
    type V = Option<Option<(bool, Seq<u8>)>>;

    open spec fn view(&self) -> Option<Option<(bool, Seq<u8>)>> {
        match *self {
            CollectionClaim::Unreadable => None,
            CollectionClaim::Absent => Some(None),
            CollectionClaim::Member { verified, key } => Some(Some((verified, key@))),
        }
    }
}

/// What `mpl_token_metadata` decodes from the bytes of a metadata account, as
/// far as the collection goes: `None` where it rejects the bytes,
/// `Some(None)` where the metadata has no collection, else the collection's
/// `verified` flag and the 32 bytes of its key.
pub uninterp spec fn metadata_collection(data: Seq<u8>) -> Option<Option<(bool, Seq<u8>)>>;

/// The first byte of every metadata account: the tag of its kind.
pub const METADATA_TAG: u8 = 4;

/// Calls `mpl_token_metadata::accounts::Metadata::safe_deserialize` on
/// `data` and hands on the `collection` field of what it returns.
///
/// Trusted: that the outcome depends on the bytes alone, and that bytes
/// which are empty or do not start with the tag of a metadata account are
/// rejected. Nothing else is claimed of which bytes decode to what.
#[verifier::external_body]
pub(crate) fn read_collection(data: &[u8]) -> (claim: CollectionClaim)
    ensures
        claim@ == metadata_collection(data@),
        data@.len() == 0 || data@[0] != METADATA_TAG ==> claim == CollectionClaim::Unreadable,
{
    match mpl_token_metadata::accounts::Metadata::safe_deserialize(data) {
        Err(_) => CollectionClaim::Unreadable,
        Ok(metadata) => match metadata.collection {
            None => CollectionClaim::Absent,
            Some(c) => CollectionClaim::Member { verified: c.verified, key: Key { bytes: c.key.to_bytes() } },
        },
    }
}

impl PoolView {
    /// Whether an NFT whose metadata decodes to `claim` may be staked, and
    /// the refusal where not: the metadata must be readable, name a
    /// collection, the membership must be verified, and the collection must
    /// be on the pool's whitelist.
    pub open spec fn admission(self, claim: Option<Option<(bool, Seq<u8>)>>) -> Result<
        (),
        ErrorCode,
    > {
        match claim {
            None => Err(ErrorCode::InvalidMetadata),
            Some(None) => Err(ErrorCode::NotPartOfCollection),
            Some(Some((verified, key))) => if !verified {
                Err(ErrorCode::CollectionNotVerified)
            } else if !lists(self.allowed_collections, key) {
                Err(ErrorCode::CollectionNotAllowed)
            } else {
                Ok(())
            },
        }
    }
}

/// Decides whether an NFT with the collection claim `claim` may be staked
/// in `pool`.
pub fn check_collection(pool: &Pool, claim: &CollectionClaim) -> (r: Result<(), ErrorCode>)
    ensures
        r == pool@.admission(claim@),
{
    match claim {
        CollectionClaim::Unreadable => Err(ErrorCode::InvalidMetadata),
        CollectionClaim::Absent => Err(ErrorCode::NotPartOfCollection),
        CollectionClaim::Member { verified, key } => {
            if !*verified {
                Err(ErrorCode::CollectionNotVerified)
            } else if !key_listed(&pool.allowed_collections, key) {
                Err(ErrorCode::CollectionNotAllowed)
            } else {
                Ok(())
            }
        },
    }
}

} // verus!
