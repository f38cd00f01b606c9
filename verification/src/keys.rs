//! Identities of accounts, kept as their 32 raw bytes.

use vstd::prelude::*;

verus! {

/// The identity of an account: an owner, an item, a mint or a vault.
#[derive(Clone, Copy, Debug, PartialEq, Eq)]
pub struct Key {
    pub bytes: [u8; 32],
}

impl View for Key {
    type V = Seq<u8>;

    open spec fn view(&self) -> Seq<u8> {
        self.bytes@
    }
}

/// Two identities with the same bytes are the same identity.
pub proof fn lemma_key_by_bytes(a: Key, b: Key)
    ensures
        a@ == b@ <==> a == b,
{
    if a@ == b@ {
        assert forall|i: int| 0 <= i < 32 implies a.bytes[i] == b.bytes[i] by {
            assert(a.bytes@[i] == b.bytes@[i]);
        }
        assert(a.bytes =~= b.bytes);
    }
}

/// Whether an identity with the bytes `bytes` occurs in `list`.
pub open spec fn lists(list: Seq<Key>, bytes: Seq<u8>) -> bool {
    exists|i: int| 0 <= i < list.len() && #[trigger] list[i]@ == bytes
}

impl Key {
    /// Whether two identities are the same, byte for byte.
    pub fn same(&self, other: &Key) -> (r: bool)
        ensures
            r == (*self == *other),
    {
        let mut i: usize = 0;
        while i < 32
            invariant
                i <= 32,
                forall|j: int| 0 <= j < i ==> self.bytes[j] == other.bytes[j],
            decreases 32 - i,
        {
            if self.bytes[i] != other.bytes[i] {
                return false;
            }
            i += 1;
        }
        assert(self.bytes =~= other.bytes);
        true
    }
}

/// Whether `key` occurs in `list`.
pub fn key_listed(list: &Vec<Key>, key: &Key) -> (r: bool)
    ensures
        r == list@.contains(*key),
        r == lists(list@, key@),
{
    let mut i: usize = 0;
    while i < list.len()
        invariant
            i <= list.len(),
            forall|j: int| 0 <= j < i ==> list@[j] != *key,
        decreases list.len() - i,
    {
        if list[i].same(key) {
            assert(list@[i as int]@ == key@);
            return true;
        }
        i += 1;
    }
    assert forall|j: int| 0 <= j < list@.len() implies list@[j]@ != key@ by {
        lemma_key_by_bytes(list@[j], *key);
    }
    false
}

} // verus!
