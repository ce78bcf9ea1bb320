//! Account hashes and global-state keys, as plain values.
use vstd::prelude::*;

verus! {

/// The 32-byte hash that identifies an account.
#[derive(Clone, Copy, PartialEq, Eq, Debug)]
pub struct AccountHash {
    pub bytes: [u8; 32],
}

impl AccountHash {
    /// Whether two account hashes are the same, byte for byte.
    pub fn same(&self, other: &AccountHash) -> (r: bool)
        ensures
            r == (*self == *other),
    {
        let mut i: usize = 0;
        while i < 32
            invariant
                i <= 32,
                self.bytes@.len() == 32,
                other.bytes@.len() == 32,
                forall|j: int| 0 <= j < i ==> self.bytes@[j] == other.bytes@[j],
            decreases 32 - i,
        {
            if self.bytes[i] != other.bytes[i] {
                return false;
            }
            i += 1;
        }
        assert(self.bytes =~= other.bytes);
        true
    }
}

/// A key of global state. Each variant and its payload stand for the
/// variant of the same name of the platform's `Key`.
#[derive(Clone, Copy, PartialEq, Eq, Debug)]
pub enum Key {
    Account(AccountHash),
    Hash([u8; 32]),
    URef([u8; 32], u8),
    Transfer([u8; 32]),
    DeployInfo([u8; 32]),
    EraInfo(u64),
    Balance([u8; 32]),
    Bid(AccountHash),
    Withdraw(AccountHash),
    Dictionary([u8; 32]),
    SystemContractRegistry,
}

/// The account a key names, if it is an account key.
pub open spec fn key_account(k: Key) -> Option<AccountHash> {
    match k {
        Key::Account(a) => Some(a),
        _ => None,
    }
}

impl Key {
    /// The account this key names, if it is an account key.
    pub fn into_account(self) -> (r: Option<AccountHash>)
        ensures
            r == key_account(self),
    {
        match self {
            Key::Account(a) => Some(a),
            _ => None,
        }
    }
}

} // verus!
