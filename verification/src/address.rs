//! The key of the dictionary item that holds an account's token list, which
//! `mint` hands back.
use vstd::prelude::*;

use crate::key::{AccountHash, Key};

verus! {

/// The lower-case hexadecimal digit of a number below sixteen, as an ASCII byte.
pub open spec fn hex_digit(n: int) -> u8 {
    if n < 10 {
        (48 + n) as u8
    } else {
        (87 + n) as u8
    }
}

/// Bytes written out as lower-case hexadecimal ASCII, two digits per byte,
/// high digit first.
pub open spec fn hex_lower(bytes: Seq<u8>) -> Seq<u8> {
    Seq::new(
        (2 * bytes.len()) as nat,
        |i: int| if i % 2 == 0 { hex_digit(bytes[i / 2] as int / 16) } else { hex_digit(bytes[i / 2] as int % 16) },
    )
}

fn hex_digit_of(n: u8) -> (r: u8)
    requires
        n < 16,
    ensures
        r == hex_digit(n as int),
{
    if n < 10 {
        48 + n
    } else {
        87 + n
    }
}

/// The dictionary item key under which an account's entries are stored:
/// its hash in lower-case hexadecimal.
pub fn account_item_key(a: &AccountHash) -> (r: Vec<u8>)
    ensures
        r@ == hex_lower(a.bytes@),
{
    let mut r: Vec<u8> = Vec::new();
    let mut i: usize = 0;
    while i < 32
        invariant
            i <= 32,
            a.bytes@.len() == 32,
            r@.len() == 2 * i,
            forall|j: int| 0 <= j < 2 * i ==> r@[j] == #[trigger] hex_lower(a.bytes@)[j],
        decreases 32 - i,
    {
        let b = a.bytes[i];
        r.push(hex_digit_of(b / 16));
        r.push(hex_digit_of(b % 16));
        proof {
            let h = hex_lower(a.bytes@);
            assert((2 * i as int) / 2 == i as int);
            assert((2 * i as int + 1) / 2 == i as int);
            assert((2 * i as int) % 2 == 0);
            assert((2 * i as int + 1) % 2 == 1);
            assert(r@[2 * i as int] == h[2 * i as int]);
            assert(r@[2 * i as int + 1] == h[2 * i as int + 1]);
        }
        i += 1;
    }
    assert(r@ =~= hex_lower(a.bytes@));
    r
}

/// The address of the dictionary item `item` in the dictionary seeded by
/// the URef with address `seed_addr`.
pub uninterp spec fn dictionary_address(seed_addr: Seq<u8>, item: Seq<u8>) -> [u8; 32];

/// Calls `casper_types::Key::dictionary`, which hashes the seed URef's
/// address with the item key and always gives a `Key::Dictionary`.
///
/// Trusted: the address is named `dictionary_address` of the seed address
/// and the item key (the source hashes the address only, not the access
/// rights), and the result is always a dictionary key.
#[verifier::external_body]
fn dictionary_key(seed_addr: [u8; 32], seed_rights: u8, item: &[u8]) -> (r: Option<[u8; 32]>)
    ensures
        r == Some(dictionary_address(seed_addr@, item@)),
{
    let seed = casper_types::URef::new(seed_addr, casper_types::AccessRights::from_bits_truncate(seed_rights));
    casper_types::Key::dictionary(seed, item).as_dictionary().copied()
}

/// The key of the item holding `owner`'s token list in the owned-tokens
/// dictionary, whose seed URef has address `seed_addr` and access rights
/// `seed_rights`.
pub fn owned_tokens_key(seed_addr: [u8; 32], seed_rights: u8, owner: &AccountHash) -> (r: Key)
    ensures
        r == Key::Dictionary(dictionary_address(seed_addr@, hex_lower(owner.bytes@))),
{
    let item = account_item_key(owner);
    match dictionary_key(seed_addr, seed_rights, item.as_slice()) {
        Some(addr) => Key::Dictionary(addr),
        None => Key::SystemContractRegistry,
    }
}

} // verus!
