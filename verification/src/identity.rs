//! Identities: the 32-byte keys that name users, records and token accounts.

use vstd::prelude::*;
use anchor_lang::solana_program::pubkey::ParsePubkeyError;
use anchor_lang::solana_program::pubkey::Pubkey;
use std::str::FromStr;

verus! {

/// The error of `Pubkey::from_str`. It is carried through and never read.
#[verifier::external_type_specification]
#[verifier::external_body]
pub struct ExParsePubkeyError(ParsePubkeyError);

/// The 32 bytes that `Pubkey::from_str` reads from a base58 text, or `None`
/// where it turns the text down.
pub uninterp spec fn key_from_base58(text: Seq<char>) -> Option<Seq<u8>>;

/// Calls `Pubkey::from_str` (`anchor_lang::solana_program::pubkey::Pubkey`),
/// which decodes a base58 text into a 32-byte key, and hands out the key's bytes.
///
/// Not proved: that the bytes returned are the ones that `key_from_base58`
/// names for this text, and that the call fails exactly where it names none.
/// This says only that the same text always gives the same answer.
#[verifier::external_body]
fn decode_base58_key(text: &str) -> (r: Result<[u8; 32], ParsePubkeyError>)
    ensures
        match r {
            Ok(bytes) => key_from_base58(text@) == Some(bytes@),
            Err(_) => key_from_base58(text@) is None,
        },
{
    match Pubkey::from_str(text) {
        Ok(key) => Ok(key.to_bytes()),
        Err(e) => Err(e),
    }
}

/// Number of bytes in an identity.
pub const IDENTITY_BYTES: usize = 32;

/// A 32-byte key. Its view is the sequence of its bytes.
#[derive(Clone, Copy, Debug, PartialEq, Eq)]
pub struct Identity {
    pub bytes: [u8; 32],
}

impl View for Identity {
    type V = Seq<u8>;

    open spec fn view(&self) -> Seq<u8> {
        self.bytes@
    }
}

impl Identity {
    /// The identity made of the given bytes.
    pub fn new(bytes: [u8; 32]) -> (id: Identity)
        ensures
            id.bytes == bytes,
            id@ == bytes@,
    {
        Identity { bytes }
    }

    /// The identity that a base58 text spells, if it spells one.
    pub fn from_base58(text: &str) -> (r: Option<Identity>)
        ensures
            match r {
                Some(id) => key_from_base58(text@) == Some(id@),
                None => key_from_base58(text@) is None,
            },
    {
        match decode_base58_key(text) {
            Ok(bytes) => Some(Identity { bytes }),
            Err(_) => None,
        }
    }

    /// Whether every byte is zero, as in a stored record that was set aside
    /// but never written.
    pub open spec fn unset(self) -> bool {
        forall|j: int| 0 <= j < IDENTITY_BYTES ==> self@[j] == 0
    }

    pub fn is_unset(&self) -> (r: bool)
        ensures
            r == self.unset(),
    {
        let mut i: usize = 0;
        while i < IDENTITY_BYTES
            invariant
                i <= IDENTITY_BYTES,
                forall|j: int| 0 <= j < i ==> self@[j] == 0,
            decreases IDENTITY_BYTES - i,
        {
            if self.bytes[i] != 0 {
                assert(self@[i as int] != 0);
                return false;
            }
            i += 1;
        }
        true
    }

    /// Whether two identities hold the same bytes.
    pub fn same(&self, other: &Identity) -> (r: bool)
        ensures
            r == (self@ == other@),
            r == (*self == *other),
    {
        let mut i: usize = 0;
        while i < IDENTITY_BYTES
            invariant
                i <= IDENTITY_BYTES,
                forall|j: int| 0 <= j < i ==> self.bytes[j] == other.bytes[j],
            decreases IDENTITY_BYTES - i,
        {
            if self.bytes[i] != other.bytes[i] {
                assert(self@[i as int] != other@[i as int]);
                return false;
            }
            i += 1;
        }
        assert(self.bytes =~= other.bytes);
        true
    }
}

} // verus!
