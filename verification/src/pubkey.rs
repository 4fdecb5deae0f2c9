//! Account addresses.

use vstd::prelude::*;

verus! {

/// The text that `solana_program::pubkey::Pubkey` displays for an address of
/// these 32 bytes: their base58 form. It is a function of the bytes alone; which
/// characters it holds is not modelled.
pub uninterp spec fn base58_text(bytes: Seq<u8>) -> Seq<char>;

/// The address of an account or of a program: 32 bytes.
#[derive(Clone, Copy, Debug, PartialEq, Eq, Hash)]
pub struct Pubkey(pub [u8; 32]);

impl View for Pubkey {
    type V = Seq<u8>;

    open spec fn view(&self) -> Seq<u8> {
        self.0@
    }
}

impl Pubkey {
    /// Makes an address of its 32 bytes.
    pub fn new_from_array(pubkey_array: [u8; 32]) -> (key: Pubkey)
        ensures
            key == Pubkey(pubkey_array),
    {
        Pubkey(pubkey_array)
    }

    /// Returns the address's 32 bytes.
    pub fn to_bytes(&self) -> (bytes: [u8; 32])
        ensures
            bytes == self.0,
    {
        self.0
    }

    /// Returns the address as the runtime displays it.
    pub fn to_string(&self) -> (text: String)
        ensures
            text@ == base58_text(self@),
    {
        base58_string(&self.0)
    }
}

/// Trusted. Makes a `solana_program::pubkey::Pubkey` of `bytes` with
/// `new_from_array` and returns its `to_string()`, the text that its `Display`
/// writes. The contract claims only that this text is `base58_text` of the bytes,
/// so that the same 32 bytes always give the same text.
#[verifier::external_body]
fn base58_string(bytes: &[u8; 32]) -> (text: String)
    ensures
        text@ == base58_text(bytes@),
{
    solana_program::pubkey::Pubkey::new_from_array(*bytes).to_string()
}

} // verus!
