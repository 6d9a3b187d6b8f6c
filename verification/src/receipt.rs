//! The journal of a receipt, encoded for delivery.

use vstd::prelude::*;

verus! {

/// The eight bytes of a number, lowest first.
pub open spec fn length_prefix(n: u64) -> Seq<u8> {
    seq![
        (n % 0x100) as u8,
        (n / 0x100 % 0x100) as u8,
        (n / 0x1_0000 % 0x100) as u8,
        (n / 0x100_0000 % 0x100) as u8,
        (n / 0x1_0000_0000 % 0x100) as u8,
        (n / 0x100_0000_0000 % 0x100) as u8,
        (n / 0x1_0000_0000_0000 % 0x100) as u8,
        (n / 0x100_0000_0000_0000 % 0x100) as u8,
    ]
}

/// The encoding of a journal: the number of its bytes as eight little-endian
/// bytes, then the bytes.
pub open spec fn journal_encoding(journal: Seq<u8>) -> Seq<u8> {
    length_prefix(journal.len() as u64) + journal
}

/// Encodes a journal as the remote service expects it.
///
/// Trusted: calls `bincode::serialize` on a `risc0_zkvm::Journal` made of
/// the bytes. The contract says that the call succeeds and gives the
/// fixed-width little-endian length followed by the bytes. That is how
/// bincode's default configuration writes a struct whose one field is a
/// byte vector; it writes into a vector it grows itself, under no size
/// limit, and a vector knows its length, so no step has a way to fail.
#[verifier::external_body]
pub(crate) fn encode_journal(journal: Vec<u8>) -> (encoded: Option<Vec<u8>>)
    ensures
        encoded.is_some(),
        encoded->Some_0@ == journal_encoding(journal@),
{
    match bincode::serialize(&risc0_zkvm::Journal::new(journal)) {
        Ok(e) => Some(e),
        Err(_) => None,
    }
}

} // verus!
