//! The calls that leave this crate. Their contracts are believed, not proved.

use vstd::prelude::*;

verus! {

/// The program-derived address of two seeds under a program, as
/// `solana_sdk::pubkey::Pubkey::try_find_program_address` computes it: the
/// address found with the highest bump seed that lies off the curve, or
/// nothing where no bump seed gives one or a seed is longer than the
/// protocol admits.
pub uninterp spec fn program_derived_address(
    first_seed: Seq<u8>,
    second_seed: Seq<u8>,
    program: Seq<u8>,
) -> Option<Seq<u8>>;

/// The Base58 text of a byte string in the Bitcoin alphabet, as
/// `bs58::encode` writes it, one ASCII byte for each character.
pub uninterp spec fn base58_text(bytes: Seq<u8>) -> Seq<u8>;

/// The text that `String::from_utf8_lossy` reads from a byte string: its
/// UTF-8 decoding, with each invalid sequence replaced by U+FFFD.
pub uninterp spec fn utf8_lossy_text(bytes: Seq<u8>) -> Seq<char>;

/// Calls `solana_sdk::pubkey::Pubkey::try_find_program_address` with the two
/// seeds and the program, and drops the bump seed. The result is claimed to
/// be a function of the three byte strings alone.
#[verifier::external_body]
pub(crate) fn find_program_address(
    first_seed: &[u8],
    second_seed: &[u8; 32],
    program: &[u8; 32],
) -> (r: Option<[u8; 32]>)
    ensures
        match r {
            Some(address) => program_derived_address(first_seed@, second_seed@, program@) == Some(
                address@,
            ),
            None => program_derived_address(first_seed@, second_seed@, program@).is_none(),
        },
{
    let program = solana_sdk::pubkey::Pubkey::new_from_array(*program);
    let seeds: [&[u8]; 2] = [first_seed, second_seed];
    solana_sdk::pubkey::Pubkey::try_find_program_address(&seeds, &program).map(
        |found| found.0.to_bytes(),
    )
}

/// Calls `bs58::encode` on the bytes and collects the text with
/// `into_vec`. The result is claimed to be a function of the bytes alone.
#[verifier::external_body]
pub(crate) fn base58_encode(bytes: &[u8; 32]) -> (r: Vec<u8>)
    ensures
        r@ == base58_text(bytes@),
{
    bs58::encode(bytes).into_vec()
}

/// Calls `String::from_utf8_lossy` on the bytes. The result is claimed to be
/// a function of the bytes alone.
#[verifier::external_body]
pub(crate) fn utf8_lossy(bytes: &[u8]) -> (r: String)
    ensures
        r@ == utf8_lossy_text(bytes@),
{
    String::from_utf8_lossy(bytes).into_owned()
}

} // verus!
