//! Creations of a Pumpfun bonding curve.

use vstd::prelude::*;
use vstd::slice::slice_subrange;
use crate::address::Address;
use crate::address::Signature;
use crate::bytes::le_value;
use crate::bytes::read_u32_le;
use crate::constants;
use crate::outside::utf8_lossy;
use crate::outside::utf8_lossy_text;
use crate::types::DecodeError;
use crate::types::Instruction;
use crate::types::Pools;
use crate::types::TokenCreation;
use crate::types::TokenCreationView;
use crate::types::creation_result_view;

verus! {

/// The offset of the first text in the payload, behind the discriminator.
pub const CREATE_TEXTS_OFFSET: usize = 8;

/// The number of bytes of a text's length.
pub const TEXT_LENGTH_WIDTH: usize = 4;

/// The number of accounts that the decoder reads from the account list.
pub const CREATE_ACCOUNTS_READ: usize = 8;

/// Where the three texts of a payload end; each begins 4 bytes behind the
/// end of the one before it.
#[derive(Clone, Copy, Debug)]
pub struct CreateTextEnds {
    pub name_end: usize,
    pub symbol_end: usize,
    pub uri_end: usize,
}

/// What a creation's account list names.
#[derive(Clone, Copy, Debug)]
pub struct CreateAccounts {
    pub address: Address,
    pub creator: Address,
    pub market: Address,
}

/// The end of the text that begins at `at` with its length, a 32-bit
/// integer, where the payload holds both the length and the text.
pub open spec fn text_end(data: Seq<u8>, at: int) -> Option<int> {
    if at + TEXT_LENGTH_WIDTH <= data.len() && at + TEXT_LENGTH_WIDTH + le_value(data, at, 4)
        <= data.len() {
        Some(at + TEXT_LENGTH_WIDTH + le_value(data, at, 4))
    } else {
        None
    }
}

/// The ends of the name, the symbol and the URI, which follow the 8-byte
/// discriminator in that order.
pub open spec fn create_text_ends(data: Seq<u8>) -> Option<CreateTextEnds> {
    match text_end(data, CREATE_TEXTS_OFFSET as int) {
        None => None,
        Some(name_end) => match text_end(data, name_end) {
            None => None,
            Some(symbol_end) => match text_end(data, symbol_end) {
                None => None,
                Some(uri_end) => Some(
                    CreateTextEnds {
                        name_end: name_end as usize,
                        symbol_end: symbol_end as usize,
                        uri_end: uri_end as usize,
                    },
                ),
            },
        },
    }
}

/// The bytes of the text that ends at `end` and began at `begin` with its
/// length.
pub open spec fn text_bytes(data: Seq<u8>, begin: int, end: int) -> Seq<u8> {
    data.subrange(begin + TEXT_LENGTH_WIDTH, end)
}

/// The new token's address, its creator and its bonding curve, at the
/// positions 0, 7 and 2 of the account list.
pub open spec fn create_accounts(instruction: Instruction) -> Result<CreateAccounts, DecodeError> {
    if instruction.accounts@.len() < CREATE_ACCOUNTS_READ {
        Err(DecodeError::InvalidAccountShape { count: instruction.accounts@.len() as usize })
    } else if instruction.account_key(constants::PF_CREATE_ADDRESS_POSITION as int) is None {
        Err(
            DecodeError::UnresolvedAccount {
                index: instruction.accounts@[constants::PF_CREATE_ADDRESS_POSITION as int],
            },
        )
    } else if instruction.account_key(constants::PF_CREATE_CREATOR_POSITION as int) is None {
        Err(
            DecodeError::UnresolvedAccount {
                index: instruction.accounts@[constants::PF_CREATE_CREATOR_POSITION as int],
            },
        )
    } else if instruction.account_key(constants::PF_CREATE_MARKET_POSITION as int) is None {
        Err(
            DecodeError::UnresolvedAccount {
                index: instruction.accounts@[constants::PF_CREATE_MARKET_POSITION as int],
            },
        )
    } else {
        Ok(
            CreateAccounts {
                address: instruction.account_key(
                    constants::PF_CREATE_ADDRESS_POSITION as int,
                )->Some_0,
                creator: instruction.account_key(
                    constants::PF_CREATE_CREATOR_POSITION as int,
                )->Some_0,
                market: instruction.account_key(
                    constants::PF_CREATE_MARKET_POSITION as int,
                )->Some_0,
            },
        )
    }
}

/// The event of a creation with the given accounts and texts. The fields
/// that the off-chain metadata fills in later are empty.
pub open spec fn creation_of(
    accounts: CreateAccounts,
    name: Seq<char>,
    symbol: Seq<char>,
    uri: Seq<char>,
    block_time: u64,
    slot: u64,
    index: u64,
    atomic_instruction_index: u8,
    signature: Signature,
) -> TokenCreationView {
    TokenCreationView {
        address: accounts.address,
        creator: accounts.creator,
        market_address: accounts.market,
        name,
        symbol,
        uri,
        description: Seq::empty(),
        twitter: Seq::empty(),
        website: Seq::empty(),
        block_time,
        slot,
        index,
        atomic_instruction_index,
        signature,
    }
}

/// The event of a creation instruction, or the reason why there is none.
/// Each text is read from its bytes as UTF-8, invalid sequences replaced.
pub open spec fn create_decoded(
    instruction: Instruction,
    block_time: u64,
    slot: u64,
    index: u64,
    atomic_instruction_index: u8,
    signature: Signature,
) -> Result<TokenCreationView, DecodeError> {
    let data = instruction.data@;
    match create_text_ends(data) {
        None => Err(
            DecodeError::UnrecognizedEventLayout {
                protocol: Pools::PfBondingCurve,
                observed_length: data.len() as usize,
            },
        ),
        Some(ends) => match create_accounts(instruction) {
            Err(error) => Err(error),
            Ok(accounts) => Ok(
                creation_of(
                    accounts,
                    utf8_lossy_text(
                        text_bytes(data, CREATE_TEXTS_OFFSET as int, ends.name_end as int),
                    ),
                    utf8_lossy_text(text_bytes(data, ends.name_end as int, ends.symbol_end as int)),
                    utf8_lossy_text(text_bytes(data, ends.symbol_end as int, ends.uri_end as int)),
                    block_time,
                    slot,
                    index,
                    atomic_instruction_index,
                    signature,
                ),
            ),
        },
    }
}

/// Finds the end of the text that begins at `at` with its length.
pub fn read_text_end(data: &[u8], at: usize) -> (r: Option<usize>)
    ensures
        match r {
            Some(end) => text_end(data@, at as int) == Some(end as int),
            None => text_end(data@, at as int).is_none(),
        },
{
    let length: usize = data.len();
    if at > length || length - at < TEXT_LENGTH_WIDTH {
        return None;
    }
    let text_length: u32 = read_u32_le(data, at);
    let rest: usize = length - at - TEXT_LENGTH_WIDTH;
    if (rest as u64) < (text_length as u64) {
        return None;
    }
    Some(at + TEXT_LENGTH_WIDTH + (text_length as usize))
}

/// Finds the ends of the three texts of a creation's payload.
pub fn read_create_text_ends(data: &[u8]) -> (r: Option<CreateTextEnds>)
    ensures
        r == create_text_ends(data@),
        r matches Some(ends) ==> {
            &&& text_end(data@, CREATE_TEXTS_OFFSET as int) == Some(ends.name_end as int)
            &&& text_end(data@, ends.name_end as int) == Some(ends.symbol_end as int)
            &&& text_end(data@, ends.symbol_end as int) == Some(ends.uri_end as int)
        },
{
    let name_end: usize = match read_text_end(data, CREATE_TEXTS_OFFSET) {
        Some(end) => end,
        None => {
            return None;
        },
    };
    let symbol_end: usize = match read_text_end(data, name_end) {
        Some(end) => end,
        None => {
            return None;
        },
    };
    let uri_end: usize = match read_text_end(data, symbol_end) {
        Some(end) => end,
        None => {
            return None;
        },
    };
    Some(CreateTextEnds { name_end, symbol_end, uri_end })
}

/// Reads the accounts of a creation.
pub fn read_create_accounts(instruction: &Instruction) -> (r: Result<CreateAccounts, DecodeError>)
    ensures
        r == create_accounts(*instruction),
{
    let count: usize = instruction.accounts.len();
    if count < CREATE_ACCOUNTS_READ {
        return Err(DecodeError::InvalidAccountShape { count });
    }
    let address: Address = match instruction.account(constants::PF_CREATE_ADDRESS_POSITION) {
        Some(key) => key,
        None => {
            return Err(
                DecodeError::UnresolvedAccount {
                    index: instruction.accounts[constants::PF_CREATE_ADDRESS_POSITION],
                },
            );
        },
    };
    let creator: Address = match instruction.account(constants::PF_CREATE_CREATOR_POSITION) {
        Some(key) => key,
        None => {
            return Err(
                DecodeError::UnresolvedAccount {
                    index: instruction.accounts[constants::PF_CREATE_CREATOR_POSITION],
                },
            );
        },
    };
    let market: Address = match instruction.account(constants::PF_CREATE_MARKET_POSITION) {
        Some(key) => key,
        None => {
            return Err(
                DecodeError::UnresolvedAccount {
                    index: instruction.accounts[constants::PF_CREATE_MARKET_POSITION],
                },
            );
        },
    };
    Ok(CreateAccounts { address, creator, market })
}

/// Builds the event of a creation from its accounts and its three texts.
pub fn token_creation_from_parts(
    accounts: &CreateAccounts,
    name: String,
    symbol: String,
    uri: String,
    block_time: u64,
    slot: u64,
    index: u64,
    atomic_instruction_index: u8,
    signature: &Signature,
) -> (r: TokenCreation)
    ensures
        r@ == creation_of(
            *accounts,
            name@,
            symbol@,
            uri@,
            block_time,
            slot,
            index,
            atomic_instruction_index,
            *signature,
        ),
{
    TokenCreation {
        address: accounts.address,
        creator: accounts.creator,
        market_address: accounts.market,
        name,
        symbol,
        uri,
        description: String::new(),
        twitter: String::new(),
        website: String::new(),
        block_time,
        slot,
        index,
        atomic_instruction_index,
        signature: *signature,
    }
}

/// Decodes the creation of a Pumpfun bonding curve: the name, the symbol
/// and the URI from the payload, the token, its creator and its curve from
/// the account list.
pub fn process_pf_bonding_curve_create_instruction(
    instruction: &Instruction,
    block_time: u64,
    slot: u64,
    index: u64,
    atomic_instruction_index: u8,
    signature: &Signature,
) -> (r: Result<TokenCreation, DecodeError>)
    ensures
        creation_result_view(r) == create_decoded(
            *instruction,
            block_time,
            slot,
            index,
            atomic_instruction_index,
            *signature,
        ),
{
    let data: &[u8] = instruction.data;
    let ends: CreateTextEnds = match read_create_text_ends(data) {
        Some(ends) => ends,
        None => {
            return Err(
                DecodeError::UnrecognizedEventLayout {
                    protocol: Pools::PfBondingCurve,
                    observed_length: data.len(),
                },
            );
        },
    };
    let accounts: CreateAccounts = match read_create_accounts(instruction) {
        Ok(accounts) => accounts,
        Err(error) => {
            return Err(error);
        },
    };
    let name: String = utf8_lossy(
        slice_subrange(data, CREATE_TEXTS_OFFSET + TEXT_LENGTH_WIDTH, ends.name_end),
    );
    let symbol: String = utf8_lossy(
        slice_subrange(data, ends.name_end + TEXT_LENGTH_WIDTH, ends.symbol_end),
    );
    let uri: String = utf8_lossy(
        slice_subrange(data, ends.symbol_end + TEXT_LENGTH_WIDTH, ends.uri_end),
    );
    Ok(
        token_creation_from_parts(
            &accounts,
            name,
            symbol,
            uri,
            block_time,
            slot,
            index,
            atomic_instruction_index,
            signature,
        ),
    )
}

} // verus!
