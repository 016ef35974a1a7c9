//! The instruction view, the classification tags and the decoded events.

use vstd::prelude::*;
use crate::address::Address;
use crate::address::Signature;
use crate::signers::Signers;

verus! {

/// What an instruction was recognized as.
#[derive(Clone, Copy, Debug, PartialEq, Eq, Structural)]
pub enum InstructionType {
    RaydiumAmmV4Swap,
    RaydiumCpmmSwap,
    RaydiumLaunchpadSwap,
    PumpswapSwap,
    PfBondingCurveSwap,
    Link,
    MeteoraDammV2Swap,
    MeteoraDbcSwap,
    MeteoraAmmSwap,
    RaydiumAmmV4AddLiquidity,
    RaydiumAmmV4RemoveLiquidity,
    RaydiumCpmmAddLiquidity,
    RaydiumCpmmRemoveLiquidity,
    PumpswapAddLiquidity,
    PumpswapRemoveLiquidity,
    PfBondingCurveCreate,
    /// None of the above.
    NoMatch,
}

/// Which side of a pool a trade sold.
#[derive(Clone, Copy, Debug, PartialEq, Eq, Structural)]
pub enum SwapDirection {
    /// Token A was sent in and token B received.
    AToB,
    /// Token B was sent in and token A received.
    BToA,
}

/// The protocol that a pool belongs to.
#[derive(Clone, Copy, Debug, PartialEq, Eq, Structural)]
pub enum Pools {
    RaydiumAmmV4,
    RaydiumCpmm,
    RaydiumLaunchpad,
    PumpswapAmm,
    PfBondingCurve,
}

/// A read-only view of one instruction of a transaction.
#[derive(Clone, Copy, Debug)]
pub struct Instruction<'a> {
    /// Every account key of the transaction.
    pub tx_account_keys: &'a [Address],
    /// The accounts that the instruction names, as indices into the keys.
    pub accounts: &'a [u8],
    /// The instruction's payload.
    pub data: &'a [u8],
    /// The index of the program's account among the keys.
    pub program_id_index: u8,
}

/// Why an instruction could not be decoded.
#[derive(Clone, Copy, Debug, PartialEq, Eq)]
pub enum DecodeError {
    /// An event payload has none of the lengths or field encodings of its protocol.
    UnrecognizedEventLayout { protocol: Pools, observed_length: usize },
    /// An instruction that the decoder needs beside the swap is absent.
    MissingCompanionInstruction { protocol: Pools },
    /// A vault account has no entry in the mint table or the balance table.
    MissingVaultOrMintMapping { address: u8 },
    /// The fee configuration holds no entry for the account.
    MissingFeeConfig { account: Address },
    /// The instruction names a number of accounts that its protocol does not use.
    InvalidAccountShape { count: usize },
    /// A price was asked of an empty vault.
    ArithmeticDivisionByZero,
    /// An amount left the range of its integer type.
    ArithmeticOverflow,
    /// An account reference points past the transaction's account keys.
    UnresolvedAccount { index: u8 },
    /// The mint has no bonding-curve address.
    NoBondingCurveAddress { mint: Address },
}

/// A trade on a pool, in standardized form.
#[derive(Clone, Debug)]
pub struct SwapTx {
    pub pool: Pools,
    pub direction: SwapDirection,
    pub block_time: u64,
    pub slot: u64,
    pub index: u64,
    pub atomic_instruction_index: u8,
    /// The fee as a fraction of the trade, scaled by `SCALE`.
    pub fee_fraction_lp: u64,
    pub swapped_amount_in: u64,
    pub swapped_amount_received: u64,
    /// The vaults' balances after the trade.
    pub pool_token_a_vault_amount: u64,
    pub pool_token_b_vault_amount: u64,
    /// Token A per token B and token B per token A, scaled by `SCALE`.
    pub price_a_b_lp: u128,
    pub price_b_a_lp: u128,
    pub token_a_address: Address,
    pub token_b_address: Address,
    pub market_address: Address,
    pub signature: Signature,
    /// The addresses that signed the transaction, each once.
    pub signers: Signers,
}

/// The launch of a token, in standardized form.
#[derive(Clone, Debug)]
pub struct TokenCreation {
    pub address: Address,
    pub creator: Address,
    pub market_address: Address,
    pub name: String,
    pub symbol: String,
    pub uri: String,
    pub description: String,
    pub twitter: String,
    pub website: String,
    pub block_time: u64,
    pub slot: u64,
    pub index: u64,
    pub atomic_instruction_index: u8,
    pub signature: Signature,
}

/// What the walk over a transaction's instructions reports for one matched
/// instruction.
#[derive(Clone, Debug)]
pub enum Outcome {
    /// The instruction was a swap.
    Swap(SwapTx),
    /// The instruction created a token.
    Creation(TokenCreation),
    /// The instruction was matched and could not be decoded.
    Failed { atomic_instruction_index: u8, error: DecodeError },
}

/// An outcome as a mathematical value.
pub enum OutcomeView {
    Swap(SwapTxView),
    Creation(TokenCreationView),
    Failed { atomic_instruction_index: u8, error: DecodeError },
}

/// A trade as a mathematical value: the fields of [`SwapTx`], the signers as
/// a sequence.
pub struct SwapTxView {
    pub pool: Pools,
    pub direction: SwapDirection,
    pub block_time: u64,
    pub slot: u64,
    pub index: u64,
    pub atomic_instruction_index: u8,
    pub fee_fraction_lp: u64,
    pub swapped_amount_in: u64,
    pub swapped_amount_received: u64,
    pub pool_token_a_vault_amount: u64,
    pub pool_token_b_vault_amount: u64,
    pub price_a_b_lp: u128,
    pub price_b_a_lp: u128,
    pub token_a_address: Address,
    pub token_b_address: Address,
    pub market_address: Address,
    pub signature: Signature,
    pub signers: Seq<Address>,
}

/// A token launch as a mathematical value: the fields of
/// [`TokenCreation`], the texts as sequences of characters.
pub struct TokenCreationView {
    pub address: Address,
    pub creator: Address,
    pub market_address: Address,
    pub name: Seq<char>,
    pub symbol: Seq<char>,
    pub uri: Seq<char>,
    pub description: Seq<char>,
    pub twitter: Seq<char>,
    pub website: Seq<char>,
    pub block_time: u64,
    pub slot: u64,
    pub index: u64,
    pub atomic_instruction_index: u8,
    pub signature: Signature,
}

/// Where and by whom a decoded instruction was executed.
pub struct Provenance {
    pub block_time: u64,
    pub slot: u64,
    pub index: u64,
    pub atomic_instruction_index: u8,
    pub signature: Signature,
    pub signers: Seq<Address>,
}

/// The provenance made of its parts.
pub open spec fn provenance_of(
    block_time: u64,
    slot: u64,
    index: u64,
    atomic_instruction_index: u8,
    signature: Signature,
    signers: Seq<Address>,
) -> Provenance {
    Provenance { block_time, slot, index, atomic_instruction_index, signature, signers }
}

impl View for SwapTx {
    type V = SwapTxView;

    open spec fn view(&self) -> SwapTxView {
        SwapTxView {
            pool: self.pool,
            direction: self.direction,
            block_time: self.block_time,
            slot: self.slot,
            index: self.index,
            atomic_instruction_index: self.atomic_instruction_index,
            fee_fraction_lp: self.fee_fraction_lp,
            swapped_amount_in: self.swapped_amount_in,
            swapped_amount_received: self.swapped_amount_received,
            pool_token_a_vault_amount: self.pool_token_a_vault_amount,
            pool_token_b_vault_amount: self.pool_token_b_vault_amount,
            price_a_b_lp: self.price_a_b_lp,
            price_b_a_lp: self.price_b_a_lp,
            token_a_address: self.token_a_address,
            token_b_address: self.token_b_address,
            market_address: self.market_address,
            signature: self.signature,
            signers: self.signers@,
        }
    }
}

impl View for TokenCreation {
    type V = TokenCreationView;

    open spec fn view(&self) -> TokenCreationView {
        TokenCreationView {
            address: self.address,
            creator: self.creator,
            market_address: self.market_address,
            name: self.name@,
            symbol: self.symbol@,
            uri: self.uri@,
            description: self.description@,
            twitter: self.twitter@,
            website: self.website@,
            block_time: self.block_time,
            slot: self.slot,
            index: self.index,
            atomic_instruction_index: self.atomic_instruction_index,
            signature: self.signature,
        }
    }
}

impl View for Outcome {
    type V = OutcomeView;

    open spec fn view(&self) -> OutcomeView {
        match *self {
            Outcome::Swap(swap) => OutcomeView::Swap(swap@),
            Outcome::Creation(creation) => OutcomeView::Creation(creation@),
            Outcome::Failed { atomic_instruction_index, error } => OutcomeView::Failed {
                atomic_instruction_index,
                error,
            },
        }
    }
}

/// The outcome of a decoder as a mathematical value.
pub open spec fn swap_result_view(r: Result<SwapTx, DecodeError>) -> Result<
    SwapTxView,
    DecodeError,
> {
    match r {
        Ok(swap) => Ok(swap@),
        Err(error) => Err(error),
    }
}

/// The outcome of the creation decoder as a mathematical value.
pub open spec fn creation_result_view(r: Result<TokenCreation, DecodeError>) -> Result<
    TokenCreationView,
    DecodeError,
> {
    match r {
        Ok(creation) => Ok(creation@),
        Err(error) => Err(error),
    }
}

impl<'a> Instruction<'a> {
    /// The address of the account at position `position` of the instruction's
    /// account list, where both the position and the key exist.
    pub open spec fn account_key(self, position: int) -> Option<Address> {
        if 0 <= position < self.accounts@.len() && (self.accounts@[position] as int)
            < self.tx_account_keys@.len() {
            Some(self.tx_account_keys@[self.accounts@[position] as int])
        } else {
            None
        }
    }

    /// The address of the program that the instruction calls, where the key exists.
    pub open spec fn program_key(self) -> Option<Address> {
        if (self.program_id_index as int) < self.tx_account_keys@.len() {
            Some(self.tx_account_keys@[self.program_id_index as int])
        } else {
            None
        }
    }

    /// Looks up the program's address.
    pub fn program_id(&self) -> (r: Option<Address>)
        ensures
            r == self.program_key(),
    {
        let i: usize = self.program_id_index as usize;
        if i < self.tx_account_keys.len() {
            Some(self.tx_account_keys[i])
        } else {
            None
        }
    }

    /// Looks up the address of the account at `position` of the account list.
    pub fn account(&self, position: usize) -> (r: Option<Address>)
        ensures
            r == self.account_key(position as int),
    {
        if position < self.accounts.len() {
            let i: usize = self.accounts[position] as usize;
            if i < self.tx_account_keys.len() {
                Some(self.tx_account_keys[i])
            } else {
                None
            }
        } else {
            None
        }
    }
}

} // verus!
