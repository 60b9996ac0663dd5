//! Swap instructions: reading a target's payload and writing the bot's own.
//!
//! The one layout implemented is a discriminator byte followed by two
//! little-endian `u64` fields: the input amount and the minimum output.
use vstd::prelude::*;
use crate::types::{Address, DexType, SwapInfo, Transaction};

verus! {

/// Discriminator of the swap instruction in the implemented layout.
pub const SWAP_DISCRIMINATOR: u8 = 9;

/// Bytes in a swap payload: the discriminator and two `u64` fields.
pub const SWAP_DATA_LEN: usize = 17;

/// Why a payload gave no swap.
#[derive(Clone, Copy, Debug, PartialEq, Eq, Structural)]
pub enum ParseError {
    /// The exchange's layout is not implemented.
    NotSupported,
    /// The payload is shorter than its layout.
    TooShort,
    /// The instruction names fewer accounts than its layout.
    MissingAccounts,
}

/// `256^n`.
pub open spec fn byte_power(n: nat) -> nat
    decreases n,
{
    if n == 0 {
        1
    } else {
        256 * byte_power((n - 1) as nat)
    }
}

/// The number that `bytes` write, least significant byte first.
pub open spec fn le_value(bytes: Seq<u8>) -> nat
    decreases bytes.len(),
{
    if bytes.len() == 0 {
        0
    } else {
        bytes[0] as nat + 256 * le_value(bytes.drop_first())
    }
}

/// The `len` low bytes of `value`, least significant first.
pub open spec fn le_bytes(value: nat, len: nat) -> Seq<u8>
    decreases len,
{
    if len == 0 {
        Seq::empty()
    } else {
        seq![(value % 256) as u8] + le_bytes(value / 256, (len - 1) as nat)
    }
}

/// The swap that a transaction asks `dex` for, as its payload and accounts give it.
pub open spec fn parse_swap_spec(tx: Transaction, dex: DexType) -> Result<SwapInfo, ParseError> {
    match dex {
        DexType::Raydium => {
            if tx.data@.len() < SWAP_DATA_LEN {
                Err(ParseError::TooShort)
            } else if tx.accounts@.len() < 4 {
                Err(ParseError::MissingAccounts)
            } else {
                Ok(
                    SwapInfo {
                        pool_address: tx.accounts@[1],
                        token_in: tx.accounts@[2],
                        token_out: tx.accounts@[3],
                        amount_in: le_value(tx.data@.subrange(1, 9)) as u64,
                        minimum_amount_out: le_value(tx.data@.subrange(9, 17)) as u64,
                        is_buy: true,
                    },
                )
            }
        },
        _ => Err(ParseError::NotSupported),
    }
}

/// The payload of a swap of `amount` with no minimum output.
pub open spec fn swap_data_spec(amount: u64) -> Seq<u8> {
    seq![SWAP_DISCRIMINATOR] + le_bytes(amount as nat, 8) + le_bytes(0, 8)
}

proof fn lemma_le_value_step(s: Seq<u8>, i: int, end: int)
    requires
        0 <= i < end <= s.len(),
    ensures
        le_value(s.subrange(i, end)) == s[i] as nat + 256 * le_value(s.subrange(i + 1, end)),
{
    assert(s.subrange(i, end).drop_first() =~= s.subrange(i + 1, end));
}

proof fn lemma_byte_power_8()
    ensures
        byte_power(8) == 0x1_0000_0000_0000_0000,
{
    reveal_with_fuel(byte_power, 9);
}

proof fn lemma_byte_power_monotone(m: nat, n: nat)
    requires
        m <= n,
    ensures
        byte_power(m) <= byte_power(n),
    decreases n,
{
    if m < n {
        lemma_byte_power_monotone(m, (n - 1) as nat);
    }
}

/// Reads the little-endian `u64` at `data[start..start + 8]`.
pub fn read_u64_le(data: &Vec<u8>, start: usize) -> (r: u64)
    requires
        start + 8 <= data@.len(),
    ensures
        r as nat == le_value(data@.subrange(start as int, start + 8)),
{
    let len = data.len();
    let end = start + 8;
    let mut value: u64 = 0;
    let mut i: usize = 8;
    proof {
        assert(data@.subrange(end as int, end as int) =~= Seq::<u8>::empty());
        lemma_byte_power_8();
    }
    while i > 0
        invariant
            end == start + 8,
            end <= data@.len(),
            0 <= i <= 8,
            value as nat == le_value(data@.subrange(start + i, end as int)),
            (value as nat) < byte_power((8 - i) as nat),
            byte_power(8) == 0x1_0000_0000_0000_0000,
        decreases i,
    {
        let b = data[start + i - 1];
        proof {
            lemma_le_value_step(data@, start + i - 1, end as int);
            lemma_byte_power_monotone((9 - i) as nat, 8);
            assert(byte_power((9 - i) as nat) == 256 * byte_power((8 - i) as nat));
            assert(value * 256 + b < 256 * byte_power((8 - i) as nat)) by (nonlinear_arith)
                requires
                    (value as nat) < byte_power((8 - i) as nat),
                    b < 256,
            ;
        }
        value = value * 256 + b as u64;
        i = i - 1;
    }
    value
}

/// Appends the eight little-endian bytes of `value`.
pub fn push_u64_le(out: &mut Vec<u8>, value: u64)
    ensures
        final(out)@ == old(out)@ + le_bytes(value as nat, 8),
{
    let mut rest: u64 = value;
    let mut i: usize = 0;
    while i < 8
        invariant
            0 <= i <= 8,
            out@ + le_bytes(rest as nat, (8 - i) as nat) == old(out)@ + le_bytes(value as nat, 8),
        decreases 8 - i,
    {
        let ghost before = out@;
        out.push((rest % 256) as u8);
        proof {
            assert(before + le_bytes(rest as nat, (8 - i) as nat) =~= out@ + le_bytes(
                (rest / 256) as nat,
                (8 - i - 1) as nat,
            ));
        }
        rest = rest / 256;
        i = i + 1;
    }
    proof {
        assert(out@ + le_bytes(rest as nat, 0) =~= out@);
    }
}

/// The swap that `transaction` asks `dex` for.
///
/// A payload shorter than its layout, or too few accounts, is a decode error;
/// an exchange whose layout is not implemented says so rather than guess.
pub fn parse_swap_instruction(transaction: &Transaction, dex: DexType) -> (r: Result<SwapInfo, ParseError>)
    ensures
        r == parse_swap_spec(*transaction, dex),
{
    match dex {
        DexType::Raydium => parse_raydium_swap(transaction),
        _ => Err(ParseError::NotSupported),
    }
}

fn parse_raydium_swap(transaction: &Transaction) -> (r: Result<SwapInfo, ParseError>)
    ensures
        r == parse_swap_spec(*transaction, DexType::Raydium),
{
    if transaction.data.len() < SWAP_DATA_LEN {
        return Err(ParseError::TooShort);
    }
    if transaction.accounts.len() < 4 {
        return Err(ParseError::MissingAccounts);
    }
    let amount_in = read_u64_le(&transaction.data, 1);
    let minimum_out = read_u64_le(&transaction.data, 9);
    Ok(
        SwapInfo {
            pool_address: transaction.accounts[1],
            token_in: transaction.accounts[2],
            token_out: transaction.accounts[3],
            amount_in,
            minimum_amount_out: minimum_out,
            is_buy: true,
        },
    )
}

/// The payload of a swap of `amount`: discriminator, amount, and a minimum
/// output of zero.
pub fn swap_instruction_data(amount: u64) -> (r: Vec<u8>)
    ensures
        r@ == swap_data_spec(amount),
        r@.len() == SWAP_DATA_LEN,
{
    let mut data: Vec<u8> = Vec::new();
    data.push(SWAP_DISCRIMINATOR);
    push_u64_le(&mut data, amount);
    push_u64_le(&mut data, 0);
    proof {
        lemma_le_bytes_len(amount as nat, 8);
        lemma_le_bytes_len(0, 8);
    }
    data
}

proof fn lemma_le_bytes_len(value: nat, len: nat)
    ensures
        le_bytes(value, len).len() == len,
    decreases len,
{
    if len > 0 {
        lemma_le_bytes_len(value / 256, (len - 1) as nat);
    }
}

} // verus!
