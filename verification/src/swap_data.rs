//! The instruction data of an AMM router's `Swap` instruction.

use vstd::prelude::*;
use solana_farm_sdk::instruction::amm::AmmInstruction;
use solana_program::program_error::ProgramError;

verus! {

/// The runtime's error type, carried through the library unchanged.
#[verifier::external_type_specification]
#[verifier::external_body]
pub struct ExProgramError(ProgramError);

/// The tag byte of a `Swap` among the AMM router's instructions.
pub const SWAP_TAG: u8 = 3;

/// The length of a packed `Swap`: the tag and three 8-byte amounts.
pub const SWAP_DATA_LEN: usize = 25;

/// The eight bytes of `x`, least significant first.
pub open spec fn u64_le_bytes(x: u64) -> Seq<u8> {
    seq![
        (x & 0xff) as u8,
        ((x >> 8u64) & 0xff) as u8,
        ((x >> 16u64) & 0xff) as u8,
        ((x >> 24u64) & 0xff) as u8,
        ((x >> 32u64) & 0xff) as u8,
        ((x >> 40u64) & 0xff) as u8,
        ((x >> 48u64) & 0xff) as u8,
        ((x >> 56u64) & 0xff) as u8,
    ]
}

/// The number whose bytes, least significant first, are the first eight of `b`.
pub open spec fn u64_from_le(b: Seq<u8>) -> u64 {
    (b[0] as u64) | ((b[1] as u64) << 8u64) | ((b[2] as u64) << 16u64) | ((b[3] as u64) << 24u64)
        | ((b[4] as u64) << 32u64) | ((b[5] as u64) << 40u64) | ((b[6] as u64) << 48u64)
        | ((b[7] as u64) << 56u64)
}

/// The packed `Swap` instruction: its tag, then the three amounts in little-endian order.
pub open spec fn swap_data(
    token_a_amount_in: u64,
    token_b_amount_in: u64,
    min_token_amount_out: u64,
) -> Seq<u8> {
    seq![SWAP_TAG] + u64_le_bytes(token_a_amount_in) + u64_le_bytes(token_b_amount_in)
        + u64_le_bytes(min_token_amount_out)
}

/// `AmmInstruction::Swap { .. }.to_vec()` of solana-farm-sdk. Its source packs the
/// tag `AmmInstructionType::Swap` (3) and the three amounts with `to_le_bytes` into a
/// 25-byte buffer, which always has room, so the call always returns `Ok` with
/// `swap_data` of its arguments.
#[verifier::external_body]
pub(crate) fn pack_swap_instruction(
    token_a_amount_in: u64,
    token_b_amount_in: u64,
    min_token_amount_out: u64,
) -> (r: Result<Vec<u8>, ProgramError>)
    ensures
        r is Ok,
        r.unwrap()@ == swap_data(token_a_amount_in, token_b_amount_in, min_token_amount_out),
{
    AmmInstruction::Swap { token_a_amount_in, token_b_amount_in, min_token_amount_out }.to_vec()
}

/// Decoding eight little-endian bytes gives back the number they were made from.
pub proof fn lemma_u64_le_roundtrip(x: u64)
    ensures
        u64_le_bytes(x).len() == 8,
        u64_from_le(u64_le_bytes(x)) == x,
{
    let b = u64_le_bytes(x);
    assert(b[0] == (x & 0xff) as u8);
    assert(b[7] == ((x >> 56u64) & 0xff) as u8);
    assert(
        ((x & 0xff) as u8 as u64) | ((((x >> 8u64) & 0xff) as u8 as u64) << 8u64)
        | ((((x >> 16u64) & 0xff) as u8 as u64) << 16u64) | ((((x >> 24u64) & 0xff) as u8 as u64) << 24u64)
        | ((((x >> 32u64) & 0xff) as u8 as u64) << 32u64) | ((((x >> 40u64) & 0xff) as u8 as u64) << 40u64)
        | ((((x >> 48u64) & 0xff) as u8 as u64) << 48u64) | ((((x >> 56u64) & 0xff) as u8 as u64) << 56u64)
        == x
    ) by (bit_vector);
}

/// A packed `Swap` is 25 bytes long, starts with the `Swap` tag, and its three
/// 8-byte fields decode, in order, to the amounts it was packed from: the router
/// reads back exactly what the fund asked for.
pub proof fn lemma_swap_data_decodes(
    token_a_amount_in: u64,
    token_b_amount_in: u64,
    min_token_amount_out: u64,
)
    ensures
        swap_data(token_a_amount_in, token_b_amount_in, min_token_amount_out).len() == SWAP_DATA_LEN,
        swap_data(token_a_amount_in, token_b_amount_in, min_token_amount_out)[0] == SWAP_TAG,
        u64_from_le(swap_data(token_a_amount_in, token_b_amount_in, min_token_amount_out).subrange(1, 9))
            == token_a_amount_in,
        u64_from_le(swap_data(token_a_amount_in, token_b_amount_in, min_token_amount_out).subrange(9, 17))
            == token_b_amount_in,
        u64_from_le(swap_data(token_a_amount_in, token_b_amount_in, min_token_amount_out).subrange(17, 25))
            == min_token_amount_out,
{
    let d = swap_data(token_a_amount_in, token_b_amount_in, min_token_amount_out);
    lemma_u64_le_roundtrip(token_a_amount_in);
    lemma_u64_le_roundtrip(token_b_amount_in);
    lemma_u64_le_roundtrip(min_token_amount_out);
    assert(d.subrange(1, 9) =~= u64_le_bytes(token_a_amount_in));
    assert(d.subrange(9, 17) =~= u64_le_bytes(token_b_amount_in));
    assert(d.subrange(17, 25) =~= u64_le_bytes(min_token_amount_out));
}

/// Byte `k` of a little-endian `u64` is the base-256 digit of weight 256^k:
/// the least significant byte comes first and the most significant last.
pub proof fn lemma_u64_le_digits(x: u64)
    ensures
        u64_le_bytes(x)[0] as int == x as int % 256,
        u64_le_bytes(x)[1] as int == (x as int / 256) % 256,
        u64_le_bytes(x)[2] as int == (x as int / 65536) % 256,
        u64_le_bytes(x)[3] as int == (x as int / 16777216) % 256,
        u64_le_bytes(x)[4] as int == (x as int / 4294967296) % 256,
        u64_le_bytes(x)[5] as int == (x as int / 1099511627776) % 256,
        u64_le_bytes(x)[6] as int == (x as int / 281474976710656) % 256,
        u64_le_bytes(x)[7] as int == x as int / 72057594037927936,
{
    assert((x & 0xff) as u8 as u64 == x % 256) by (bit_vector);
    assert(((x >> 8u64) & 0xff) as u8 as u64 == (x / 256) % 256) by (bit_vector);
    assert(((x >> 16u64) & 0xff) as u8 as u64 == (x / 65536) % 256) by (bit_vector);
    assert(((x >> 24u64) & 0xff) as u8 as u64 == (x / 16777216) % 256) by (bit_vector);
    assert(((x >> 32u64) & 0xff) as u8 as u64 == (x / 4294967296) % 256) by (bit_vector);
    assert(((x >> 40u64) & 0xff) as u8 as u64 == (x / 1099511627776) % 256) by (bit_vector);
    assert(((x >> 48u64) & 0xff) as u8 as u64 == (x / 281474976710656) % 256) by (bit_vector);
    assert(((x >> 56u64) & 0xff) as u8 as u64 == x / 72057594037927936) by (bit_vector);
}

/// The packed `Swap` holds, after its tag, the base-256 digits of the first
/// amount (least significant first), then those of the second, then those of
/// the minimum output: byte `1 + 8j + k` is digit `k` of amount `j`.
pub proof fn lemma_swap_data_digits(
    token_a_amount_in: u64,
    token_b_amount_in: u64,
    min_token_amount_out: u64,
)
    ensures
        swap_data(token_a_amount_in, token_b_amount_in, min_token_amount_out).len() == 25,
        swap_data(token_a_amount_in, token_b_amount_in, min_token_amount_out)[0] == 3,
        swap_data(token_a_amount_in, token_b_amount_in, min_token_amount_out).subrange(1, 9)
            == u64_le_bytes(token_a_amount_in),
        swap_data(token_a_amount_in, token_b_amount_in, min_token_amount_out).subrange(9, 17)
            == u64_le_bytes(token_b_amount_in),
        swap_data(token_a_amount_in, token_b_amount_in, min_token_amount_out).subrange(17, 25)
            == u64_le_bytes(min_token_amount_out),
        swap_data(token_a_amount_in, token_b_amount_in, min_token_amount_out)[1] as int
            == token_a_amount_in as int % 256,
        swap_data(token_a_amount_in, token_b_amount_in, min_token_amount_out)[8] as int
            == token_a_amount_in as int / 72057594037927936,
        swap_data(token_a_amount_in, token_b_amount_in, min_token_amount_out)[9] as int
            == token_b_amount_in as int % 256,
        swap_data(token_a_amount_in, token_b_amount_in, min_token_amount_out)[16] as int
            == token_b_amount_in as int / 72057594037927936,
        swap_data(token_a_amount_in, token_b_amount_in, min_token_amount_out)[17] as int
            == min_token_amount_out as int % 256,
        swap_data(token_a_amount_in, token_b_amount_in, min_token_amount_out)[24] as int
            == min_token_amount_out as int / 72057594037927936,
{
    let d = swap_data(token_a_amount_in, token_b_amount_in, min_token_amount_out);
    lemma_u64_le_digits(token_a_amount_in);
    lemma_u64_le_digits(token_b_amount_in);
    lemma_u64_le_digits(min_token_amount_out);
    assert(d.subrange(1, 9) =~= u64_le_bytes(token_a_amount_in));
    assert(d.subrange(9, 17) =~= u64_le_bytes(token_b_amount_in));
    assert(d.subrange(17, 25) =~= u64_le_bytes(min_token_amount_out));
    assert(d[1] == u64_le_bytes(token_a_amount_in)[0]);
    assert(d[8] == u64_le_bytes(token_a_amount_in)[7]);
    assert(d[9] == u64_le_bytes(token_b_amount_in)[0]);
    assert(d[16] == u64_le_bytes(token_b_amount_in)[7]);
    assert(d[17] == u64_le_bytes(min_token_amount_out)[0]);
    assert(d[24] == u64_le_bytes(min_token_amount_out)[7]);
}

} // verus!
