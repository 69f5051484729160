//! Encoding of the unconditional jump that a hook writes over its target.

use crate::error::Error;
use vstd::prelude::*;

verus! {

/// Length in bytes of the 32-bit near relative jump.
pub const NEAR_JUMP_SIZE: usize = 5;

/// Length in bytes of the 64-bit absolute indirect jump.
pub const ABSOLUTE_JUMP_SIZE: usize = 14;

/// The single-byte instruction that pads a patch region behind the jump.
pub const FILLER: u8 = 0x90;

/// The pointer widths for which a jump can be encoded.
pub open spec fn supported(width: u32) -> bool {
    width == 32 || width == 64
}

/// Length of the jump encoding for a pointer width, and hence the least
/// length of a patch region.
pub open spec fn jump_size(width: u32) -> nat {
    if width == 32 {
        5
    } else if width == 64 {
        14
    } else {
        0
    }
}

/// The `count` low-order bytes of `value`, least significant first. A
/// negative `value` yields its two's complement representation.
pub open spec fn little_endian(value: int, count: nat) -> Seq<u8>
    decreases count,
{
    if count == 0 {
        Seq::empty()
    } else {
        seq![(value % 256) as u8] + little_endian(value / 256, (count - 1) as nat)
    }
}

/// `E9` followed by the displacement from the end of the jump to the
/// destination, as four little-endian bytes.
pub open spec fn near_jump(source: int, destination: int) -> Seq<u8> {
    seq![0xE9u8] + little_endian(destination - source - 5, 4)
}

/// `FF 25 00 00 00 00`, a jump through the eight bytes that follow, and then
/// the destination as those eight little-endian bytes.
pub open spec fn absolute_jump(destination: int) -> Seq<u8> {
    seq![0xFFu8, 0x25u8, 0u8, 0u8, 0u8, 0u8] + little_endian(destination, 8)
}

/// The jump from `source` to `destination` for a supported pointer width.
pub open spec fn jump_encoding(source: int, destination: int, width: u32) -> Seq<u8> {
    if width == 32 {
        near_jump(source, destination)
    } else {
        absolute_jump(destination)
    }
}

/// The number whose little-endian representation is `bytes`.
pub open spec fn little_endian_value(bytes: Seq<u8>) -> nat
    decreases bytes.len(),
{
    if bytes.len() == 0 {
        0
    } else {
        bytes[0] as nat + 256 * little_endian_value(bytes.drop_first())
    }
}

/// The number of values that `count` bytes can tell apart: 256 to the
/// power of `count`.
pub open spec fn radix(count: nat) -> nat
    decreases count,
{
    if count == 0 {
        1
    } else {
        256 * radix((count - 1) as nat)
    }
}

/// Whether `code` is a jump instruction in the form that is written for
/// the pointer width: its length and its opcode bytes are right.
pub open spec fn is_jump(code: Seq<u8>, width: u32) -> bool {
    if width == 32 {
        code.len() == 5 && code[0] == 0xE9u8
    } else {
        code.len() == 14 && code.subrange(0, 6) == seq![0xFFu8, 0x25u8, 0u8, 0u8, 0u8, 0u8]
    }
}

/// The address at which execution continues after the jump `code`, which
/// stands at address `at`. The near jump leads to the end of the
/// instruction plus its displacement, within the 32-bit address space; the
/// absolute jump leads to the address that its last eight bytes hold.
pub open spec fn jump_target(code: Seq<u8>, at: int, width: u32) -> int {
    if width == 32 {
        (at + 5 + little_endian_value(code.subrange(1, 5))) % 0x1_0000_0000
    } else {
        little_endian_value(code.subrange(6, 14)) as int
    }
}

/// Every encoding is exactly as long as `jump_size` says.
pub proof fn lemma_jump_encoding_len(source: int, destination: int, width: u32)
    requires
        supported(width),
    ensures
        jump_encoding(source, destination, width).len() == jump_size(width),
{
    lemma_little_endian_len(destination - source - 5, 4);
    lemma_little_endian_len(destination, 8);
}

/// `little_endian` yields as many bytes as were asked for.
pub proof fn lemma_little_endian_len(value: int, count: nat)
    ensures
        little_endian(value, count).len() == count,
    decreases count,
{
    if count > 0 {
        lemma_little_endian_len(value / 256, (count - 1) as nat);
    }
}

/// The little-endian representation of a value in `count` bytes stands for
/// the value modulo 256 to the power of `count`.
pub proof fn lemma_little_endian_value(value: int, count: nat)
    ensures
        radix(count) > 0,
        little_endian_value(little_endian(value, count)) == value % (radix(count) as int),
    decreases count,
{
    if count > 0 {
        let bytes = little_endian(value, count);
        let high = value / 256;
        let low = value % 256;
        let rest = radix((count - 1) as nat) as int;
        lemma_little_endian_value(high, (count - 1) as nat);
        assert(bytes.drop_first() =~= little_endian(high, (count - 1) as nat));
        let quotient = high / rest;
        let remainder = high % rest;
        vstd::arithmetic::div_mod::lemma_fundamental_div_mod(high, rest);
        vstd::arithmetic::div_mod::lemma_mod_bound(high, rest);
        assert(value == quotient * (256 * rest) + (256 * remainder + low)) by (nonlinear_arith)
            requires
                value == 256 * high + low,
                high == rest * quotient + remainder,
        ;
        vstd::arithmetic::div_mod::lemma_fundamental_div_mod_converse_mod(
            value,
            256 * rest,
            quotient,
            256 * remainder + low,
        );
    }
}

/// Adding a multiple of 2^32 to a value leaves its four low-order bytes
/// unchanged.
proof fn lemma_little_endian_wraps(value: int, turns: int)
    ensures
        little_endian(value + turns * 0x1_0000_0000, 4) == little_endian(value, 4),
{
    let shifted = value + turns * 0x1_0000_0000;
    reveal_with_fuel(little_endian, 5);
    assert(shifted % 256 == value % 256);
    assert(shifted / 256 == value / 256 + turns * 0x100_0000);
    let v1 = value / 256;
    let s1 = shifted / 256;
    assert(s1 % 256 == v1 % 256);
    assert(s1 / 256 == v1 / 256 + turns * 0x1_0000);
    let v2 = v1 / 256;
    let s2 = s1 / 256;
    assert(s2 % 256 == v2 % 256);
    assert(s2 / 256 == v2 / 256 + turns * 0x100);
    let v3 = v2 / 256;
    let s3 = s2 / 256;
    assert(s3 % 256 == v3 % 256);
}

/// The least length of a patch region for a pointer width.
pub fn minimum_length(width: u32) -> (result: Result<usize, Error>)
    ensures
        supported(width) ==> result == Ok::<usize, Error>(jump_size(width) as usize),
        !supported(width) ==> result == Err::<usize, Error>(Error::InvalidTarget),
{
    if width == 32 {
        Ok(NEAR_JUMP_SIZE)
    } else if width == 64 {
        Ok(ABSOLUTE_JUMP_SIZE)
    } else {
        Err(Error::InvalidTarget)
    }
}

/// Appends the `count` low-order bytes of `value` to `out`, least
/// significant first.
fn push_little_endian(out: &mut Vec<u8>, value: u64, count: usize)
    ensures
        final(out)@ == old(out)@ + little_endian(value as int, count as nat),
{
    let mut rest: u64 = value;
    let mut done: usize = 0;
    proof {
        assert(out@ + little_endian(rest as int, (count - done) as nat) =~= old(out)@
            + little_endian(value as int, count as nat));
    }
    while done < count
        invariant
            done <= count,
            out@ + little_endian(rest as int, (count - done) as nat) == old(out)@ + little_endian(
                value as int,
                count as nat,
            ),
        decreases count - done,
    {
        let ghost before = out@;
        let ghost tail = little_endian((rest / 256) as int, (count - done - 1) as nat);
        let byte: u8 = (rest % 256) as u8;
        out.push(byte);
        proof {
            assert(little_endian(rest as int, (count - done) as nat) == seq![byte] + tail);
            assert(out@ + tail =~= before + (seq![byte] + tail));
        }
        rest = rest / 256;
        done = done + 1;
    }
    proof {
        assert(out@ + little_endian(rest as int, 0) =~= out@);
    }
}

/// The near relative jump from `source` to `destination`. The displacement
/// wraps around the 32-bit address space.
fn encode_near_jump(source: usize, destination: usize) -> (code: Vec<u8>)
    ensures
        code@ == near_jump(source as int, destination as int),
{
    let displacement: usize = destination.wrapping_sub(source).wrapping_sub(5);
    let mut code: Vec<u8> = Vec::new();
    code.push(0xE9);
    proof {
        let wanted = destination as int - source as int - 5;
        let turns = (displacement as int - wanted) / 0x1_0000_0000;
        assert(displacement as int == wanted + turns * 0x1_0000_0000);
        lemma_little_endian_wraps(wanted, turns);
        assert(code@ =~= seq![0xE9u8]);
    }
    push_little_endian(&mut code, displacement as u64, 4);
    code
}

/// The absolute indirect jump to `destination`.
fn encode_absolute_jump(destination: usize) -> (code: Vec<u8>)
    ensures
        code@ == absolute_jump(destination as int),
{
    let mut code: Vec<u8> = Vec::new();
    code.push(0xFF);
    code.push(0x25);
    code.push(0);
    code.push(0);
    code.push(0);
    code.push(0);
    proof {
        assert(code@ =~= seq![0xFFu8, 0x25u8, 0u8, 0u8, 0u8, 0u8]);
    }
    push_little_endian(&mut code, destination as u64, 8);
    code
}

/// The jump from `source` to `destination` for a pointer width that is
/// known to be supported.
pub(crate) fn encode_supported_jump(source: usize, destination: usize, width: u32) -> (code: Vec<
    u8,
>)
    requires
        supported(width),
    ensures
        code@ == jump_encoding(source as int, destination as int, width),
{
    if width == 32 {
        encode_near_jump(source, destination)
    } else {
        encode_absolute_jump(destination)
    }
}

/// Encodes the unconditional jump from `source` to `destination`.
///
/// For a 32-bit target this is the near relative jump, whose displacement
/// wraps around the 32-bit address space; for a 64-bit target it is the
/// absolute indirect jump, which reaches every address. Any other pointer
/// width is refused.
pub fn encode_jump(source: usize, destination: usize, width: u32) -> (result: Result<
    Vec<u8>,
    Error,
>)
    ensures
        supported(width) ==> result is Ok && result->Ok_0@ == jump_encoding(
            source as int,
            destination as int,
            width,
        ),
        !supported(width) ==> result == Err::<Vec<u8>, Error>(Error::InvalidTarget),
{
    if width == 32 || width == 64 {
        Ok(encode_supported_jump(source, destination, width))
    } else {
        Err(Error::InvalidTarget)
    }
}

} // verus!
