//! Decoding of the control bytes of a Volt 276 HID report.
//!
//! Report `0x02` is streamed continuously; byte 1 carries the two vintage
//! switches (bit `0x40` for input 1, bit `0x80` for input 2), bytes 2 and 3
//! the compressor modes of inputs 1 and 2.
use vstd::prelude::*;

verus! {

/// The mode that a compressor byte of a report stands for: `0` Off,
/// `1` Voc, `2` GTR, `3` Fast; `None` for any other byte.
pub open spec fn compressor_mode(byte: u8) -> Option<i32> {
    if byte == 0x02 {
        Some(0)
    } else if byte == 0x11 {
        Some(1)
    } else if byte == 0x09 {
        Some(2)
    } else if byte == 0x05 {
        Some(3)
    } else {
        None
    }
}

/// Bit `n` (counted from the least significant bit) of `byte`, as `0` or `1`.
pub open spec fn bit_of(byte: u8, n: nat) -> i32 {
    ((byte as int / vstd::arithmetic::power2::pow2(n) as int) % 2) as i32
}

/// Decodes a compressor byte of a report into its mode.
pub fn parse_compressor(byte: u8) -> (mode: Option<i32>)
    ensures
        mode == compressor_mode(byte),
{
    match byte {
        0x02 => Some(0),
        0x11 => Some(1),
        0x09 => Some(2),
        0x05 => Some(3),
        _ => None,
    }
}

/// Decodes the vintage byte of a report into the states of the vintage
/// switches of inputs 1 and 2, each `0` (off) or `1` (on): bit 6 (`0x40`)
/// and bit 7 (`0x80`) of the byte.
pub fn parse_vintage(byte: u8) -> (states: (i32, i32))
    ensures
        states.0 == bit_of(byte, 6),
        states.1 == bit_of(byte, 7),
{
    proof {
        vstd::arithmetic::power2::lemma2_to64();
        assert((byte & 0x40 != 0) == ((byte / 64) % 2 == 1)) by (bit_vector);
        assert((byte & 0x80 != 0) == ((byte / 128) % 2 == 1)) by (bit_vector);
    }
    (
        if byte & 0x40 != 0 { 1 } else { 0 },
        if byte & 0x80 != 0 { 1 } else { 0 },
    )
}

/// No two bytes decode to the same compressor mode.
pub proof fn law_compressor_codes_distinct(b1: u8, b2: u8)
    requires
        compressor_mode(b1) is Some,
        compressor_mode(b1) == compressor_mode(b2),
    ensures
        b1 == b2,
{
}

/// Every decoded compressor mode is one of Off (`0`), Voc (`1`), GTR (`2`)
/// and Fast (`3`), and each of the four modes has a byte that decodes to it.
pub proof fn law_compressor_modes(byte: u8, mode: i32)
    ensures
        compressor_mode(byte) matches Some(m) ==> 0 <= m <= 3,
        0 <= mode <= 3 ==> exists|b: u8| compressor_mode(b) == Some(mode),
{
    if mode == 0 {
        assert(compressor_mode(0x02) == Some(0i32));
    } else if mode == 1 {
        assert(compressor_mode(0x11) == Some(1i32));
    } else if mode == 2 {
        assert(compressor_mode(0x09) == Some(2i32));
    } else if mode == 3 {
        assert(compressor_mode(0x05) == Some(3i32));
    }
}

/// The two vintage switches are independent: flipping the bit of one input
/// leaves the state decoded for the other input unchanged, and flips its own.
pub proof fn law_vintage_inputs_independent(byte: u8)
    ensures
        bit_of(byte ^ 0x40, 7) == bit_of(byte, 7),
        bit_of(byte ^ 0x80, 6) == bit_of(byte, 6),
        bit_of(byte ^ 0x40, 6) == 1 - bit_of(byte, 6),
        bit_of(byte ^ 0x80, 7) == 1 - bit_of(byte, 7),
{
    vstd::arithmetic::power2::lemma2_to64();
    let b = byte;
    assert(((b ^ 0x40) / 128) % 2 == (b / 128) % 2) by (bit_vector);
    assert(((b ^ 0x80) / 64) % 2 == (b / 64) % 2) by (bit_vector);
    assert(((b ^ 0x40) / 64) % 2 == 1 - (b / 64) % 2) by (bit_vector);
    assert(((b ^ 0x80) / 128) % 2 == 1 - (b / 128) % 2) by (bit_vector);
}

/// The bytes that stand for the compressor modes, in the order of the
/// modes: Off (`0x02`), Voc (`0x11`), GTR (`0x09`), Fast (`0x05`).
pub open spec fn compressor_codes() -> Seq<u8> {
    seq![0x02u8, 0x11, 0x09, 0x05]
}

/// A byte decodes to mode `m` exactly when it is the byte of mode `m` in the
/// table Off `0x02`, Voc `0x11`, GTR `0x09`, Fast `0x05`; every other byte
/// decodes to nothing.
pub proof fn law_compressor_table(byte: u8, mode: i32)
    ensures
        compressor_mode(byte) == Some(mode) <==> (0 <= mode < 4 && compressor_codes()[mode as int]
            == byte),
        compressor_mode(byte) is None <==> !compressor_codes().contains(byte),
{
    let codes = compressor_codes();
    assert(codes[0] == 0x02 && codes[1] == 0x11 && codes[2] == 0x09 && codes[3] == 0x05);
    if codes.contains(byte) {
        let i = choose|i: int| 0 <= i < codes.len() && codes[i] == byte;
    }
    if byte == 0x02 { assert(codes.contains(byte)); }
    if byte == 0x11 { assert(codes[1] == byte); }
    if byte == 0x09 { assert(codes[2] == byte); }
    if byte == 0x05 { assert(codes[3] == byte); }
}

/// The vintage state of input 1 is `1` exactly when bit `0x40` of the byte
/// is set, that of input 2 exactly when bit `0x80` is set; otherwise `0`.
pub proof fn law_vintage_bits(byte: u8)
    ensures
        bit_of(byte, 6) == (if byte & 0x40u8 == 0x40u8 { 1i32 } else { 0i32 }),
        bit_of(byte, 7) == (if byte & 0x80u8 == 0x80u8 { 1i32 } else { 0i32 }),
{
    vstd::arithmetic::power2::lemma2_to64();
    assert((byte & 0x40u8 == 0x40u8) == ((byte / 64) % 2 == 1)) by (bit_vector);
    assert((byte & 0x80u8 == 0x80u8) == ((byte / 128) % 2 == 1)) by (bit_vector);
}

} // verus!
