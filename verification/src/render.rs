//! Plain-text rendering of the values that appear in a report: decimal
//! integers, hexadecimal tags, four-character codes, and the whole-number
//! reading of floating-point bit patterns.
use vstd::prelude::*;
use vstd::string::*;

verus! {

/// Relies on String::push: appends exactly the given character.
#[verifier::external_body]
pub fn push_char(s: &mut String, c: char)
    ensures
        final(s)@ == old(s)@.push(c),
{
    s.push(c);
}

/// The decimal digit character for `d` (0 to 9).
pub open spec fn digit_char(d: int) -> char {
    (48 + d) as char
}

/// The uppercase hexadecimal digit character for `d` (0 to 15).
pub open spec fn hex_char_upper(d: int) -> char {
    if d < 10 {
        (48 + d) as char
    } else {
        (55 + d) as char
    }
}

/// The lowercase hexadecimal digit character for `d` (0 to 15).
pub open spec fn hex_char_lower(d: int) -> char {
    if d < 10 {
        (48 + d) as char
    } else {
        (87 + d) as char
    }
}

/// The decimal rendering of `n`, most significant digit first.
pub open spec fn spec_dec(n: nat) -> Seq<char>
    decreases n,
{
    if n < 10 {
        seq![digit_char(n as int)]
    } else {
        spec_dec(n / 10).push(digit_char((n % 10) as int))
    }
}

/// The decimal rendering of a signed value: a minus sign before the digits
/// of the magnitude when it is negative.
pub open spec fn spec_dec_signed(v: int) -> Seq<char> {
    if v >= 0 {
        spec_dec(v as nat)
    } else {
        seq!['-'] + spec_dec((-v) as nat)
    }
}

/// The uppercase hexadecimal rendering of `n`, most significant digit first.
pub open spec fn spec_hex(n: nat) -> Seq<char>
    decreases n,
{
    if n < 16 {
        seq![hex_char_upper(n as int)]
    } else {
        spec_hex(n / 16).push(hex_char_upper((n % 16) as int))
    }
}

/// The digit character for `d` below 10.
fn digit(d: u64) -> (c: char)
    requires
        d < 10,
    ensures
        c == digit_char(d as int),
{
    (48 + d as u8) as char
}

/// The uppercase hexadecimal digit character for `d` below 16.
fn hex_digit_upper(d: u64) -> (c: char)
    requires
        d < 16,
    ensures
        c == hex_char_upper(d as int),
{
    if d < 10 {
        (48 + d as u8) as char
    } else {
        (55 + d as u8) as char
    }
}

/// The lowercase hexadecimal digit character for `d` below 16.
fn hex_digit_lower(d: u64) -> (c: char)
    requires
        d < 16,
    ensures
        c == hex_char_lower(d as int),
{
    if d < 10 {
        (48 + d as u8) as char
    } else {
        (87 + d as u8) as char
    }
}

/// Appends the decimal rendering of `n` to `out`.
pub fn append_dec_u64(out: &mut String, n: u64)
    ensures
        final(out)@ == old(out)@ + spec_dec(n as nat),
    decreases n,
{
    if n < 10 {
        let c = digit(n);
        push_char(out, c);
        assert(old(out)@.push(c) =~= old(out)@ + spec_dec(n as nat));
    } else {
        append_dec_u64(out, n / 10);
        let c = digit(n % 10);
        push_char(out, c);
        assert((old(out)@ + spec_dec((n / 10) as nat)).push(c) =~= old(out)@ + spec_dec(
            n as nat,
        ));
    }
}

/// The decimal rendering of `n` as an owned string.
pub fn dec_u64(n: u64) -> (r: String)
    ensures
        r@ == spec_dec(n as nat),
{
    let mut s = String::new();
    append_dec_u64(&mut s, n);
    proof {
        assert(s@ =~= spec_dec(n as nat));
    }
    s
}

/// Appends the decimal rendering of `n` to `out`.
pub fn append_dec_u32(out: &mut String, n: u32)
    ensures
        final(out)@ == old(out)@ + spec_dec(n as nat),
{
    append_dec_u64(out, n as u64);
}

/// Appends the signed decimal rendering of `v` to `out`.
pub fn append_dec_i64(out: &mut String, v: i64)
    ensures
        final(out)@ == old(out)@ + spec_dec_signed(v as int),
    {
    if v >= 0 {
        append_dec_u64(out, v as u64);
    } else {
        push_char(out, '-');
        let m: u64 = if v == i64::MIN {
            9223372036854775808u64
        } else {
            (-v) as u64
        };
        assert(m == (-(v as int)) as nat);
        append_dec_u64(out, m);
        assert(old(out)@.push('-') + spec_dec(m as nat) =~= old(out)@ + spec_dec_signed(
            v as int,
        ));
    }
}

/// Appends the signed decimal rendering of `v` to `out`.
pub fn append_dec_i32(out: &mut String, v: i32)
    ensures
        final(out)@ == old(out)@ + spec_dec_signed(v as int),
{
    append_dec_i64(out, v as i64);
}

/// Appends the uppercase hexadecimal rendering of `n` to `out`.
pub fn append_hex_u64(out: &mut String, n: u64)
    ensures
        final(out)@ == old(out)@ + spec_hex(n as nat),
    decreases n,
{
    if n < 16 {
        let c = hex_digit_upper(n);
        push_char(out, c);
        assert(old(out)@.push(c) =~= old(out)@ + spec_hex(n as nat));
    } else {
        append_hex_u64(out, n / 16);
        let c = hex_digit_upper(n % 16);
        push_char(out, c);
        assert((old(out)@ + spec_hex((n / 16) as nat)).push(c) =~= old(out)@ + spec_hex(
            n as nat,
        ));
    }
}

/// The `0x`-prefixed rendering of a numeric tag, zero-padded to at least
/// four hexadecimal digits.
pub open spec fn spec_hex_tag(v: nat) -> Seq<char> {
    seq!['0', 'x'] + (if v < 0x10 {
        seq!['0', '0', '0']
    } else if v < 0x100 {
        seq!['0', '0']
    } else if v < 0x1000 {
        seq!['0']
    } else {
        Seq::<char>::empty()
    }) + spec_hex(v)
}

/// Appends the `0x`-prefixed, four-digit-padded hexadecimal tag of `v`.
pub fn append_hex_tag(out: &mut String, v: u32)
    ensures
        final(out)@ == old(out)@ + spec_hex_tag(v as nat),
{
    push_char(out, '0');
    push_char(out, 'x');
    if v < 0x10 {
        push_char(out, '0');
        push_char(out, '0');
        push_char(out, '0');
    } else if v < 0x100 {
        push_char(out, '0');
        push_char(out, '0');
    } else if v < 0x1000 {
        push_char(out, '0');
    }
    append_hex_u64(out, v as u64);
    assert(final(out)@ =~= old(out)@ + spec_hex_tag(v as nat));
}

/// How one byte of a four-character code is shown: printable ASCII stands
/// for itself, anything else as a lowercase `\xNN` escape.
pub open spec fn spec_byte_escape(b: u8) -> Seq<char> {
    if 32 <= b && b < 127 {
        seq![b as char]
    } else {
        seq!['\\', 'x', hex_char_lower((b / 16) as int), hex_char_lower((b % 16) as int)]
    }
}

/// The four bytes of `v`, most significant first, each shown as
/// `spec_byte_escape` renders it.
pub open spec fn spec_fourcc(v: u32) -> Seq<char> {
    spec_byte_escape((v >> 24) as u8) + spec_byte_escape(((v >> 16) & 0xff) as u8)
        + spec_byte_escape(((v >> 8) & 0xff) as u8) + spec_byte_escape((v & 0xff) as u8)
}

/// Appends the escape of one byte of a four-character code.
fn append_byte_escape(out: &mut String, b: u8)
    ensures
        final(out)@ == old(out)@ + spec_byte_escape(b),
{
    if 32 <= b && b < 127 {
        push_char(out, b as char);
        assert(old(out)@.push(b as char) =~= old(out)@ + spec_byte_escape(b));
    } else {
        push_char(out, '\\');
        push_char(out, 'x');
        let hi = hex_digit_lower((b / 16) as u64);
        push_char(out, hi);
        let lo = hex_digit_lower((b % 16) as u64);
        push_char(out, lo);
        assert(final(out)@ =~= old(out)@ + spec_byte_escape(b));
    }
}

/// Appends the four-character-code rendering of `v`.
pub fn append_fourcc(out: &mut String, v: u32)
    ensures
        final(out)@ == old(out)@ + spec_fourcc(v),
{
    append_byte_escape(out, (v >> 24) as u8);
    append_byte_escape(out, ((v >> 16) & 0xff) as u8);
    append_byte_escape(out, ((v >> 8) & 0xff) as u8);
    append_byte_escape(out, (v & 0xff) as u8);
    assert(final(out)@ =~= old(out)@ + spec_fourcc(v));
}

/// The whole-number reading of a double-precision floating-point bit
/// pattern: zero and finite whole values in range are shown as their
/// digits followed by `.0`; any other pattern is shown as its raw bits in
/// hexadecimal.
pub open spec fn spec_f64_bits(bits: u64) -> Seq<char> {
    let neg = (bits >> 63) == 1;
    let e = (bits >> 52) & 0x7ff;
    let m = bits & 0xf_ffff_ffff_ffff;
    let sign = if neg {
        seq!['-']
    } else {
        Seq::<char>::empty()
    };
    if e == 0 && m == 0 {
        sign + seq!['0', '.', '0']
    } else if 1023 <= e && e <= 1075 && ((m as u64) % (1u64 << ((1075 - e) as u64))) == 0 {
        sign + spec_dec((((0x10_0000_0000_0000 + m) as u64) / (1u64 << ((1075 - e) as u64))) as nat)
            + seq!['.', '0']
    } else if 1076 <= e && e <= 1086 {
        sign + spec_dec((((0x10_0000_0000_0000 + m) as u64) << ((e - 1075) as u64)) as nat)
            + seq!['.', '0']
    } else {
        seq!['0', 'x'] + spec_hex(bits as nat)
    }
}

/// Appends the whole-number reading of a double-precision bit pattern.
pub fn append_f64_bits(out: &mut String, bits: u64)
    ensures
        final(out)@ == old(out)@ + spec_f64_bits(bits),
{
    let neg: bool = (bits >> 63) == 1;
    let e: u64 = (bits >> 52) & 0x7ff;
    let m: u64 = bits & 0xf_ffff_ffff_ffff;
    proof {
        assert(m <= 0xf_ffff_ffff_ffffu64) by (bit_vector)
            requires
                m == bits & 0xf_ffff_ffff_ffffu64,
        ;
    }
    let sh: u64 = if 1023 <= e && e <= 1075 {
        1075 - e
    } else {
        0
    };
    proof {
        assert(1u64 << sh != 0) by (bit_vector)
            requires
                sh <= 52u64,
        ;
    }
    let pa: u64 = 1u64 << sh;
    if e == 0 && m == 0 {
        if neg {
            push_char(out, '-');
        }
        push_char(out, '0');
        push_char(out, '.');
        push_char(out, '0');
        assert(out@ =~= old(out)@ + spec_f64_bits(bits));
    } else if 1023 <= e && e <= 1075 && m % pa == 0 {
        if neg {
            push_char(out, '-');
        }
        append_dec_u64(out, (0x10_0000_0000_0000u64 + m) / pa);
        push_char(out, '.');
        push_char(out, '0');
        assert(out@ =~= old(out)@ + spec_f64_bits(bits));
    } else if 1076 <= e && e <= 1086 {
        if neg {
            push_char(out, '-');
        }
        append_dec_u64(out, (0x10_0000_0000_0000u64 + m) << (e - 1075));
        push_char(out, '.');
        push_char(out, '0');
        assert(out@ =~= old(out)@ + spec_f64_bits(bits));
    } else {
        push_char(out, '0');
        push_char(out, 'x');
        append_hex_u64(out, bits);
        assert(out@ =~= old(out)@ + spec_f64_bits(bits));
    }
}

/// The whole-number reading of a single-precision floating-point bit
/// pattern, as `spec_f64_bits` reads a double-precision one.
pub open spec fn spec_f32_bits(bits: u32) -> Seq<char> {
    let neg = (bits >> 31) == 1;
    let e = (bits >> 23) & 0xff;
    let m = (bits & 0x7f_ffff) as u64;
    let sign = if neg {
        seq!['-']
    } else {
        Seq::<char>::empty()
    };
    if e == 0 && m == 0 {
        sign + seq!['0', '.', '0']
    } else if 127 <= e && e <= 150 && ((m as u64) % (1u64 << ((150 - e) as u64))) == 0 {
        sign + spec_dec((((0x80_0000 + m) as u64) / (1u64 << ((150 - e) as u64))) as nat)
            + seq!['.', '0']
    } else if 151 <= e && e <= 189 {
        sign + spec_dec((((0x80_0000 + m) as u64) << ((e - 150) as u64)) as nat)
            + seq!['.', '0']
    } else {
        seq!['0', 'x'] + spec_hex(bits as nat)
    }
}

/// Appends the whole-number reading of a single-precision bit pattern.
pub fn append_f32_bits(out: &mut String, bits: u32)
    ensures
        final(out)@ == old(out)@ + spec_f32_bits(bits),
{
    let neg: bool = (bits >> 31) == 1;
    let e: u32 = (bits >> 23) & 0xff;
    let m: u64 = (bits & 0x7f_ffff) as u64;
    proof {
        assert(bits & 0x7f_ffffu32 <= 0x7f_ffffu32) by (bit_vector);
    }
    let sh: u64 = if 127 <= e && e <= 150 {
        (150 - e) as u64
    } else {
        0
    };
    proof {
        assert(1u64 << sh != 0) by (bit_vector)
            requires
                sh <= 23u64,
        ;
    }
    let pa: u64 = 1u64 << sh;
    if e == 0 && m == 0 {
        if neg {
            push_char(out, '-');
        }
        push_char(out, '0');
        push_char(out, '.');
        push_char(out, '0');
        assert(out@ =~= old(out)@ + spec_f32_bits(bits));
    } else if 127 <= e && e <= 150 && m % pa == 0 {
        if neg {
            push_char(out, '-');
        }
        append_dec_u64(out, (0x80_0000u64 + m) / pa);
        push_char(out, '.');
        push_char(out, '0');
        assert(out@ =~= old(out)@ + spec_f32_bits(bits));
    } else if 151 <= e && e <= 189 {
        if neg {
            push_char(out, '-');
        }
        append_dec_u64(out, (0x80_0000u64 + m) << ((e - 150) as u64));
        push_char(out, '.');
        push_char(out, '0');
        assert(out@ =~= old(out)@ + spec_f32_bits(bits));
    } else {
        push_char(out, '0');
        push_char(out, 'x');
        append_hex_u64(out, bits as u64);
        assert(out@ =~= old(out)@ + spec_f32_bits(bits));
    }
}

} // verus!
