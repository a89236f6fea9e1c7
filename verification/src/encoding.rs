//! Byte encodings that digests are taken of: text, little-endian numbers, and
//! raw bytes.

use vstd::prelude::*;

verus! {

/// The bytes of a text of ASCII characters.
pub open spec fn ascii_bytes(text: Seq<char>) -> Seq<u8> {
    Seq::new(text.len(), |i: int| text[i] as u8)
}

/// The `width` low bytes of a number, lowest first.
pub open spec fn le_bytes(value: nat, width: nat) -> Seq<u8>
    decreases width,
{
    if width == 0 {
        Seq::empty()
    } else {
        seq![(value % 256) as u8] + le_bytes(value / 256, (width - 1) as nat)
    }
}

/// The two's complement of a signed number of 128 bits.
pub open spec fn twos_complement(value: i128) -> nat {
    if value >= 0 {
        value as nat
    } else {
        (u128::MAX + 1 + value) as nat
    }
}

/// How many values `width` bytes tell apart.
pub open spec fn capacity(width: nat) -> nat
    decreases width,
{
    if width == 0 {
        1
    } else {
        256 * capacity((width - 1) as nat)
    }
}

/// An encoded number has the width it was given.
pub proof fn lemma_le_bytes_len(value: nat, width: nat)
    ensures
        le_bytes(value, width).len() == width,
    decreases width,
{
    if width > 0 {
        lemma_le_bytes_len(value / 256, (width - 1) as nat);
    }
}

/// Numbers that fit their width are told apart by their encodings.
pub proof fn lemma_le_bytes_injective(a: nat, b: nat, width: nat)
    requires
        a < capacity(width),
        b < capacity(width),
        le_bytes(a, width) == le_bytes(b, width),
    ensures
        a == b,
    decreases width,
{
    if width > 0 {
        let rest = (width - 1) as nat;
        let s = le_bytes(a, width);
        let t = le_bytes(b, width);
        assert(s[0] == (a % 256) as u8);
        assert(t[0] == (b % 256) as u8);
        assert(s.skip(1) =~= le_bytes(a / 256, rest));
        assert(t.skip(1) =~= le_bytes(b / 256, rest));
        lemma_le_bytes_injective(a / 256, b / 256, rest);
    }
}

/// The number that bytes stand for, lowest first.
pub open spec fn le_value(bytes: Seq<u8>) -> nat
    decreases bytes.len(),
{
    if bytes.len() == 0 {
        0
    } else {
        bytes[0] as nat + 256 * le_value(bytes.skip(1))
    }
}

/// The bytes of a number that fits them stand for that number.
pub proof fn lemma_le_bytes_value(value: nat, width: nat)
    requires
        value < capacity(width),
    ensures
        le_bytes(value, width).len() == width,
        le_value(le_bytes(value, width)) == value,
    decreases width,
{
    lemma_le_bytes_len(value, width);
    if width > 0 {
        let rest = (width - 1) as nat;
        lemma_le_bytes_value(value / 256, rest);
        assert(le_bytes(value, width).skip(1) =~= le_bytes(value / 256, rest));
    }
}

/// The bytes of a text are its characters' codes, in order.
pub proof fn lemma_ascii_bytes(text: Seq<char>, i: int)
    requires
        0 <= i < text.len(),
    ensures
        ascii_bytes(text).len() == text.len(),
        ascii_bytes(text)[i] == text[i] as u8,
{
}

/// A number that is not negative is its own two's complement; to a negative one
/// 2 to the power of 128 is added.
pub proof fn lemma_twos_complement_value(value: i128)
    ensures
        twos_complement(value) == (if value >= 0 {
            value as int
        } else {
            value + 340282366920938463463374607431768211456
        }),
{
}

/// What four, eight and sixteen bytes hold.
pub proof fn lemma_capacities()
    ensures
        capacity(4) == u32::MAX + 1,
        capacity(8) == u64::MAX + 1,
        capacity(16) == u128::MAX + 1,
{
    reveal_with_fuel(capacity, 17);
}

/// Signed numbers are told apart by their two's complements, which fit sixteen
/// bytes.
pub proof fn lemma_twos_complement_injective(a: i128, b: i128)
    ensures
        twos_complement(a) < capacity(16),
        twos_complement(a) == twos_complement(b) ==> a == b,
{
    lemma_capacities();
}

/// Appends the `width` low bytes of a number, lowest first.
fn push_le(out: &mut Vec<u8>, value: u128, width: usize)
    ensures
        final(out)@ == old(out)@ + le_bytes(value as nat, width as nat),
{
    let mut rest: u128 = value;
    let mut i: usize = 0;
    while i < width
        invariant
            i <= width,
            out@ + le_bytes(rest as nat, (width - i) as nat) == old(out)@ + le_bytes(
                value as nat,
                width as nat,
            ),
        decreases width - i,
    {
        let ghost before = out@;
        let ghost tail = le_bytes((rest / 256) as nat, (width - i - 1) as nat);
        out.push((rest % 256) as u8);
        assert(out@ + tail =~= before + (seq![(rest % 256) as u8] + tail));
        rest = rest / 256;
        i += 1;
    }
    assert(out@ + le_bytes(rest as nat, 0) =~= out@);
}

/// Appends the four bytes of a number.
pub fn push_u32(out: &mut Vec<u8>, value: u32)
    ensures
        final(out)@ == old(out)@ + le_bytes(value as nat, 4),
{
    push_le(out, value as u128, 4);
}

/// Appends the eight bytes of a number.
pub fn push_u64(out: &mut Vec<u8>, value: u64)
    ensures
        final(out)@ == old(out)@ + le_bytes(value as nat, 8),
{
    push_le(out, value as u128, 8);
}

/// Appends the sixteen bytes of a signed number.
pub fn push_i128(out: &mut Vec<u8>, value: i128)
    ensures
        final(out)@ == old(out)@ + le_bytes(twos_complement(value), 16),
{
    let bits: u128 = if value >= 0 {
        value as u128
    } else {
        u128::MAX - ((-(value + 1)) as u128)
    };
    push_le(out, bits, 16);
}

/// Appends raw bytes.
pub fn push_bytes<const N: usize>(out: &mut Vec<u8>, bytes: &[u8; N])
    ensures
        final(out)@ == old(out)@ + bytes@,
{
    let mut i: usize = 0;
    while i < N
        invariant
            i <= N,
            out@ == old(out)@ + bytes@.take(i as int),
        decreases N - i,
    {
        out.push(bytes[i]);
        i += 1;
        assert(out@ =~= old(out)@ + bytes@.take(i as int));
    }
    assert(bytes@.take(N as int) =~= bytes@);
}

/// Appends a text of ASCII characters.
pub fn push_text(out: &mut Vec<u8>, text: &str)
    requires
        text.is_ascii(),
    ensures
        final(out)@ == old(out)@ + ascii_bytes(text@),
{
    let n: usize = text.unicode_len();
    let mut i: usize = 0;
    while i < n
        invariant
            i <= n,
            n == text@.len(),
            text.is_ascii(),
            out@ == old(out)@ + ascii_bytes(text@).take(i as int),
        decreases n - i,
    {
        out.push(text.get_ascii(i));
        i += 1;
        assert(out@ =~= old(out)@ + ascii_bytes(text@).take(i as int));
    }
    assert(ascii_bytes(text@).take(n as int) =~= ascii_bytes(text@));
}

} // verus!
