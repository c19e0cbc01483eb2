use vstd::prelude::*;

verus! {

/// The ASCII digit of `d` (below ten).
pub open spec fn digit(d: nat) -> u8 {
    (48 + d) as u8
}

/// The decimal digits of `n`, most significant first, without leading zeros.
pub open spec fn decimal(n: nat) -> Seq<u8>
    decreases n,
{
    if n < 10 {
        seq![digit(n)]
    } else {
        decimal(n / 10).push(digit(n % 10))
    }
}

/// The lowercase hexadecimal digit of `d` (below sixteen).
pub open spec fn hex_digit(d: nat) -> u8 {
    if d < 10 {
        (48 + d) as u8
    } else {
        (87 + d) as u8
    }
}

/// The `i`-th hexadecimal digit of `v` from the most significant end (`i` below eight).
pub open spec fn nibble(v: u32, i: int) -> u32 {
    (v >> ((28 - 4 * i) as u32)) & 0xf
}

/// Eight lowercase hexadecimal digits of `v`, zero padded.
pub open spec fn hex8(v: u32) -> Seq<u8> {
    Seq::new(8, |i: int| hex_digit(nibble(v, i) as nat))
}

/// `s` with spaces in front up to `width` bytes.
pub open spec fn pad_left(s: Seq<u8>, width: nat) -> Seq<u8> {
    if s.len() >= width {
        s
    } else {
        Seq::new((width - s.len()) as nat, |i: int| 0x20u8) + s
    }
}

/// Appends the decimal digits of `n`.
pub fn push_decimal(out: &mut Vec<u8>, n: u64)
    ensures
        final(out)@ == old(out)@ + decimal(n as nat),
    decreases n,
{
    if n >= 10 {
        push_decimal(out, n / 10);
    }
    let d: u8 = (n % 10) as u8;
    out.push(48 + d);
    assert(final(out)@ =~= old(out)@ + decimal(n as nat));
}

/// The decimal digits of `n`.
pub fn decimal_bytes(n: u64) -> (r: Vec<u8>)
    ensures
        r@ == decimal(n as nat),
{
    let mut out: Vec<u8> = Vec::new();
    push_decimal(&mut out, n);
    assert(out@ =~= decimal(n as nat));
    out
}

/// Appends the eight zero-padded lowercase hexadecimal digits of `v`.
pub fn push_hex8(out: &mut Vec<u8>, v: u32)
    ensures
        final(out)@ == old(out)@ + hex8(v),
{
    let mut i: u32 = 0;
    while i < 8
        invariant
            i <= 8,
            out@ == old(out)@ + hex8(v).take(i as int),
        decreases 8 - i,
    {
        let shifted: u32 = v >> (28 - 4 * i);
        let d: u32 = shifted & 0xf;
        assert(d < 16) by (bit_vector)
            requires
                d == shifted & 0xf,
        ;
        let c: u8 = if d < 10 {
            48 + d as u8
        } else {
            87 + d as u8
        };
        out.push(c);
        assert(hex8(v).take(i + 1) =~= hex8(v).take(i as int).push(c));
        i += 1;
        assert(out@ =~= old(out)@ + hex8(v).take(i as int));
    }
    assert(hex8(v).take(8) =~= hex8(v));
}

/// Appends `bytes` right-aligned in a field of `width` bytes.
pub fn push_padded(out: &mut Vec<u8>, bytes: &[u8], width: usize)
    ensures
        final(out)@ == old(out)@ + pad_left(bytes@, width as nat),
{
    let mut i: usize = bytes.len();
    while i < width
        invariant
            bytes.len() <= i <= width || (bytes.len() >= width && i == bytes.len()),
            out@ == old(out)@ + Seq::new((i - bytes.len()) as nat, |k: int| 0x20u8),
        decreases width - i,
    {
        out.push(0x20);
        i += 1;
        assert(out@ =~= old(out)@ + Seq::new((i - bytes.len()) as nat, |k: int| 0x20u8));
    }
    push_all(out, bytes);
    assert(out@ =~= old(out)@ + pad_left(bytes@, width as nat));
}

/// Appends `bytes`.
pub fn push_all(out: &mut Vec<u8>, bytes: &[u8])
    ensures
        final(out)@ == old(out)@ + bytes@,
{
    let mut i: usize = 0;
    while i < bytes.len()
        invariant
            i <= bytes.len(),
            out@ == old(out)@ + bytes@.take(i as int),
        decreases bytes.len() - i,
    {
        out.push(bytes[i]);
        i += 1;
        assert(out@ =~= old(out)@ + bytes@.take(i as int));
    }
    assert(bytes@.take(bytes@.len() as int) =~= bytes@);
}

} // verus!
