use vstd::prelude::*;
use vstd::string::StringSliceAdditionalSpecFns;

verus! {

/// The decimal digits of `n`, most significant first, as ASCII bytes.
pub open spec fn decimal(n: nat) -> Seq<u8>
    decreases n,
{
    if n < 10 {
        seq![(48 + n) as u8]
    } else {
        decimal(n / 10).push((48 + n % 10) as u8)
    }
}

/// `n` ASCII spaces.
pub open spec fn spaces(n: nat) -> Seq<u8> {
    Seq::new(n, |_i: int| 32u8)
}

/// The UTF-8 bytes of a string literal.
pub open spec fn lit(s: &str) -> Seq<u8> {
    s.spec_bytes()
}

/// Appends the UTF-8 bytes of `s`.
pub fn push_str(buf: &mut Vec<u8>, s: &str)
    ensures
        final(buf)@ == old(buf)@ + lit(s),
{
    let bytes = s.as_bytes();
    push_slice(buf, bytes, 0, bytes.len());
    assert(bytes@.subrange(0, bytes@.len() as int) =~= bytes@);
}

/// Appends `src[from..to]`.
pub fn push_slice(buf: &mut Vec<u8>, src: &[u8], from: usize, to: usize)
    requires
        from <= to <= src@.len(),
    ensures
        final(buf)@ == old(buf)@ + src@.subrange(from as int, to as int),
{
    let ghost start = buf@;
    let mut i = from;
    while i < to
        invariant
            from <= i <= to,
            to <= src@.len(),
            buf@ == start + src@.subrange(from as int, i as int),
        decreases to - i,
    {
        assert(src@.subrange(from as int, i + 1) =~= src@.subrange(from as int, i as int).push(
            src@[i as int],
        ));
        buf.push(src[i]);
        i = i + 1;
    }
}

/// Appends `n` spaces.
pub fn push_spaces(buf: &mut Vec<u8>, n: usize)
    ensures
        final(buf)@ == old(buf)@ + spaces(n as nat),
{
    let ghost start = buf@;
    for i in 0..n
        invariant
            buf@ == start + spaces(i as nat),
    {
        assert(spaces((i + 1) as nat) =~= spaces(i as nat).push(32u8));
        buf.push(32);
    }
}

/// Appends the decimal digits of `n`.
pub fn push_decimal(buf: &mut Vec<u8>, n: usize)
    ensures
        final(buf)@ == old(buf)@ + decimal(n as nat),
    decreases n,
{
    if n >= 10 {
        push_decimal(buf, n / 10);
    }
    let d: u8 = (n % 10) as u8;
    buf.push(48 + d);
    assert(n < 10 ==> decimal(n as nat) =~= seq![(48 + n) as u8]);
}

} // verus!
