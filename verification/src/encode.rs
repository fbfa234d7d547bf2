use vstd::prelude::*;

verus! {

/// Unsigned LEB128: seven payload bits per byte, least significant first; the
/// high bit of a byte is set exactly when another byte follows.
pub open spec fn uleb(n: nat) -> Seq<u8>
    decreases n,
{
    if n < 128 {
        seq![n as u8]
    } else {
        seq![(n % 128 + 128) as u8] + uleb(n / 128)
    }
}

/// Signed LEB128 of a non-negative value: like the unsigned form, but a byte
/// whose bit 6 is set would read back negative, so encoding stops only once the
/// remaining value fits in six bits.
pub open spec fn sleb(n: int) -> Seq<u8>
    recommends
        0 <= n,
    decreases n,
{
    if n < 64 {
        seq![n as u8]
    } else {
        seq![(n % 128 + 128) as u8] + sleb(n / 128)
    }
}

/// Append the unsigned LEB128 encoding of `n`.
pub fn push_uleb(out: &mut Vec<u8>, n: u64)
    ensures
        final(out)@ == old(out)@ + uleb(n as nat),
    decreases n,
{
    if n < 128 {
        out.push(n as u8);
        assert(out@ =~= old(out)@ + uleb(n as nat));
    } else {
        out.push((n % 128 + 128) as u8);
        push_uleb(out, n / 128);
        assert(out@ =~= old(out)@ + uleb(n as nat));
    }
}

/// Append the signed LEB128 encoding of a non-negative `n`.
pub fn push_sleb(out: &mut Vec<u8>, n: u64)
    ensures
        final(out)@ == old(out)@ + sleb(n as int),
    decreases n,
{
    if n < 64 {
        out.push(n as u8);
        assert(out@ =~= old(out)@ + sleb(n as int));
    } else {
        out.push((n % 128 + 128) as u8);
        push_sleb(out, n / 128);
        assert(out@ =~= old(out)@ + sleb(n as int));
    }
}

} // verus!
