use vstd::prelude::*;
use vstd::string::StringSliceAdditionalSpecFns;

verus! {

/// The ASCII decimal digits of `n`, most significant first.
pub open spec fn decimal_digits(n: nat) -> Seq<u8>
    decreases n,
{
    if n < 10 {
        seq![(48 + n) as u8]
    } else {
        decimal_digits(n / 10).push((48 + n % 10) as u8)
    }
}

/// A `u16` has at most five decimal digits.
pub proof fn lemma_decimal_digits_len(n: nat)
    requires
        n <= u16::MAX,
    ensures
        1 <= decimal_digits(n).len() <= 5,
{
    reveal_with_fuel(decimal_digits, 5);
}

/// Fails to compile unless the output channel count is the sum of the two
/// input channel counts.
pub fn assert_channel_counts<const OUT: u16, const IN1: u16, const IN2: u16>()
    requires
        IN1 + IN2 == OUT,
{
}

/// Writes the decimal digits of `n` at the start of `slice` and returns how
/// many it wrote.
pub fn write_number(slice: &mut [u8], n: u16) -> (r: usize)
    requires
        n > 0,
        old(slice)@.len() >= decimal_digits(n as nat).len(),
    ensures
        r == decimal_digits(n as nat).len(),
        final(slice)@.len() == old(slice)@.len(),
        final(slice)@.take(r as int) == decimal_digits(n as nat),
        final(slice)@.skip(r as int) == old(slice)@.skip(r as int),
{
    let ghost all = decimal_digits(n as nat);
    proof {
        lemma_decimal_digits_len(n as nat);
    }
    let mut digits: usize = 1;
    let mut m = n;
    while m >= 10
        invariant
            m > 0,
            1 <= digits,
            digits + decimal_digits(m as nat).len() - 1 == all.len(),
            all == decimal_digits(n as nat),
            all.len() <= 5,
        decreases m,
    {
        m = m / 10;
        digits = digits + 1;
    }
    let mut n = n;
    let mut i = digits;
    let ghost initial = slice@;
    assert(all.take(digits as int) =~= all);
    while i > 0
        invariant
            i <= digits,
            digits == all.len(),
            i > 0 ==> n > 0 && decimal_digits(n as nat) == all.take(i as int),
            i > 0 ==> decimal_digits(n as nat).len() == i,
            slice@.len() == initial.len(),
            initial.len() >= digits,
            slice@.subrange(i as int, digits as int) == all.subrange(i as int, digits as int),
            slice@.skip(digits as int) == initial.skip(digits as int),
        decreases i,
    {
        i = i - 1;
        let ghost before = slice@;
        let ghost d = decimal_digits(n as nat);
        assert(all[i as int] == (48 + n % 10) as u8) by {
            assert(all[i as int] == all.take(i + 1)[i as int]);
            assert(d[i as int] == d.last());
        }
        slice[i] = (n % 10) as u8 + 48;
        assert(slice@.subrange(i as int, digits as int) =~= all.subrange(i as int, digits as int)) by {
            assert(forall|j: int| i < j < digits ==> slice@[j] == before[j]);
            assert(forall|j: int|
                i < j < digits ==> before[j] == before.subrange(i + 1, digits as int)[j - i - 1]);
        }
        assert(slice@.skip(digits as int) =~= before.skip(digits as int));
        if n >= 10 {
            assert(decimal_digits((n / 10) as nat) =~= d.drop_last());
            assert(d.drop_last() =~= all.take(i as int));
        }
        n = n / 10;
    }
    assert(slice@.take(digits as int) =~= all);
    digits
}

/// The message that explains why two inputs with `IN1` and `IN2` channels
/// do not make an output with `OUT` channels, as bytes.
pub open spec fn mismatch_message(out: nat, in1: nat, in2: nat) -> Seq<u8> {
    "Wrong output channel count (".spec_bytes() + decimal_digits(out)
        + "). Output must be the sum of the inputs (".spec_bytes() + decimal_digits(in1)
        + ", ".spec_bytes() + decimal_digits(in2) + ")".spec_bytes()
}

/// Appends the first `len` bytes of `buffer` to `out`.
fn push_prefix(out: &mut Vec<u8>, buffer: &[u8], len: usize)
    requires
        len <= buffer@.len(),
    ensures
        final(out)@ == old(out)@ + buffer@.take(len as int),
{
    let mut i: usize = 0;
    while i < len
        invariant
            i <= len,
            len <= buffer@.len(),
            out@ == old(out)@ + buffer@.take(i as int),
        decreases len - i,
    {
        out.push(buffer[i]);
        assert(buffer@.take(i + 1) =~= buffer@.take(i as int).push(buffer@[i as int]));
        i = i + 1;
    }
}

/// Appends the decimal digits of `n` to `out`.
fn push_number(out: &mut Vec<u8>, n: u16)
    requires
        n > 0,
    ensures
        final(out)@ == old(out)@ + decimal_digits(n as nat),
{
    proof {
        lemma_decimal_digits_len(n as nat);
    }
    let mut buffer = [0u8; 5];
    let used = write_number(&mut buffer, n);
    push_prefix(out, &buffer, used);
}

/// Appends the bytes of `s` to `out`.
fn push_str(out: &mut Vec<u8>, s: &str)
    ensures
        final(out)@ == old(out)@ + s.spec_bytes(),
{
    let bytes = s.as_bytes();
    push_prefix(out, bytes, bytes.len());
    assert(bytes@.take(bytes@.len() as int) =~= bytes@);
}

/// The message of a failed `assert_channel_counts`, as bytes. The message
/// has room for at most eight digits in all.
pub fn channel_count_mismatch<const OUT: u16, const IN1: u16, const IN2: u16>() -> (r: Vec<u8>)
    requires
        OUT > 0,
        IN1 > 0,
        IN2 > 0,
        decimal_digits(OUT as nat).len() + decimal_digits(IN1 as nat).len() + decimal_digits(
            IN2 as nat,
        ).len() <= 8,
    ensures
        r@ == mismatch_message(OUT as nat, IN1 as nat, IN2 as nat),
{
    let mut message: Vec<u8> = Vec::new();
    push_str(&mut message, "Wrong output channel count (");
    push_number(&mut message, OUT);
    push_str(&mut message, "). Output must be the sum of the inputs (");
    push_number(&mut message, IN1);
    push_str(&mut message, ", ");
    push_number(&mut message, IN2);
    push_str(&mut message, ")");
    assert(message@ =~= mismatch_message(OUT as nat, IN1 as nat, IN2 as nat));
    message
}

} // verus!
