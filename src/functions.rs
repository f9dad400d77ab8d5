use vstd::prelude::*;
use vstd::utf8::encode_utf8;

verus! {

/// Diagnostic of a guest function handed arguments of the wrong shape.
pub const INVALID_ARGUMENTS: &'static str = "Invalid arguments";

/// What `prepend_hello` puts before its argument bytes.
pub const HELLO_PREFIX: &'static str = "hello ";

/// What a guest function hands back in the model: the output bytes, or the
/// diagnostic it aborted with.
pub open spec fn result_view(r: Result<Vec<u8>, String>) -> Result<Seq<u8>, Seq<char>> {
    match r {
        Ok(v) => Ok(v@),
        Err(m) => Err(m@),
    }
}

/// The abort of a guest function that rejects its arguments.
pub open spec fn invalid_arguments() -> Result<Seq<u8>, Seq<char>> {
    Err(INVALID_ARGUMENTS@)
}

/// `s` back to front.
pub open spec fn reversed(s: Seq<u8>) -> Seq<u8> {
    Seq::new(s.len(), |i: int| s[s.len() - 1 - i])
}

/// The largest byte of `s`, or 0 for the empty sequence.
pub open spec fn max_byte(s: Seq<u8>) -> u8
    decreases s.len(),
{
    if s.len() == 0 {
        0
    } else if max_byte(s.drop_last()) >= s.last() {
        max_byte(s.drop_last())
    } else {
        s.last()
    }
}

/// The integer that four bytes encode, least significant first.
pub open spec fn le_u32(s: Seq<u8>) -> int {
    s[0] + 256 * s[1] + 65536 * s[2] + 16777216 * s[3]
}

/// The four bytes of `v`, least significant first.
pub open spec fn le_bytes_u32(v: u32) -> Seq<u8> {
    seq![
        (v % 256) as u8,
        ((v / 256) % 256) as u8,
        ((v / 65536) % 256) as u8,
        (v / 16777216) as u8,
    ]
}

/// The pair `(a, b)` after `n` steps of `(a, b) -> (b, a + b)` from `(0, 1)`,
/// with additions that wrap at 2^32.
pub open spec fn fib_state(n: nat) -> (u32, u32)
    decreases n,
{
    if n == 0 {
        (0, 1)
    } else {
        let (a, b) = fib_state((n - 1) as nat);
        (b, ((a + b) % 0x1_0000_0000) as u32)
    }
}

/// The term that `fibonacci` reports for `n`: `b` after `n` steps.
pub open spec fn fib_term(n: nat) -> u32 {
    fib_state(n).1
}

/// What `fibonacci` gives on `args`.
pub open spec fn fibonacci_spec(args: Seq<u8>) -> Result<Seq<u8>, Seq<char>> {
    if args.len() != 4 {
        invalid_arguments()
    } else {
        Ok(le_bytes_u32(fib_term(le_u32(args) as nat)))
    }
}

/// What `add` gives on `args`: two bytes summed, wrapping at 256.
pub open spec fn add_spec(args: Seq<u8>) -> Result<Seq<u8>, Seq<char>> {
    if args.len() != 2 {
        invalid_arguments()
    } else {
        Ok(seq![((args[0] + args[1]) % 256) as u8])
    }
}

/// What `sub` gives on `args`: the second byte taken from the first,
/// wrapping at 256.
pub open spec fn sub_spec(args: Seq<u8>) -> Result<Seq<u8>, Seq<char>> {
    if args.len() != 2 {
        invalid_arguments()
    } else {
        Ok(seq![((args[0] - args[1]) % 256) as u8])
    }
}

/// What `prepend_hello` gives on `args`.
pub open spec fn prepend_hello_spec(args: Seq<u8>) -> Result<Seq<u8>, Seq<char>> {
    Ok(encode_utf8(HELLO_PREFIX@) + args)
}

/// Reads a `u32` from four bytes, least significant first.
pub fn u32_from_le(b: &[u8]) -> (r: u32)
    requires
        b@.len() == 4,
    ensures
        r == le_u32(b@),
{
    let b0: u32 = b[0] as u32;
    let b1: u32 = b[1] as u32;
    let b2: u32 = b[2] as u32;
    let b3: u32 = b[3] as u32;
    assert(b0 + 256 * b1 + 65536 * b2 + 16777216 * b3 <= 0xffff_ffff) by (nonlinear_arith)
        requires
            b0 <= 255,
            b1 <= 255,
            b2 <= 255,
            b3 <= 255,
    ;
    b0 + 256 * b1 + 65536 * b2 + 16777216 * b3
}

/// The four bytes of `v`, least significant first.
pub fn u32_to_le(v: u32) -> (r: Vec<u8>)
    ensures
        r@ == le_bytes_u32(v),
{
    let mut r: Vec<u8> = Vec::with_capacity(4);
    r.push((v % 256) as u8);
    r.push(((v / 256) % 256) as u8);
    r.push(((v / 65536) % 256) as u8);
    r.push((v / 16777216) as u8);
    assert(r@ =~= le_bytes_u32(v));
    r
}

/// The argument bytes in reverse order.
pub fn array_reverse(args: &[u8]) -> (r: Vec<u8>)
    ensures
        r@ == reversed(args@),
{
    let mut res: Vec<u8> = Vec::with_capacity(args.len());
    let mut i: usize = args.len();
    while i > 0
        invariant
            i <= args@.len(),
            res@ =~= reversed(args@).subrange(0, args@.len() - i),
        decreases i,
    {
        i = i - 1;
        res.push(args[i]);
    }
    assert(res@ =~= reversed(args@));
    res
}

/// The term of the Fibonacci-like sequence named by a four-byte index, least
/// significant byte first, as four bytes in the same order. Additions wrap
/// at 2^32. Any other number of argument bytes is refused.
pub fn fibonacci(args: &[u8]) -> (r: Result<Vec<u8>, String>)
    ensures
        result_view(r) == fibonacci_spec(args@),
{
    if args.len() != 4 {
        return Err(INVALID_ARGUMENTS.to_owned());
    }
    let val: u32 = u32_from_le(args);
    let mut a: u32 = 0;
    let mut b: u32 = 1;
    let mut i: u32 = 0;
    while i < val
        invariant
            i <= val,
            (a, b) == fib_state(i as nat),
        decreases val - i,
    {
        let c: u32 = a.wrapping_add(b);
        a = b;
        b = c;
        i = i + 1;
    }
    Ok(u32_to_le(b))
}

/// The largest argument byte, as a single byte; 0 when there are none.
pub fn find_max(args: &[u8]) -> (r: Vec<u8>)
    ensures
        r@ == seq![max_byte(args@)],
{
    let mut max: u8 = 0;
    let mut i: usize = 0;
    while i < args.len()
        invariant
            i <= args@.len(),
            max == max_byte(args@.subrange(0, i as int)),
        decreases args@.len() - i,
    {
        assert(args@.subrange(0, i + 1).drop_last() =~= args@.subrange(0, i as int));
        if args[i] > max {
            max = args[i];
        }
        i = i + 1;
    }
    assert(args@.subrange(0, args@.len() as int) =~= args@);
    let mut r: Vec<u8> = Vec::with_capacity(1);
    r.push(max);
    assert(r@ =~= seq![max_byte(args@)]);
    r
}

/// The sum of two argument bytes, wrapping at 256, as one byte. Any other
/// number of argument bytes is refused.
pub fn add(args: &[u8]) -> (r: Result<Vec<u8>, String>)
    ensures
        result_view(r) == add_spec(args@),
{
    if args.len() != 2 {
        return Err(INVALID_ARGUMENTS.to_owned());
    }
    let mut r: Vec<u8> = Vec::with_capacity(1);
    r.push(args[0].wrapping_add(args[1]));
    assert(r@ =~= seq![((args@[0] + args@[1]) % 256) as u8]);
    Ok(r)
}

/// The second argument byte taken from the first, wrapping at 256, as one
/// byte: `[2, 3]` gives `[255]`. Any other number of argument bytes is
/// refused.
pub fn sub(args: &[u8]) -> (r: Result<Vec<u8>, String>)
    ensures
        result_view(r) == sub_spec(args@),
{
    if args.len() != 2 {
        return Err(INVALID_ARGUMENTS.to_owned());
    }
    let mut r: Vec<u8> = Vec::with_capacity(1);
    r.push(args[0].wrapping_sub(args[1]));
    assert(r@ =~= seq![((args@[0] - args@[1]) % 256) as u8]);
    Ok(r)
}

/// The argument bytes with `"hello "` in front of them.
pub fn prepend_hello(args: &[u8]) -> (r: Result<Vec<u8>, String>)
    ensures
        result_view(r) == prepend_hello_spec(args@),
{
    let mut r: Vec<u8> = vstd::slice::slice_to_vec(HELLO_PREFIX.as_bytes());
    let mut i: usize = 0;
    let ghost prefix = r@;
    while i < args.len()
        invariant
            i <= args@.len(),
            r@ =~= prefix + args@.subrange(0, i as int),
        decreases args@.len() - i,
    {
        r.push(args[i]);
        i = i + 1;
    }
    assert(args@.subrange(0, args@.len() as int) =~= args@);
    Ok(r)
}

} // verus!
