//! Decoding caller-supplied hex into the payload that is added to the kernel
//! entropy pool.

use vstd::prelude::*;

verus! {

#[verifier::external_type_specification]
#[verifier::external_body]
pub struct ExFromHexError(hex::FromHexError);

/// The largest buffer whose entropy count, in bits, still fits in an `i32`.
pub const MAX_ENTROPY_BYTES: usize = 268435455;

/// Control code that adds a buffer to the pool's entropy accounting.
pub const RNDADDENTROPY: u64 = 0x4008_5203;

/// Control code that forces the pool to reseed from its current entropy.
pub const RNDRESEEDCRNG: u64 = 0x5207;

pub open spec fn is_hex_digit(c: char) -> bool {
    let n = c as u32;
    (48 <= n <= 57) || (97 <= n <= 102) || (65 <= n <= 70)
}

/// The value of a hex digit, either case.
pub open spec fn hex_value(c: char) -> nat {
    let n = c as u32;
    if 48 <= n <= 57 {
        (n - 48) as nat
    } else if 97 <= n <= 102 {
        (n - 87) as nat
    } else {
        (n - 55) as nat
    }
}

/// An even number of hex digits.
pub open spec fn is_hex_text(s: Seq<char>) -> bool {
    s.len() % 2 == 0 && forall|i: int| 0 <= i < s.len() ==> #[trigger] is_hex_digit(s[i])
}

/// The bytes that a hex text denotes: one per pair of digits, high digit first.
pub open spec fn hex_bytes(s: Seq<char>) -> Seq<u8> {
    Seq::new(s.len() / 2, |i: int| (16 * hex_value(s[2 * i]) + hex_value(s[2 * i + 1])) as u8)
}

/// The lower-case digit of a value below 16.
pub open spec fn lower_digit(d: nat) -> char {
    if d < 10 {
        (48 + d) as char
    } else {
        (87 + d) as char
    }
}

/// Lower-case hex text of bytes, two digits per byte.
pub open spec fn hex_text(b: Seq<u8>) -> Seq<char> {
    Seq::new(
        2 * b.len(),
        |i: int|
            if i % 2 == 0 {
                lower_digit((b[i / 2] / 16) as nat)
            } else {
                lower_digit((b[i / 2] % 16) as nat)
            },
    )
}

/// A hex digit folded to lower case; other characters unchanged.
pub open spec fn to_lower_hex(c: char) -> char {
    let n = c as u32;
    if 65 <= n <= 70 {
        (n + 32) as char
    } else {
        c
    }
}

/// What was wrong with a hex text handed in as entropy.
#[derive(Clone, Copy, Debug, PartialEq, Eq)]
pub enum EntropyError {
    /// Odd length, or a character that is no hex digit.
    Decode,
    /// The text decodes to no bytes at all.
    Empty,
    /// The buffer is too long for its entropy count to be expressed.
    TooLarge,
}

/// The kernel-facing record: bits of entropy claimed, buffer size, buffer.
pub struct EntropyPayload {
    pub entropy_count: i32,
    pub buf_size: i32,
    pub buf: Vec<u8>,
}

impl EntropyPayload {
    /// The payload claims eight bits of entropy per byte of its buffer.
    pub open spec fn wf(&self) -> bool {
        &&& self.buf_size as int == self.buf@.len()
        &&& self.entropy_count as int == 8 * self.buf@.len()
        &&& self.buf@.len() > 0
    }
}

/// Which error, if any, a hex text handed in as entropy gives.
pub open spec fn entropy_error(s: Seq<char>) -> Option<EntropyError> {
    if !is_hex_text(s) {
        Some(EntropyError::Decode)
    } else if s.len() == 0 {
        Some(EntropyError::Empty)
    } else if s.len() / 2 > MAX_ENTROPY_BYTES {
        Some(EntropyError::TooLarge)
    } else {
        None
    }
}

/// Relies on hex's `FromHex for Vec<u8>`: an error for an odd length or for a
/// byte outside `0-9`, `a-f`, `A-F`; otherwise one byte per pair of digits,
/// the first digit of a pair giving the high four bits.
#[verifier::external_body]
fn decode_hex(s: &str) -> (r: Result<Vec<u8>, hex::FromHexError>)
    ensures
        r is Ok <==> is_hex_text(s@),
        r matches Ok(b) ==> b@ == hex_bytes(s@),
{
    <Vec<u8> as hex::FromHex>::from_hex(s)
}

/// The control code used to add entropy to the pool.
pub fn rndaddentropy_ioctl_code() -> (r: u64)
    ensures
        r == RNDADDENTROPY,
{
    RNDADDENTROPY
}

/// Decodes `hex_string` and builds the payload that is added to the pool.
pub fn prepare_entropy(hex_string: &str) -> (r: Result<EntropyPayload, EntropyError>)
    ensures
        r is Ok <==> entropy_error(hex_string@) is None,
        r matches Err(e) ==> entropy_error(hex_string@) == Some(e),
        r matches Ok(p) ==> p.wf() && p.buf@ == hex_bytes(hex_string@),
{
    let bytes = match decode_hex(hex_string) {
        Ok(b) => b,
        Err(_) => {
            return Err(EntropyError::Decode);
        },
    };
    if bytes.len() == 0 {
        return Err(EntropyError::Empty);
    }
    if bytes.len() > MAX_ENTROPY_BYTES {
        return Err(EntropyError::TooLarge);
    }
    let n = bytes.len() as i32;
    Ok(EntropyPayload { entropy_count: n * 8, buf_size: n, buf: bytes })
}

/// The four bytes of `x` in two's complement, least significant first.
pub open spec fn le_bytes(x: i32) -> Seq<u8> {
    let u: int = if x >= 0 {
        x as int
    } else {
        x as int + 0x1_0000_0000
    };
    seq![(u % 256) as u8, (u / 256 % 256) as u8, (u / 65536 % 256) as u8, (u / 16777216) as u8]
}

/// `b` holds `x` in one of the two byte orders a host may use.
pub open spec fn encodes_i32(b: Seq<u8>, x: i32) -> bool {
    b == le_bytes(x) || b == le_bytes(x).reverse()
}

/// Relies on `i32::to_ne_bytes`: the value's four bytes in the host's byte
/// order, which is little- or big-endian.
#[verifier::external_body]
fn native_bytes(x: i32) -> (r: [u8; 4])
    ensures
        encodes_i32(r@, x),
{
    x.to_ne_bytes()
}

fn push_all(out: &mut Vec<u8>, b: &[u8])
    ensures
        final(out)@ == old(out)@ + b@,
{
    let mut i: usize = 0;
    while i < b.len()
        invariant
            i <= b@.len(),
            out@ == old(out)@ + b@.subrange(0, i as int),
        decreases b@.len() - i,
    {
        out.push(b[i]);
        i = i + 1;
        assert(out@ =~= old(out)@ + b@.subrange(0, i as int));
    }
    assert(b@.subrange(0, i as int) =~= b@);
}

impl EntropyPayload {
    /// The record handed to the add-entropy control call: the entropy count
    /// and the buffer size as native `int`s, then the buffer itself.
    pub fn kernel_record(&self) -> (r: Vec<u8>)
        ensures
            r@.len() == 8 + self.buf@.len(),
            encodes_i32(r@.subrange(0, 4), self.entropy_count),
            encodes_i32(r@.subrange(4, 8), self.buf_size),
            r@.subrange(8, r@.len() as int) == self.buf@,
    {
        let mut out: Vec<u8> = Vec::new();
        let count = native_bytes(self.entropy_count);
        push_all(&mut out, &count);
        let size = native_bytes(self.buf_size);
        push_all(&mut out, &size);
        push_all(&mut out, self.buf.as_slice());
        assert(out@.subrange(0, 4) =~= count@);
        assert(out@.subrange(4, 8) =~= size@);
        assert(out@.subrange(8, out@.len() as int) =~= self.buf@);
        out
    }
}

proof fn lemma_digit_round_trip(c: char)
    requires
        is_hex_digit(c),
    ensures
        hex_value(c) < 16,
        lower_digit(hex_value(c)) == to_lower_hex(c),
{
}

/// For every non-empty hex text, decoding and encoding again gives the text
/// back, folded to lower case.
pub proof fn lemma_hex_round_trip(h: Seq<char>)
    requires
        is_hex_text(h),
        h.len() > 0,
    ensures
        hex_text(hex_bytes(h)) == h.map_values(|c: char| to_lower_hex(c)),
{
    let b = hex_bytes(h);
    assert forall|i: int| 0 <= i < h.len() implies #[trigger] hex_text(b)[i] == to_lower_hex(
        h[i],
    ) by {
        let k = i / 2;
        assert(0 <= 2 * k && 2 * k + 1 < h.len());
        assert(is_hex_digit(h[2 * k]));
        assert(is_hex_digit(h[2 * k + 1]));
        lemma_digit_round_trip(h[2 * k]);
        lemma_digit_round_trip(h[2 * k + 1]);
        let hi = hex_value(h[2 * k]);
        let lo = hex_value(h[2 * k + 1]);
        assert(b[k] as nat == 16 * hi + lo);
        assert((16 * hi + lo) / 16 == hi && (16 * hi + lo) % 16 == lo) by (nonlinear_arith)
            requires
                hi < 16,
                lo < 16,
        ;
    }
    assert(hex_text(b) =~= h.map_values(|c: char| to_lower_hex(c)));
}

} // verus!
