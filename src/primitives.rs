//! Fixed-size byte values: digests, public keys and signatures.

use vstd::prelude::*;
use vstd::string::StrSliceExecFns;

verus! {

/// Equality of two 32-byte arrays, byte by byte.
fn bytes32_equal(a: &[u8; 32], b: &[u8; 32]) -> (r: bool)
    ensures
        r == (*a == *b),
{
    let mut i: usize = 0;
    while i < 32
        invariant
            i <= 32,
            forall|j: int| 0 <= j < i ==> a[j] == b[j],
        decreases 32 - i,
    {
        if a[i] != b[i] {
            return false;
        }
        i += 1;
    }
    assert(*a =~= *b);
    true
}

/// The value of a hexadecimal digit, either case.
pub open spec fn hex_digit(c: char) -> Option<u8> {
    if '0' <= c && c <= '9' {
        Some((c as u32 - '0' as u32) as u8)
    } else if 'a' <= c && c <= 'f' {
        Some((c as u32 - 'a' as u32 + 10) as u8)
    } else if 'A' <= c && c <= 'F' {
        Some((c as u32 - 'A' as u32 + 10) as u8)
    } else {
        None
    }
}

/// Whether `s` is 64 hexadecimal digits.
pub open spec fn is_hex32(s: Seq<char>) -> bool {
    s.len() == 64 && forall|i: int| 0 <= i < 64 ==> (#[trigger] hex_digit(s[i])) is Some
}

/// The byte that the digits at `2 * i` and `2 * i + 1` of `s` spell.
pub open spec fn hex_byte(s: Seq<char>, i: int) -> u8 {
    (hex_digit(s[2 * i])->0 * 16 + hex_digit(s[2 * i + 1])->0) as u8
}

fn digit_value(c: char) -> (r: Option<u8>)
    ensures
        r == hex_digit(c),
{
    if '0' <= c && c <= '9' {
        Some((c as u32 - '0' as u32) as u8)
    } else if 'a' <= c && c <= 'f' {
        Some((c as u32 - 'a' as u32 + 10) as u8)
    } else if 'A' <= c && c <= 'F' {
        Some((c as u32 - 'A' as u32 + 10) as u8)
    } else {
        None
    }
}

/// The 32 bytes that 64 hexadecimal digits spell, high digit first; `None`
/// for any other text.
pub fn decode_hex32(s: &str) -> (r: Option<[u8; 32]>)
    ensures
        r is Some <==> is_hex32(s@),
        r matches Some(b) ==> forall|i: int| 0 <= i < 32 ==> b[i] == #[trigger] hex_byte(s@, i),
{
    if s.unicode_len() != 64 {
        return None;
    }
    let mut out: [u8; 32] = [0u8; 32];
    let mut i: usize = 0;
    while i < 32
        invariant
            s@.len() == 64,
            i <= 32,
            forall|j: int| 0 <= j < 2 * i ==> (#[trigger] hex_digit(s@[j])) is Some,
            forall|j: int| 0 <= j < i ==> out[j] == #[trigger] hex_byte(s@, j),
        decreases 32 - i,
    {
        let hi = match digit_value(s.get_char(2 * i)) {
            Some(d) => d,
            None => {
                return None;
            },
        };
        let lo = match digit_value(s.get_char(2 * i + 1)) {
            Some(d) => d,
            None => {
                return None;
            },
        };
        out[i] = hi * 16 + lo;
        i += 1;
    }
    Some(out)
}

/// A 32-byte digest, such as the hash of a configuration payload.
#[derive(Clone, Copy, Debug)]
pub struct Digest {
    pub bytes: [u8; 32],
}

impl Digest {
    pub fn new(bytes: [u8; 32]) -> (r: Digest)
        ensures
            r.bytes == bytes,
    {
        Digest { bytes }
    }

    /// The digest that 64 hexadecimal digits spell.
    pub fn from_hex(s: &str) -> (r: Option<Digest>)
        ensures
            r is Some <==> is_hex32(s@),
            r matches Some(d) ==> forall|i: int| 0 <= i < 32 ==> d.bytes[i] == #[trigger] hex_byte(s@, i),
    {
        match decode_hex32(s) {
            Some(bytes) => Some(Digest { bytes }),
            None => None,
        }
    }
}

impl PartialEq for Digest {
    fn eq(&self, o: &Digest) -> (r: bool) {
        bytes32_equal(&self.bytes, &o.bytes)
    }
}

impl vstd::std_specs::cmp::PartialEqSpecImpl for Digest {
    open spec fn obeys_eq_spec() -> bool {
        true
    }

    open spec fn eq_spec(&self, o: &Digest) -> bool {
        *self == *o
    }
}

/// A 32-byte public key that authenticates a validator.
#[derive(Clone, Copy, Debug)]
pub struct PublicKey {
    pub bytes: [u8; 32],
}

impl PublicKey {
    pub fn new(bytes: [u8; 32]) -> (r: PublicKey)
        ensures
            r.bytes == bytes,
    {
        PublicKey { bytes }
    }

    /// The key that 64 hexadecimal digits spell.
    pub fn from_hex(s: &str) -> (r: Option<PublicKey>)
        ensures
            r is Some <==> is_hex32(s@),
            r matches Some(k) ==> forall|i: int| 0 <= i < 32 ==> k.bytes[i] == #[trigger] hex_byte(s@, i),
    {
        match decode_hex32(s) {
            Some(bytes) => Some(PublicKey { bytes }),
            None => None,
        }
    }
}

impl PartialEq for PublicKey {
    fn eq(&self, o: &PublicKey) -> (r: bool) {
        bytes32_equal(&self.bytes, &o.bytes)
    }
}

impl vstd::std_specs::cmp::PartialEqSpecImpl for PublicKey {
    open spec fn obeys_eq_spec() -> bool {
        true
    }

    open spec fn eq_spec(&self, o: &PublicKey) -> bool {
        *self == *o
    }
}

/// A 64-byte signature over a transaction message.
#[derive(Clone, Copy, Debug)]
pub struct Signature {
    pub bytes: [u8; 64],
}

impl Signature {
    pub fn new(bytes: [u8; 64]) -> (r: Signature)
        ensures
            r.bytes == bytes,
    {
        Signature { bytes }
    }
}

} // verus!
