use vstd::prelude::*;

verus! {

/// The number that a byte sequence denotes when read little-endian.
pub open spec fn le_value(b: Seq<u8>) -> nat
    decreases b.len(),
{
    if b.len() == 0 {
        0
    } else {
        b[0] as nat + 256 * le_value(b.drop_first())
    }
}

/// The ASCII digit of a value below ten.
pub open spec fn digit_char(d: nat) -> char {
    ((d + 48) as u8) as char
}

/// The decimal notation of a number: no sign, no leading zeros, "0" for zero.
pub open spec fn decimal_digits(n: nat) -> Seq<char>
    decreases n,
{
    if n < 10 {
        seq![digit_char(n)]
    } else {
        decimal_digits(n / 10).push(digit_char(n % 10))
    }
}

/// The 256-bit identifier of an on-chain decryption request, held as its
/// little-endian fixed-width encoding, which is also how it is stored.
#[derive(Clone, Copy, Debug, PartialEq, Eq)]
pub struct DecryptionId {
    pub le_bytes: [u8; 32],
}

impl DecryptionId {
    /// The identifier as a number.
    pub open spec fn value(&self) -> nat {
        le_value(self.le_bytes@)
    }

    pub fn from_le_bytes(le_bytes: [u8; 32]) -> (r: DecryptionId)
        ensures
            r.le_bytes@ == le_bytes@,
    {
        DecryptionId { le_bytes }
    }

    /// The little-endian encoding, as written to a row.
    pub fn to_le_vec(&self) -> (r: Vec<u8>)
        ensures
            r@ == self.le_bytes@,
            r@.len() == 32,
    {
        let mut v: Vec<u8> = Vec::new();
        let mut i: usize = 0;
        while i < 32
            invariant
                i <= 32,
                v@ == self.le_bytes@.subrange(0, i as int),
            decreases 32 - i,
        {
            v.push(self.le_bytes[i]);
            i += 1;
        }
        assert(v@ == self.le_bytes@);
        v
    }

    /// Reads an identifier back from its little-endian encoding; `None`
    /// unless there are exactly 32 bytes.
    pub fn from_le_slice(b: &[u8]) -> (r: Option<DecryptionId>)
        ensures
            b@.len() == 32 <==> r is Some,
            r matches Some(id) ==> id.le_bytes@ == b@,
    {
        if b.len() != 32 {
            return None;
        }
        let mut a: [u8; 32] = [0u8; 32];
        let mut i: usize = 0;
        while i < 32
            invariant
                i <= 32,
                b@.len() == 32,
                a@.len() == 32,
                forall|j: int| 0 <= j < i ==> a@[j] == b@[j],
            decreases 32 - i,
        {
            a[i] = b[i];
            i += 1;
        }
        assert(a@ == b@);
        Some(DecryptionId { le_bytes: a })
    }

    /// Whether two identifiers are the same number.
    pub fn equals(&self, other: &DecryptionId) -> (r: bool)
        ensures
            r == (self.le_bytes@ == other.le_bytes@),
    {
        let mut i: usize = 0;
        while i < 32
            invariant
                i <= 32,
                forall|j: int| 0 <= j < i ==> self.le_bytes@[j] == other.le_bytes@[j],
            decreases 32 - i,
        {
            if self.le_bytes[i] != other.le_bytes[i] {
                return false;
            }
            i += 1;
        }
        assert(self.le_bytes@ == other.le_bytes@);
        true
    }

    /// The identifier in decimal.
    pub fn to_decimal(&self) -> (r: String)
        ensures
            r@ == decimal_digits(self.value()),
    {
        le_decimal(self.le_bytes)
    }
}

/// Relies on alloy's `U256::from_le_bytes`, which reads the 32 bytes as a
/// little-endian number, and on its `Display`, which writes that number in
/// decimal.
#[verifier::external_body]
fn le_decimal(le_bytes: [u8; 32]) -> (r: String)
    ensures
        r@ == decimal_digits(le_value(le_bytes@)),
{
    alloy::primitives::U256::from_le_bytes(le_bytes).to_string()
}

} // verus!
