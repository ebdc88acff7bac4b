use vstd::prelude::*;
use vstd::arithmetic::div_mod::lemma_div_denominator;

verus! {

/// An identifier of 128 bits, held as the integer that its sixteen bytes spell, most
/// significant byte first.
#[derive(Debug, Clone, Copy, Hash, PartialEq, Eq, Structural)]
pub struct UUID(pub u128);

/// Why sixteen bytes could not be read as an identifier.
#[derive(Debug, Clone, Copy, PartialEq, Eq, Structural)]
pub enum UuidError {
    /// The slice does not hold exactly sixteen bytes.
    InvalidLength,
}

/// The number of bytes of an identifier.
pub const UUID_BYTES: usize = 16;

/// The integer that a sequence of bytes spells when read most significant byte first.
pub open spec fn be_value(bytes: Seq<u8>) -> nat
    decreases bytes.len(),
{
    if bytes.len() == 0 {
        0
    } else {
        be_value(bytes.drop_last()) * 256 + bytes.last() as nat
    }
}

/// 256 raised to the given exponent.
pub open spec fn pow256(exponent: nat) -> nat
    decreases exponent,
{
    if exponent == 0 {
        1
    } else {
        256 * pow256((exponent - 1) as nat)
    }
}

/// The version field of an identifier: its bits 76 to 79.
pub open spec fn version_bits(value: u128) -> u128 {
    (value >> 76) & 0xf
}

/// The variant field of an identifier: its bits 62 and 63.
pub open spec fn variant_bits(value: u128) -> u128 {
    (value >> 62) & 0x3
}

/// `uuid::Uuid::now_v7`, read as an integer with `uuid::Uuid::as_u128`. The value depends on
/// the clock and on random bits; the contract states only the two fields that the crate sets
/// on every identifier of version 7: the version, 7, and the variant of RFC 9562, binary 10.
/// The crate panics where the clock of the machine stands before 1970, and where the system
/// hands out no random bytes.
#[verifier::external_body]
fn now_v7() -> (value: u128)
    ensures
        version_bits(value) == 7,
        variant_bits(value) == 2,
{
    ::uuid::Uuid::now_v7().as_u128()
}

impl UUID {
    /// The version of the identifier, 0 to 15.
    pub open spec fn spec_version(self) -> u128 {
        version_bits(self.0)
    }

    /// Whether the identifier says of itself that it is of version 7 and of the variant of
    /// RFC 9562.
    pub open spec fn is_time_ordered(self) -> bool {
        version_bits(self.0) == 7 && variant_bits(self.0) == 2
    }

    /// A fresh time-ordered identifier, of version 7.
    pub fn random() -> (id: Self)
        ensures
            id.is_time_ordered(),
    {
        Self(now_v7())
    }

    /// The version of the identifier.
    pub fn version(&self) -> (v: u8)
        ensures
            v as u128 == self.spec_version(),
            v < 16,
    {
        let value: u128 = self.0;
        let field: u128 = (value >> 76) & 0xf;
        assert(field < 16) by (bit_vector)
            requires
                field == (value >> 76) & 0xfu128,
        ;
        field as u8
    }

    /// Reads an identifier from its sixteen bytes, most significant first. Any other number of
    /// bytes is refused.
    pub fn from_slice(bytes: &[u8]) -> (r: Result<Self, UuidError>)
        ensures
            bytes@.len() == 16 ==> r == Ok::<Self, UuidError>(UUID(be_value(bytes@) as u128)),
            bytes@.len() == 16 ==> be_value(bytes@) <= u128::MAX,
            bytes@.len() != 16 ==> r == Err::<Self, UuidError>(UuidError::InvalidLength),
    {
        if bytes.len() != UUID_BYTES {
            return Err(UuidError::InvalidLength);
        }
        let mut value: u128 = 0;
        let mut i: usize = 0;
        proof {
            reveal_with_fuel(pow256, 17);
            assert(pow256(16) == 0x1_0000_0000_0000_0000_0000_0000_0000_0000);
            assert(bytes@.subrange(0, 0) =~= Seq::<u8>::empty());
        }
        while i < 16
            invariant
                bytes@.len() == 16,
                i <= 16,
                value == be_value(bytes@.subrange(0, i as int)),
                value < pow256(i as nat),
                pow256(16) == 0x1_0000_0000_0000_0000_0000_0000_0000_0000,
            decreases 16 - i,
        {
            let byte: u8 = bytes[i];
            proof {
                let next = bytes@.subrange(0, i + 1);
                assert(next.drop_last() =~= bytes@.subrange(0, i as int));
                assert(next.last() == byte);
                lemma_pow256_monotonic((i + 1) as nat, 16);
            }
            value = value * 256 + byte as u128;
            i = i + 1;
        }
        proof {
            assert(bytes@.subrange(0, 16) =~= bytes@);
        }
        Ok(UUID(value))
    }

    /// Writes the identifier as its sixteen bytes, most significant first.
    pub fn to_bytes(&self) -> (bytes: Vec<u8>)
        ensures
            bytes@.len() == 16,
            be_value(bytes@) == self.0,
    {
        let value: u128 = self.0;
        let mut bytes: Vec<u8> = Vec::new();
        let mut divisor: u128 = 0x100_0000_0000_0000_0000_0000_0000_0000;
        let mut i: usize = 0;
        proof {
            reveal_with_fuel(pow256, 17);
            assert(pow256(15) == 0x100_0000_0000_0000_0000_0000_0000_0000);
            assert(pow256(16) == 0x1_0000_0000_0000_0000_0000_0000_0000_0000);
            assert(value as nat / pow256(16) == 0);
        }
        while i < 16
            invariant
                i <= 16,
                value == self.0,
                bytes@.len() == i,
                i < 16 ==> divisor == pow256((15 - i) as nat),
                be_value(bytes@) == value as nat / pow256((16 - i) as nat),
            decreases 16 - i,
        {
            proof {
                lemma_pow256_monotonic((15 - i) as nat, 15);
                lemma_div_denominator(value as int, divisor as int, 256);
                assert(pow256((16 - i) as nat) == 256 * pow256((15 - i) as nat));
            }
            let quotient: u128 = value / divisor;
            let byte: u8 = (quotient % 256) as u8;
            proof {
                let next = bytes@.push(byte);
                assert(next.drop_last() =~= bytes@);
                assert(next.last() == byte);
                assert(be_value(next) == (quotient / 256) * 256 + quotient % 256);
                assert(pow256((16 - (i + 1)) as nat) == divisor);
            }
            bytes.push(byte);
            if i < 15 {
                proof {
                    assert(pow256((15 - i) as nat) == 256 * pow256((14 - i) as nat));
                }
                divisor = divisor / 256;
            }
            i = i + 1;
        }
        proof {
            assert(pow256((16 - i) as nat) == 1);
            assert(value as nat / 1 == value as nat);
        }
        bytes
    }
}

/// What was written as bytes is read back as the identifier it was.
pub proof fn lemma_bytes_roundtrip(id: UUID, bytes: Seq<u8>)
    requires
        bytes.len() == 16,
        be_value(bytes) == id.0,
    ensures
        UUID(be_value(bytes) as u128) == id,
{
}

/// 256 to a smaller exponent is at most 256 to a larger one.
pub proof fn lemma_pow256_monotonic(low: nat, high: nat)
    requires
        low <= high,
    ensures
        pow256(low) <= pow256(high),
        pow256(low) >= 1,
    decreases high,
{
    if low < high {
        lemma_pow256_monotonic(low, (high - 1) as nat);
    } else if low > 0 {
        lemma_pow256_monotonic((low - 1) as nat, (low - 1) as nat);
    }
}

} // verus!
