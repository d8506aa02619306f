use vstd::prelude::*;

verus! {

/// The version-4 (random) UUID bits: version nibble 4 and the RFC 4122
/// variant bits.
pub open spec fn is_random_uuid(id: u128) -> bool {
    id & 0xF000_C000_0000_0000_0000u128 == 0x4000_8000_0000_0000_0000u128
}

/// The value of a sequence of bytes read big-endian.
pub open spec fn be_value(bytes: Seq<u8>) -> int
    decreases bytes.len(),
{
    if bytes.len() == 0 {
        0
    } else {
        be_value(bytes.drop_last()) * 256 + bytes.last()
    }
}

/// The 128-bit value of the version-4 UUID made from 16 random bytes: the
/// bytes read big-endian, with the version nibble set to 4 and the variant
/// bits set to the RFC 4122 ones (`0b10`).
pub open spec fn v4_uuid_of(bytes: Seq<u8>) -> u128 {
    ((be_value(bytes) as u128) & 0xFFFF_FFFF_FFFF_4FFF_BFFF_FFFF_FFFF_FFFFu128)
        | 0x4000_8000_0000_0000_0000u128
}

/// Fills 16 bytes from the operating system's random source with
/// `getrandom::fill` (the source `uuid::Uuid::new_v4` draws from); `None`
/// when that source fails.
///
/// The bytes are chance, so nothing is stated of them.
#[verifier::external_body]
fn random_bytes() -> (r: Option<[u8; 16]>) {
    let mut bytes = [0u8; 16];
    match getrandom::fill(&mut bytes) {
        Ok(()) => Some(bytes),
        Err(_) => None,
    }
}

/// `uuid::Builder::from_random_bytes(bytes).into_uuid()`, taken as its
/// 128-bit value by `Uuid::as_u128`.
///
/// Stated: the value is `v4_uuid_of(bytes)`. (`Uuid::from_bytes` keeps the
/// bytes in order and `as_u128` reads them big-endian; `with_version` sets
/// the high nibble of byte 6 to 4 and `with_variant` the top two bits of
/// byte 8 to `0b10`.)
#[verifier::external_body]
fn uuid_from_random_bytes(bytes: [u8; 16]) -> (id: u128)
    ensures
        id == v4_uuid_of(bytes@),
{
    uuid::Builder::from_random_bytes(bytes).into_uuid().as_u128()
}

/// Every value made by `v4_uuid_of` carries the version-4 bits.
proof fn lemma_v4_uuid_is_random(bytes: Seq<u8>)
    ensures
        is_random_uuid(v4_uuid_of(bytes)),
{
    let x = be_value(bytes) as u128;
    assert(((x & 0xFFFF_FFFF_FFFF_4FFF_BFFF_FFFF_FFFF_FFFFu128) | 0x4000_8000_0000_0000_0000u128)
        & 0xF000_C000_0000_0000_0000u128 == 0x4000_8000_0000_0000_0000u128) by (bit_vector);
}

/// Draws a fresh random identifier: a version-4 UUID made from 16 bytes of
/// the operating system's random source, as `uuid::Uuid::new_v4` makes one.
/// `None` when the random source fails.
///
/// Nothing ties two draws together; every identifier drawn carries the
/// version-4 bits.
pub fn new_random_id() -> (r: Option<u128>)
    ensures
        r matches Some(id) ==> is_random_uuid(id),
{
    match random_bytes() {
        Some(bytes) => {
            let id = uuid_from_random_bytes(bytes);
            proof {
                lemma_v4_uuid_is_random(bytes@);
            }
            Some(id)
        },
        None => None,
    }
}

} // verus!
