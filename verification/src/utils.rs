//! The packet checksum, big-endian field helpers, and the full
//! binary-search discovery walk.

use vstd::arithmetic::div_mod::{lemma_add_mod_noop, lemma_small_mod};
use vstd::prelude::*;

verus! {

/// Plain (unbounded) sum of a byte sequence.
pub open spec fn byte_sum(s: Seq<u8>) -> int
    decreases s.len(),
{
    if s.len() == 0 {
        0
    } else {
        byte_sum(s.drop_last()) + s.last()
    }
}

/// The RDM checksum: the sum of all bytes modulo 2^16.
pub open spec fn checksum_of(s: Seq<u8>) -> u16 {
    (byte_sum(s) % 0x10000) as u16
}

proof fn lemma_byte_sum_nonneg(s: Seq<u8>)
    ensures
        byte_sum(s) >= 0,
    decreases s.len(),
{
    if s.len() > 0 {
        lemma_byte_sum_nonneg(s.drop_last());
    }
}

/// Computes the 16-bit wrapping sum of all bytes.
pub fn calculate_checksum(data: &[u8]) -> (r: u16)
    ensures
        r == checksum_of(data@),
{
    let mut checksum: u16 = 0;
    let mut i: usize = 0;
    while i < data.len()
        invariant
            i <= data@.len(),
            checksum == checksum_of(data@.take(i as int)),
        decreases data@.len() - i,
    {
        let b: u16 = data[i] as u16;
        proof {
            let prefix = data@.take(i as int);
            let next = data@.take(i + 1);
            assert(next.drop_last() =~= prefix);
            assert(next.last() == data@[i as int]);
            lemma_byte_sum_nonneg(prefix);
            lemma_small_mod(b as nat, 0x10000);
            lemma_add_mod_noop(byte_sum(prefix), b as int, 0x10000);
            assert(byte_sum(next) == byte_sum(prefix) + b);
        }
        checksum = checksum.wrapping_add(b);
        i = i + 1;
    }
    proof {
        assert(data@.take(data@.len() as int) =~= data@);
    }
    checksum
}

/// If two equally long sequences differ in exactly one position, their
/// checksums differ: a single changed byte moves the plain sum by less
/// than 2^16 and by more than zero.
pub proof fn lemma_checksum_single_change(s1: Seq<u8>, s2: Seq<u8>, i: int)
    requires
        s1.len() == s2.len(),
        0 <= i < s1.len(),
        s1[i] != s2[i],
        forall|j: int| 0 <= j < s1.len() && j != i ==> s1[j] == s2[j],
    ensures
        checksum_of(s1) != checksum_of(s2),
{
    lemma_byte_sum_single_change(s1, s2, i);
    lemma_byte_sum_nonneg(s1);
    lemma_byte_sum_nonneg(s2);
    let d = byte_sum(s2) - byte_sum(s1);
    assert(d != 0 && -0x10000 < d && d < 0x10000);
    lemma_mod_difference(byte_sum(s1), byte_sum(s2));
}

proof fn lemma_byte_sum_single_change(s1: Seq<u8>, s2: Seq<u8>, i: int)
    requires
        s1.len() == s2.len(),
        0 <= i < s1.len(),
        forall|j: int| 0 <= j < s1.len() && j != i ==> s1[j] == s2[j],
    ensures
        byte_sum(s2) - byte_sum(s1) == s2[i] - s1[i],
    decreases s1.len(),
{
    if i == s1.len() - 1 {
        assert(s1.drop_last() =~= s2.drop_last());
    } else {
        lemma_byte_sum_single_change(s1.drop_last(), s2.drop_last(), i);
        assert(s1.drop_last()[i] == s1[i]);
        assert(s2.drop_last()[i] == s2[i]);
    }
}

proof fn lemma_mod_difference(a: int, b: int)
    requires
        a >= 0,
        b >= 0,
        a != b,
        -0x10000 < b - a,
        b - a < 0x10000,
    ensures
        a % 0x10000 != b % 0x10000,
{
    if a % 0x10000 == b % 0x10000 {
        vstd::arithmetic::div_mod::lemma_mod_equivalence(a, b, 0x10000);
        assert((b - a) % 0x10000 == 0);
        if b - a >= 0 {
            lemma_small_mod((b - a) as nat, 0x10000);
        } else {
            lemma_small_mod((a - b) as nat, 0x10000);
            vstd::arithmetic::div_mod::lemma_mod_equivalence(b, a, 0x10000);
        }
        assert(false);
    }
}

/// Blocking recursive discovery.
///
/// It will find and mute devices until it has captured all of them or
/// `max_devices` many.
///
/// Before the first time this function gets called, one should unmute all
/// rdm responders using a DISC_UN_MUTE broadcast. This can be done using
/// the [`crate::dmx_controller::DmxController::rdm_disc_un_mute`] method.
///
/// If the returned list is as long as `max_devices` it is advisable to
/// run this function again with more room.
pub fn run_full_discovery<Driver: crate::dmx_driver::RdmControllerDriver>(
    manager: &mut crate::dmx_controller::DmxController<Driver>,
    max_devices: usize,
) -> (r: Result<
    Vec<crate::unique_identifier::UniqueIdentifier>,
    crate::dmx_controller::RdmResponseError<Driver::DriverError>,
>)
    ensures
        r is Ok ==> r->Ok_0@.len() <= max_devices,
        r is Ok ==> forall|i: int|
            0 <= i < r->Ok_0@.len() ==> (#[trigger] r->Ok_0@[i]).device_uid != 0xFFFF_FFFF,
{
    discover_range(manager, 0x00000001, 0xFFFF_FFFF_FFFE, max_devices)
}

/// Where a collided range splits: its midpoint, which both halves
/// strictly shrink towards.
fn split_point(lower_bound: u64, upper_bound: u64) -> (r: u64)
    requires
        lower_bound <= upper_bound,
        upper_bound - lower_bound > 1,
        upper_bound <= 0xFFFF_FFFF_FFFE,
    ensures
        r == (upper_bound + lower_bound) / 2,
        lower_bound <= r < upper_bound,
{
    let middle = (upper_bound + lower_bound) / 2;
    proof {
        assert(lower_bound <= middle < upper_bound) by (nonlinear_arith)
            requires
                lower_bound <= upper_bound,
                upper_bound - lower_bound > 1,
                middle == (upper_bound + lower_bound) / 2,
        ;
    }
    middle
}

/// Probes one id range: silence means an empty range, a clean reply is
/// muted and recorded, and a collision splits the range in half, upper
/// half first.
fn discover_range<Driver: crate::dmx_driver::RdmControllerDriver>(
    manager: &mut crate::dmx_controller::DmxController<Driver>,
    lower_bound: u64,
    upper_bound: u64,
    max_devices: usize,
) -> (r: Result<
    Vec<crate::unique_identifier::UniqueIdentifier>,
    crate::dmx_controller::RdmResponseError<Driver::DriverError>,
>)
    requires
        lower_bound <= upper_bound,
        upper_bound <= 0xFFFF_FFFF_FFFE,
    ensures
        r is Ok ==> r->Ok_0@.len() <= max_devices,
        r is Ok ==> forall|i: int|
            0 <= i < r->Ok_0@.len() ==> (#[trigger] r->Ok_0@[i]).device_uid != 0xFFFF_FFFF,
    decreases upper_bound - lower_bound,
{
    let discovery_option = match manager.rdm_discover(lower_bound, upper_bound) {
        Ok(discovery_option) => discovery_option,
        Err(request_error) => {
            return Err(request_error);
        },
    };

    if max_devices == 0 {
        return Ok(Vec::new());
    }

    match discovery_option {
        crate::dmx_driver::DiscoveryOption::Collision => {
            if upper_bound - lower_bound <= 1 {
                return Ok(Vec::new());
            }

            let middle = split_point(lower_bound, upper_bound);

            let mut found = match discover_range(manager, middle + 1, upper_bound, max_devices) {
                Ok(found) => found,
                Err(request_error) => {
                    return Err(request_error);
                },
            };

            let mut lower_found = match discover_range(
                manager,
                lower_bound,
                middle,
                max_devices - found.len(),
            ) {
                Ok(lower_found) => lower_found,
                Err(request_error) => {
                    return Err(request_error);
                },
            };

            found.append(&mut lower_found);
            Ok(found)
        },
        crate::dmx_driver::DiscoveryOption::NoDevice => Ok(Vec::new()),
        crate::dmx_driver::DiscoveryOption::Found(uid) => {
            match manager.rdm_disc_mute(crate::unique_identifier::PackageAddress::Device(uid)) {
                Err(
                    crate::dmx_controller::RdmResponseError::DmxError(
                        crate::dmx_driver::DmxError::TimeoutError,
                    ),
                ) => {
                    // The device may have been transient; count it as absent.
                    return Ok(Vec::new());
                },
                Err(request_error) => {
                    return Err(request_error);
                },
                Ok(_) => {},
            }
            let mut found: Vec<crate::unique_identifier::UniqueIdentifier> = Vec::new();
            found.push(uid);
            Ok(found)
        },
    }
}

/// The text a byte sequence holds when it is valid UTF-8; what counts
/// as valid is fixed by the encoding, not stated here.
pub uninterp spec fn utf8_decode(s: Seq<u8>) -> Option<Seq<char>>;

/// Relies on core::str::from_utf8: whether bytes are valid text, and
/// which text, depends on the bytes alone.
#[verifier::external_body]
pub fn bytes_to_string(data: &[u8]) -> (r: Option<String>)
    ensures
        r is Some <==> utf8_decode(data@) is Some,
        r is Some ==> r.unwrap()@ == utf8_decode(data@).unwrap(),
{
    match core::str::from_utf8(data) {
        Ok(text) => Some(text.to_string()),
        Err(_) => None,
    }
}

/// Big-endian view of two bytes.
pub open spec fn be16(hi: u8, lo: u8) -> u16 {
    (hi * 0x100 + lo) as u16
}

/// Big-endian view of four bytes.
pub open spec fn be32(b0: u8, b1: u8, b2: u8, b3: u8) -> u32 {
    (b0 * 0x1000000 + b1 * 0x10000 + b2 * 0x100 + b3) as u32
}

/// Reads a big-endian 16-bit field.
pub fn be16_decode(hi: u8, lo: u8) -> (r: u16)
    ensures
        r == be16(hi, lo),
{
    hi as u16 * 0x100 + lo as u16
}

/// Reads a big-endian 32-bit field.
pub fn be32_decode(b0: u8, b1: u8, b2: u8, b3: u8) -> (r: u32)
    ensures
        r == be32(b0, b1, b2, b3),
{
    b0 as u32 * 0x1000000 + b1 as u32 * 0x10000 + b2 as u32 * 0x100 + b3 as u32
}

/// High byte of a big-endian 16-bit field.
pub fn be16_hi(x: u16) -> (r: u8)
    ensures
        r == x / 0x100,
{
    (x / 0x100) as u8
}

/// Low byte of a big-endian 16-bit field.
pub fn be16_lo(x: u16) -> (r: u8)
    ensures
        r == x % 0x100,
{
    (x % 0x100) as u8
}

/// The two big-endian bytes reassemble to the value they were taken from.
pub proof fn lemma_be16_roundtrip(x: u16)
    ensures
        be16((x / 0x100) as u8, (x % 0x100) as u8) == x,
{
}

/// The four big-endian bytes reassemble to the value they were taken from.
pub proof fn lemma_be32_roundtrip(x: u32)
    ensures
        be32(
            (x / 0x1000000) as u8,
            ((x / 0x10000) % 0x100) as u8,
            ((x / 0x100) % 0x100) as u8,
            (x % 0x100) as u8,
        ) == x,
{
    assert(be32(
        (x / 0x1000000) as u8,
        ((x / 0x10000) % 0x100) as u8,
        ((x / 0x100) % 0x100) as u8,
        (x % 0x100) as u8,
    ) == x) by (nonlinear_arith);
}

} // verus!
