//! The firmware ABI binding layer: status codes, capability identifiers,
//! and the fixed byte offsets at which the firmware's service tables hold
//! the fields this stub reads.
//!
//! The firmware tables are firmware-owned memory whose shape is a binary
//! contract this program does not control. The tables are modeled here as
//! raw byte regions, and each field access is a read of an 8-byte
//! little-endian value at the documented offset, so that the offsets are
//! not merely named but tied to the exact byte ranges they select.

use vstd::prelude::*;

verus! {

/// The status code the firmware reports: zero for success.
pub const EFI_SUCCESS: u64 = 0;

/// Byte offset of the boot-services reference inside the system table:
/// twelve reserved 8-byte words precede it.
pub const BOOT_SERVICES_OFFSET: usize = 96;

/// Byte offset of the capability-lookup function pointer inside the
/// boot-services table: forty reserved 8-byte words precede it.
pub const LOCATE_PROTOCOL_OFFSET: usize = 320;

/// Total size in bytes of the pixel-format descriptor: nine 4-byte fields.
pub const PIXEL_INFO_SIZE: usize = 36;

/// Each asserted offset equals the size of the reserved area that precedes
/// its field, and the pixel-format descriptor's size is the sum of its
/// nine 4-byte fields.
pub proof fn lemma_offsets_match_reserved_areas()
    ensures
        BOOT_SERVICES_OFFSET == 12 * 8,
        LOCATE_PROTOCOL_OFFSET == 40 * 8,
        PIXEL_INFO_SIZE == 9 * 4,
{
}

/// A status code returned by every firmware call. Only the success
/// discriminant has meaning; any other value is failure.
#[derive(Clone, Copy, Debug, PartialEq, Eq, Structural)]
pub struct EfiStatus {
    pub code: u64,
}

impl EfiStatus {
    /// Whether this status reports success.
    pub open spec fn spec_is_success(self) -> bool {
        self.code == EFI_SUCCESS
    }

    /// True exactly when the firmware reported success.
    pub fn is_success(self) -> (r: bool)
        ensures
            r == self.spec_is_success(),
    {
        self.code == EFI_SUCCESS
    }
}

/// A 128-bit capability identifier: four fixed-width fields, laid out as a
/// 32-bit word, two 16-bit words, and eight bytes.
#[derive(Clone, Copy, Debug)]
pub struct EfiGuid {
    pub data0: u32,
    pub data1: u16,
    pub data2: u16,
    pub data3: [u8; 8],
}

/// The identifier of the graphics output capability.
pub fn graphics_output_protocol_guid() -> (g: EfiGuid)
    ensures
        g.data0 == 0x9042a9de,
        g.data1 == 0x23dc,
        g.data2 == 0x4a38,
        g.data3@ == seq![0x96u8, 0xfbu8, 0x7au8, 0xdeu8, 0xd0u8, 0x80u8, 0x51u8, 0x6au8],
{
    let g = EfiGuid {
        data0: 0x9042a9de,
        data1: 0x23dc,
        data2: 0x4a38,
        data3: [0x96, 0xfb, 0x7a, 0xde, 0xd0, 0x80, 0x51, 0x6a],
    };
    proof {
        assert(g.data3@ =~= seq![0x96u8, 0xfbu8, 0x7au8, 0xdeu8, 0xd0u8, 0x80u8, 0x51u8, 0x6au8]);
    }
    g
}

/// The unsigned value of eight bytes read in little-endian order.
pub open spec fn le_u64(b: Seq<u8>) -> int
    recommends
        b.len() == 8,
{
    b[0] + 256 * (b[1] + 256 * (b[2] + 256 * (b[3] + 256 * (b[4] + 256 * (b[5] + 256 * (b[6]
        + 256 * b[7]))))))
}

/// Reads the 8-byte little-endian field at byte offset `off` of a
/// firmware-owned memory region.
pub fn read_u64_at(region: &Vec<u8>, off: usize) -> (r: u64)
    requires
        off + 8 <= region@.len(),
    ensures
        r == le_u64(region@.subrange(off as int, off as int + 8)),
{
    let n = region.len();
    assert(off + 8 <= n);
    let b0 = region[off] as u64;
    let b1 = region[off + 1] as u64;
    let b2 = region[off + 2] as u64;
    let b3 = region[off + 3] as u64;
    let b4 = region[off + 4] as u64;
    let b5 = region[off + 5] as u64;
    let b6 = region[off + 6] as u64;
    let b7 = region[off + 7] as u64;
    let r = b0 + 256 * (b1 + 256 * (b2 + 256 * (b3 + 256 * (b4 + 256 * (b5 + 256 * (b6 + 256
        * b7))))));
    proof {
        let s = region@.subrange(off as int, off as int + 8);
        assert(s[0] == b0 && s[1] == b1 && s[2] == b2 && s[3] == b3 && s[4] == b4 && s[5] == b5
            && s[6] == b6 && s[7] == b7);
    }
    r
}

/// The boot-services reference held by a system table image: the 8-byte
/// field at byte offset 96, and nothing outside bytes 96..104.
pub fn boot_services_field(system_table: &Vec<u8>) -> (r: u64)
    requires
        BOOT_SERVICES_OFFSET + 8 <= system_table@.len(),
    ensures
        r == le_u64(
            system_table@.subrange(
                BOOT_SERVICES_OFFSET as int,
                BOOT_SERVICES_OFFSET as int + 8,
            ),
        ),
{
    read_u64_at(system_table, BOOT_SERVICES_OFFSET)
}

/// The capability-lookup function pointer held by a boot-services table
/// image: the 8-byte field at byte offset 320, and nothing outside bytes
/// 320..328.
pub fn locate_protocol_field(boot_services: &Vec<u8>) -> (r: u64)
    requires
        LOCATE_PROTOCOL_OFFSET + 8 <= boot_services@.len(),
    ensures
        r == le_u64(
            boot_services@.subrange(
                LOCATE_PROTOCOL_OFFSET as int,
                LOCATE_PROTOCOL_OFFSET as int + 8,
            ),
        ),
{
    read_u64_at(boot_services, LOCATE_PROTOCOL_OFFSET)
}

} // verus!
