//! Frame-control bits of the 802.11 MAC header that decide its layout.
use vstd::prelude::*;

verus! {

/// Frame-control bits that, both set, mark a frame carrying a fourth address.
pub const HAS_ADDR4: u16 = 0x300;
/// Value of the masked frame-control bits for a QoS data frame.
pub const HAS_QOS: u16 = 0x88;
/// Mask of the frame-control bits compared against [`HAS_QOS`].
pub const CHECK_QOS: u16 = 0x8c;
/// MAC header size of a frame with three addresses.
pub const HDR_SIZE_3ADDR: usize = 24;
/// MAC header size of a frame with four addresses.
pub const HDR_SIZE_4ADDR: usize = 30;

/// The frame carries a QoS-control field.
pub open spec fn qos_present(fc: u16) -> bool {
    fc & CHECK_QOS == HAS_QOS
}

/// The frame carries a fourth address.
pub open spec fn addr4_present(fc: u16) -> bool {
    fc & HAS_ADDR4 == HAS_ADDR4
}

/// Length of the MAC header that a frame with this frame control has.
pub open spec fn mac_header_len(fc: u16) -> int {
    (if addr4_present(fc) { HDR_SIZE_4ADDR as int } else { HDR_SIZE_3ADDR as int }) + (if qos_present(
        fc,
    ) {
        2int
    } else {
        0int
    })
}

/// Whether frame control `fc` announces a QoS-control field.
pub fn has_qos(fc: u16) -> (r: bool)
    ensures
        r == qos_present(fc),
{
    fc & CHECK_QOS == HAS_QOS
}

/// Whether frame control `fc` announces a fourth address.
pub fn has_addr4(fc: u16) -> (r: bool)
    ensures
        r == addr4_present(fc),
{
    fc & HAS_ADDR4 == HAS_ADDR4
}

/// Length of the MAC header for frame control `fc`.
pub fn header_len(fc: u16) -> (r: usize)
    ensures
        r == mac_header_len(fc),
{
    let base = if has_addr4(fc) {
        HDR_SIZE_4ADDR
    } else {
        HDR_SIZE_3ADDR
    };
    if has_qos(fc) {
        base + 2
    } else {
        base
    }
}

} // verus!
