//! Tray icon images: solid squares whose colour tells the state.
use vstd::prelude::*;

use crate::session::Status;

verus! {

/// Width and height of the tray icon, in pixels.
pub const ICON_SIZE: u32 = 32;

/// Byte `k` (0 to 3: red, green, blue, alpha) of an opaque pixel of colour
/// `rgb`.
pub open spec fn pixel_byte(rgb: [u8; 3], k: int) -> u8 {
    if k == 3 {
        0xff
    } else {
        rgb@[k]
    }
}

/// An opaque `ICON_SIZE` x `ICON_SIZE` image of colour `rgb`, as RGBA bytes,
/// row by row.
pub fn icon_rgba(rgb: [u8; 3]) -> (rgba: Vec<u8>)
    ensures
        rgba@.len() == 32 * 32 * 4,
        forall|i: int| 0 <= i < rgba@.len() ==> #[trigger] rgba@[i] == pixel_byte(rgb, i % 4),
{
    let mut rgba: Vec<u8> = Vec::new();
    let mut p: usize = 0;
    while p < 32 * 32
        invariant
            p <= 32 * 32,
            rgba@.len() == 4 * p,
            forall|i: int| 0 <= i < rgba@.len() ==> #[trigger] rgba@[i] == pixel_byte(rgb, i % 4),
        decreases 32 * 32 - p,
    {
        let ghost base = rgba@.len() as int;
        rgba.push(rgb[0]);
        rgba.push(rgb[1]);
        rgba.push(rgb[2]);
        rgba.push(0xff);
        assert forall|i: int| 0 <= i < rgba@.len() implies #[trigger] rgba@[i] == pixel_byte(
            rgb,
            i % 4,
        ) by {
            if i >= base {
                assert(base % 4 == 0) by (nonlinear_arith)
                    requires
                        base == 4 * p,
                ;
                assert((base + (i - base)) % 4 == i - base) by (nonlinear_arith)
                    requires
                        base % 4 == 0,
                        0 <= i - base < 4,
                ;
            }
        }
        p = p + 1;
    }
    rgba
}

/// The colour of the tray icon in each state: blue when ready, red while
/// recording, orange while transcribing.
pub open spec fn status_colour(st: Status) -> [u8; 3] {
    match st {
        Status::Ready => [0x2e, 0x7d, 0xff],
        Status::Recording => [0xff, 0x3b, 0x30],
        Status::Transcribing => [0xff, 0x95, 0x00],
    }
}

/// The RGB colour of the tray icon for status `st`.
pub fn colour_for(st: Status) -> (rgb: [u8; 3])
    ensures
        rgb == status_colour(st),
{
    match st {
        Status::Ready => [0x2e, 0x7d, 0xff],
        Status::Recording => [0xff, 0x3b, 0x30],
        Status::Transcribing => [0xff, 0x95, 0x00],
    }
}

} // verus!
