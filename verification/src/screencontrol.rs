//! The screen-mirroring command's per-iteration work: validate the captured
//! surface, compress it with the configured codec, packetize the result and
//! serialize every packet for the transport. The surrounding loop — device
//! capture, the socket sends and the timing printout — is unverified
//! platform code that calls in here once per captured image.

use vstd::prelude::*;

use crate::encoders::Encoder;
use crate::encoders::Encoders;
use crate::encoders::jpeg_bytes;
use crate::framebuffer::FrameGeometry;
use crate::protocol::END_MARKER;
use crate::protocol::Frame;
use crate::protocol::chunk_count;
use crate::protocol::frame_wire;

verus! {

/// Name of the subcommand that starts the mirroring loop.
pub const COMMAND_NAME: &'static str = "screencontrol";

/// Why one captured image could not be turned into datagrams. Each of these
/// is fatal for the capture loop: there is no partial-image recovery.
#[derive(Clone, Copy, PartialEq, Eq, Structural, Debug)]
pub enum ScreenError {
    /// The surface is not 32 bits per pixel. An 8-bit grayscale surface is
    /// rejected here explicitly rather than mirrored.
    UnsupportedDepth,
    /// A dimension is zero or exceeds the codec's 16-bit limit.
    BadDimensions,
    /// The row pitch does not equal `width * 4`: the codecs do not
    /// compensate for row padding, so a padded surface is refused.
    StrideMismatch,
    /// The quality setting is outside 1 to 100.
    BadQuality,
    /// The captured byte count does not match the geometry.
    SizeMismatch,
    /// The encoded image needs more chunks than the 32-bit sequence marker
    /// can number.
    FrameTooLarge,
}

/// The screen-mirroring command.
pub struct ScreenControlCommand();

impl ScreenControlCommand {
    /// Turns one captured image into the datagrams of one protocol frame:
    /// encodes `pixels` as JPEG at `quality`, packetizes the encoded bytes,
    /// and serializes the packets in send order. Returns an error, and sends
    /// nothing, exactly when the capture does not satisfy the documented
    /// preconditions of the pipeline.
    pub fn frame_datagrams(&self, geometry: &FrameGeometry, pixels: &[u8], quality: u32) -> (r:
        Result<Vec<Vec<u8>>, ScreenError>)
        ensures
            ({
                let w = geometry.width;
                let h = geometry.height;
                let enc = jpeg_bytes(pixels@, w as int, h as int, quality as int, 4);
                if geometry.bits_per_pixel != 32 {
                    r == Err::<Vec<Vec<u8>>, ScreenError>(ScreenError::UnsupportedDepth)
                } else if !(1 <= w <= 0xFFFF && 1 <= h <= 0xFFFF) {
                    r == Err::<Vec<Vec<u8>>, ScreenError>(ScreenError::BadDimensions)
                } else if geometry.stride != w * 4 {
                    r == Err::<Vec<Vec<u8>>, ScreenError>(ScreenError::StrideMismatch)
                } else if !(1 <= quality <= 100) {
                    r == Err::<Vec<Vec<u8>>, ScreenError>(ScreenError::BadQuality)
                } else if pixels@.len() != w * h * 4 {
                    r == Err::<Vec<Vec<u8>>, ScreenError>(ScreenError::SizeMismatch)
                } else if chunk_count(enc.len()) >= END_MARKER {
                    r == Err::<Vec<Vec<u8>>, ScreenError>(ScreenError::FrameTooLarge)
                } else {
                    r matches Ok(dgs) && dgs.deep_view() == frame_wire(w, h, 32u32, enc)
                }
            }),
    {
        let w: u32 = geometry.width;
        let h: u32 = geometry.height;
        if geometry.bits_per_pixel != 32 {
            return Err(ScreenError::UnsupportedDepth);
        }
        if !(1 <= w && w <= 0xFFFF && 1 <= h && h <= 0xFFFF) {
            return Err(ScreenError::BadDimensions);
        }
        if geometry.stride != w * 4 {
            return Err(ScreenError::StrideMismatch);
        }
        if !(1 <= quality && quality <= 100) {
            return Err(ScreenError::BadQuality);
        }
        proof {
            assert((w as int) * (h as int) * 4 <= 0xFFFF * 0xFFFF * 4) by (nonlinear_arith)
                requires
                    w <= 0xFFFF,
                    h <= 0xFFFF,
            ;
        }
        let expected_len: u64 = (w as u64) * (h as u64) * 4;
        if (pixels.len() as u64) != expected_len {
            return Err(ScreenError::SizeMismatch);
        }
        let encoder = Encoders::jpeg();
        let encoded = encoder.encode(pixels, w, h, geometry.stride, 32, quality);
        let ghost enc = encoded@;
        if (encoded.len() as u64) > 0xCAFE_CAFDu64 * 1000 {
            proof {
                assert(enc.len() > 0xCAFE_CAFDu64 * 1000 ==> (enc.len() + 999) / 1000
                    >= 0xCAFE_CAFEu64) by (nonlinear_arith);
            }
            return Err(ScreenError::FrameTooLarge);
        }
        proof {
            assert(enc.len() <= 0xCAFE_CAFDu64 * 1000 ==> (enc.len() + 999) / 1000
                < 0xCAFE_CAFEu64) by (nonlinear_arith);
        }
        let frame = Frame::from(w, h, 32, encoded);
        let mut out: Vec<Vec<u8>> = Vec::new();
        let total: usize = frame.packets.len();
        let mut i: usize = 0;
        while i < total
            invariant
                total == frame.packets@.len(),
                i <= total,
                out@.len() == i,
                forall|j: int| 0 <= j < i ==> (#[trigger] out@[j])@ == frame.packets@[j].wire_bytes(),
            decreases total - i,
        {
            out.push(frame.packets[i].get_data());
            i = i + 1;
        }
        proof {
            let n = chunk_count(enc.len()) as int;
            let wire = frame_wire(w, h, 32u32, enc);
            assert forall|j: int| 0 <= j < n + 2 implies out.deep_view()[j] == wire[j] by {
                assert(out.deep_view()[j] =~= out@[j]@);
                if 1 <= j < n + 1 {
                    assert(frame.packets@[(j - 1) + 1].is_chunk_packet(
                        ((j - 1) + 1) as u32,
                        crate::protocol::chunk_payload(enc, j - 1),
                    ));
                }
                assert(out@[j]@ =~= wire[j]);
            }
            assert(out.deep_view() =~~= wire);
        }
        Ok(out)
    }
}

} // verus!
