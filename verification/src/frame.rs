//! Delivered-frame processing: tight packing of readback rows and the
//! unconditional red/blue channel fix-up.
//!
//! The readback layer hands back `stride * height` bytes whose rows may be
//! padded; the consumer expects a tightly packed `width * height * 4` byte
//! buffer whose bytes 0 and 2 of every 4-byte pixel are swapped relative to
//! the capture pipeline's native order.

use vstd::prelude::*;

use crate::format::NegotiatedFormat;

verus! {

/// Where byte `i` of a fixed-up frame comes from in the source frame:
/// bytes 0 and 2 of every 4-byte pixel trade places, bytes 1 and 3 stay.
pub open spec fn fixup_index(i: int) -> int {
    if i % 4 == 0 {
        i + 2
    } else if i % 4 == 2 {
        i - 2
    } else {
        i
    }
}

/// The channel fix-up of a whole frame.
pub open spec fn fixup_spec(s: Seq<u8>) -> Seq<u8> {
    Seq::new(s.len(), |i: int| s[fixup_index(i)])
}

/// The fix-up applied twice gives the original frame back: swapping bytes
/// 0 and 2 of every pixel is an involution.
pub proof fn lemma_fixup_involutive(s: Seq<u8>)
    requires
        s.len() % 4 == 0,
    ensures
        fixup_spec(fixup_spec(s)) =~= s,
{
    assert forall|i: int| 0 <= i < s.len() implies fixup_spec(fixup_spec(s))[i] == s[i] by {
        assert(0 <= fixup_index(i) < s.len());
        assert(fixup_index(fixup_index(i)) == i);
    }
}

/// Swap bytes 0 and 2 of every 4-byte pixel in place.
pub fn convert_bgr_to_rgb(frame: &mut Vec<u8>)
    requires
        old(frame).len() % 4 == 0,
    ensures
        final(frame)@ =~= fixup_spec(old(frame)@),
{
    let len = frame.len();
    let mut i: usize = 0;
    while i < len
        invariant
            len == frame.len() == old(frame).len(),
            len % 4 == 0,
            i % 4 == 0,
            i <= len,
            forall|j: int| 0 <= j < i ==> frame@[j] == fixup_spec(old(frame)@)[j],
            forall|j: int| i <= j < len ==> frame@[j] == old(frame)@[j],
        decreases len - i,
    {
        assert(len - i >= 4);
        let temp_red = frame[i];
        frame[i] = frame[i + 2];
        frame[i + 2] = temp_red;
        assert forall|j: int| 0 <= j < i + 4 implies frame@[j] == fixup_spec(old(frame)@)[j] by {
            assert(0 <= fixup_index(j) < len);
        }
        i = i + 4;
    }
}

/// Everything that can go wrong while turning one delivered buffer into an
/// output frame.  All of these are recoverable: the offending frame is
/// dropped and the pipeline continues.
#[derive(Clone, Copy, Debug, PartialEq, Eq, Structural)]
pub enum FrameError {
    /// The delivered descriptor carried no planes, or more than the import
    /// layer's four plane slots.
    InvalidPlaneCount,
    /// The platform rejected the GPU image; carries the platform error code.
    ImageCreationFailed(i32),
    /// Binding the imported image as a texture left a non-zero error state.
    TextureBindFailed(u32),
    /// Reading the texture back into host memory failed.
    ReadbackFailed(u32),
    /// The delivered payload holds fewer bytes than one full frame.
    ShortPayload,
}

/// One row of the packed output: bytes `row * stride .. row * stride + 4 * width`
/// of the source.
pub open spec fn packed_byte(src: Seq<u8>, stride: int, width: int, i: int) -> u8 {
    src[(i / (4 * width)) * stride + (i % (4 * width))]
}

/// The tightly packed `4 * width * height` bytes drawn from a row-padded
/// source of `stride`-byte rows.
pub open spec fn pack_spec(src: Seq<u8>, width: int, height: int, stride: int) -> Seq<u8> {
    Seq::new((4 * width * height) as nat, |i: int| packed_byte(src, stride, width, i))
}

/// Drop row padding: copy the first `4 * width` bytes of each of `height`
/// rows of `stride` bytes into one tightly packed buffer.  Fails with
/// `ShortPayload` exactly when the source cannot hold `height` full rows.
pub fn pack_tight(src: &Vec<u8>, width: u32, height: u32, stride: u32) -> (r: Result<
    Vec<u8>,
    FrameError,
>)
    requires
        1 <= width <= 4096,
        1 <= height <= 4096,
    ensures
        r matches Ok(out) ==> {
            &&& stride >= 4 * width
            &&& src@.len() >= stride * height
            &&& out@ =~= pack_spec(src@, width as int, height as int, stride as int)
            &&& out@.len() == 4 * width * height
        },
        r matches Err(e) ==> {
            &&& e == FrameError::ShortPayload
            &&& (stride < 4 * width || src@.len() < stride * height)
        },
{
    if stride < 4 * width {
        return Err(FrameError::ShortPayload);
    }
    proof {
        assert(stride * height <= u32::MAX * 4096) by (nonlinear_arith)
            requires
                stride <= u32::MAX,
                height <= 4096,
        ;
    }
    let needed: u64 = (stride as u64) * (height as u64);
    if (src.len() as u64) < needed {
        proof {
            assert(src@.len() < stride * height);
        }
        return Err(FrameError::ShortPayload);
    }
    let row_bytes: usize = 4 * (width as usize);
    let mut out: Vec<u8> = Vec::new();
    let mut row: usize = 0;
    while row < height as usize
        invariant
            1 <= width <= 4096,
            1 <= height <= 4096,
            stride >= 4 * width,
            src@.len() >= stride * height,
            src@.len() <= usize::MAX,
            row_bytes == 4 * width,
            row <= height,
            out@.len() == row * row_bytes,
            forall|i: int|
                0 <= i < out@.len() ==> out@[i] == packed_byte(
                    src@,
                    stride as int,
                    width as int,
                    i,
                ),
        decreases height - row,
    {
        proof {
            assert(row * stride + stride <= height * stride) by (nonlinear_arith)
                requires
                    row + 1 <= height,
                    stride >= 0,
            ;
            assert(height * stride == stride * height) by (nonlinear_arith);
        }
        let base: usize = row * (stride as usize);
        proof {
            assert(base + row_bytes <= src@.len());
        }
        let mut k: usize = 0;
        while k < row_bytes
            invariant
                row_bytes == 4 * width,
                row < height,
                stride >= 4 * width,
                base == row * stride,
                base + row_bytes <= src@.len(),
                src@.len() >= stride * height,
                src@.len() <= usize::MAX,
                k <= row_bytes,
                out@.len() == row * row_bytes + k,
                forall|i: int|
                    0 <= i < out@.len() ==> out@[i] == packed_byte(
                        src@,
                        stride as int,
                        width as int,
                        i,
                    ),
            decreases row_bytes - k,
        {
            let b = src[base + k];
            out.push(b);
            proof {
                let i = out@.len() - 1;
                assert(i == row * row_bytes + k);
                assert(i / (4 * width as int) == row && i % (4 * width as int) == k)
                    by (nonlinear_arith)
                    requires
                        i == row * (4 * width as int) + k,
                        0 <= k < 4 * width as int,
                        row >= 0,
                        width >= 1,
                ;
                assert(out@[i] == packed_byte(src@, stride as int, width as int, i));
            }
            k = k + 1;
        }
        proof {
            assert((row + 1) * row_bytes == row * row_bytes + row_bytes) by (nonlinear_arith);
        }
        row = row + 1;
    }
    proof {
        assert(out@.len() == height * (4 * width as int));
        assert(height * (4 * width as int) == 4 * (width as int) * height) by (nonlinear_arith);
        assert(out@ =~= pack_spec(src@, width as int, height as int, stride as int));
    }
    Ok(out)
}

/// The first failure of the import step sequence wins: image creation,
/// then texture binding, then readback.
pub open spec fn import_outcome_spec(
    image_created: Result<(), i32>,
    bind_code: u32,
    readback_code: u32,
) -> Result<(), FrameError> {
    match image_created {
        Err(platform_error) => Err(FrameError::ImageCreationFailed(platform_error)),
        Ok(_) => if bind_code != crate::gl::GL_NO_ERROR {
            Err(FrameError::TextureBindFailed(bind_code))
        } else if readback_code != crate::gl::GL_NO_ERROR {
            Err(FrameError::ReadbackFailed(readback_code))
        } else {
            Ok(())
        },
    }
}

/// Classify one GPU import attempt from the outcome of each step: whether
/// the platform created the image (or which error it reported), the error
/// state after binding the texture, and the error state after readback.
/// The earliest failing step decides; all are per-frame and recoverable.
pub fn classify_import_outcome(image_created: Result<(), i32>, bind_code: u32, readback_code: u32) -> (r:
    Result<(), FrameError>)
    ensures
        r == import_outcome_spec(image_created, bind_code, readback_code),
{
    match image_created {
        Err(platform_error) => Err(FrameError::ImageCreationFailed(platform_error)),
        Ok(_) => {
            if bind_code != crate::gl::GL_NO_ERROR {
                Err(FrameError::TextureBindFailed(bind_code))
            } else if readback_code != crate::gl::GL_NO_ERROR {
                Err(FrameError::ReadbackFailed(readback_code))
            } else {
                Ok(())
            }
        },
    }
}

/// What one delivered payload becomes: the tightly packed rows with the
/// channel fix-up applied, or the error that made the frame unusable.
pub open spec fn process_frame_spec(fmt: NegotiatedFormat, src: Seq<u8>, stride: int) -> Result<
    Seq<u8>,
    FrameError,
> {
    if stride < 4 * fmt.width || src.len() < stride * fmt.height {
        Err(FrameError::ShortPayload)
    } else {
        Ok(fixup_spec(pack_spec(src, fmt.width as int, fmt.height as int, stride)))
    }
}

/// Turn the raw bytes of one delivered frame (readback rows of `stride`
/// bytes each) into the output frame the consumer expects: tightly packed,
/// exactly `width * height * 4` bytes, red and blue channels swapped.
pub fn process_frame(fmt: &NegotiatedFormat, src: &Vec<u8>, stride: u32) -> (r: Result<
    Vec<u8>,
    FrameError,
>)
    requires
        fmt.wf(),
    ensures
        r matches Ok(out) ==> {
            &&& process_frame_spec(*fmt, src@, stride as int) matches Ok(s) && out@ =~= s
            &&& out@.len() == fmt.frame_len()
        },
        r matches Err(e) ==> process_frame_spec(*fmt, src@, stride as int) == Err::<
            Seq<u8>,
            FrameError,
        >(e),
{
    match pack_tight(src, fmt.width, fmt.height, stride) {
        Ok(mut packed) => {
            proof {
                assert(4 * fmt.width * fmt.height == fmt.width * fmt.height * 4)
                    by (nonlinear_arith);
                assert(packed@.len() % 4 == 0) by {
                    assert(packed@.len() == 4 * (fmt.width * fmt.height)) by (nonlinear_arith)
                        requires
                            packed@.len() == 4 * fmt.width * fmt.height,
                    ;
                }
            }
            convert_bgr_to_rgb(&mut packed);
            Ok(packed)
        },
        Err(e) => Err(e),
    }
}

} // verus!
