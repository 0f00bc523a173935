//! Delivered-buffer descriptors and the attribute list handed to the
//! graphics import layer.
//!
//! One delivered frame is a list of one to four planes, each a file
//! descriptor with a byte offset and a byte stride, plus a storage-kind tag.
//! For the GPU import path the descriptor is flattened into the import
//! layer's attribute list: target size, fourcc tag, per-plane triples, and,
//! when a specific modifier was negotiated, its low and high halves per
//! plane, closed by the terminator attribute.

use vstd::prelude::*;

use crate::format::{drm_format_spec, Modifier, NegotiatedFormat};
use crate::frame::FrameError;

verus! {

/// How the producer backed the delivered buffer.
#[derive(Clone, Copy, Debug, PartialEq, Eq, Structural)]
pub enum StorageKind {
    /// The planes are GPU buffer handles to import.
    GpuBuffer,
    /// The first plane is plain host memory to read directly.
    HostMemory,
}

/// One plane of a delivered buffer.
#[derive(Clone, Copy, Debug, PartialEq, Eq, Structural)]
pub struct PlaneDescriptor {
    /// Borrowed file descriptor of the plane's memory.
    pub fd: i32,
    /// Byte offset of the plane's first row.
    pub offset: u32,
    /// Byte stride between rows.
    pub stride: u32,
}

/// One delivered frame as presented by the producer, borrowed for the
/// duration of one processing callback.
#[derive(Clone, Debug)]
pub struct BufferDescriptor {
    pub planes: Vec<PlaneDescriptor>,
    pub kind: StorageKind,
}

/// Most planes one imported image can carry.
pub const MAX_PLANES: usize = 4;

impl BufferDescriptor {
    /// A descriptor the import layer can accept: one to four planes.
    pub open spec fn wf(self) -> bool {
        1 <= self.planes@.len() <= MAX_PLANES
    }
}

/// Attribute key for the target width.
pub const EGL_WIDTH: i32 = 0x3057;

/// Attribute key for the target height.
pub const EGL_HEIGHT: i32 = 0x3056;

/// Attribute key for the DRM fourcc tag of the buffer.
pub const EGL_LINUX_DRM_FOURCC_EXT: i32 = 0x3271;

/// Terminator of an attribute list.
pub const EGL_NONE: i32 = 0x3038;

/// Import target tag for a set of DMA buffer planes.
pub const EGL_LINUX_DMA_BUF_EXT: u32 = 0x3270;

pub open spec fn fd_attr(idx: int) -> i32 {
    if idx == 0 {
        0x3272
    } else if idx == 1 {
        0x3275
    } else if idx == 2 {
        0x3278
    } else {
        0x3440
    }
}

pub open spec fn offset_attr(idx: int) -> i32 {
    if idx == 0 {
        0x3273
    } else if idx == 1 {
        0x3276
    } else if idx == 2 {
        0x3279
    } else {
        0x3441
    }
}

pub open spec fn pitch_attr(idx: int) -> i32 {
    if idx == 0 {
        0x3274
    } else if idx == 1 {
        0x3277
    } else if idx == 2 {
        0x327A
    } else {
        0x3442
    }
}

pub open spec fn modifier_lo_attr(idx: int) -> i32 {
    if idx == 0 {
        0x3443
    } else if idx == 1 {
        0x3445
    } else if idx == 2 {
        0x3447
    } else {
        0x3449
    }
}

pub open spec fn modifier_hi_attr(idx: int) -> i32 {
    if idx == 0 {
        0x3444
    } else if idx == 1 {
        0x3446
    } else if idx == 2 {
        0x3448
    } else {
        0x344A
    }
}

/// Attribute key for plane `idx`'s file descriptor.
pub fn fd_attr_at(idx: usize) -> (r: i32)
    ensures
        r == fd_attr(idx as int),
{
    if idx == 0 {
        0x3272
    } else if idx == 1 {
        0x3275
    } else if idx == 2 {
        0x3278
    } else {
        0x3440
    }
}

/// Attribute key for plane `idx`'s byte offset.
pub fn offset_attr_at(idx: usize) -> (r: i32)
    ensures
        r == offset_attr(idx as int),
{
    if idx == 0 {
        0x3273
    } else if idx == 1 {
        0x3276
    } else if idx == 2 {
        0x3279
    } else {
        0x3441
    }
}

/// Attribute key for plane `idx`'s byte stride.
pub fn pitch_attr_at(idx: usize) -> (r: i32)
    ensures
        r == pitch_attr(idx as int),
{
    if idx == 0 {
        0x3274
    } else if idx == 1 {
        0x3277
    } else if idx == 2 {
        0x327A
    } else {
        0x3442
    }
}

/// Attribute key for the low 32 bits of plane `idx`'s modifier.
pub fn modifier_lo_attr_at(idx: usize) -> (r: i32)
    ensures
        r == modifier_lo_attr(idx as int),
{
    if idx == 0 {
        0x3443
    } else if idx == 1 {
        0x3445
    } else if idx == 2 {
        0x3447
    } else {
        0x3449
    }
}

/// Attribute key for the high 32 bits of plane `idx`'s modifier.
pub fn modifier_hi_attr_at(idx: usize) -> (r: i32)
    ensures
        r == modifier_hi_attr(idx as int),
{
    if idx == 0 {
        0x3444
    } else if idx == 1 {
        0x3446
    } else if idx == 2 {
        0x3448
    } else {
        0x344A
    }
}

/// The attribute pairs describing plane `idx`: file descriptor, byte
/// offset, byte stride, and, only when a specific modifier was negotiated,
/// its low and high 32-bit halves.
pub open spec fn one_plane_attrs(p: PlaneDescriptor, modifier: Modifier, idx: int) -> Seq<i32> {
    let base = seq![
        fd_attr(idx),
        p.fd,
        offset_attr(idx),
        p.offset as i32,
        pitch_attr(idx),
        p.stride as i32,
    ];
    match modifier {
        Modifier::NoModifier => base,
        Modifier::Specific(m) => base + seq![
            modifier_lo_attr(idx),
            (m & 0xFFFF_FFFF) as i32,
            modifier_hi_attr(idx),
            (m >> 32) as i32,
        ],
    }
}

/// The attribute pairs of the first `n` planes, in order.
pub open spec fn plane_attrs_spec(planes: Seq<PlaneDescriptor>, modifier: Modifier, n: int) -> Seq<
    i32,
>
    decreases n,
{
    if n <= 0 {
        Seq::empty()
    } else {
        plane_attrs_spec(planes, modifier, n - 1) + one_plane_attrs(planes[n - 1], modifier, n - 1)
    }
}

/// The whole attribute list for importing a descriptor under a negotiated
/// format: size and fourcc first, then every plane, then the terminator.
pub open spec fn image_attrs_spec(fmt: NegotiatedFormat, planes: Seq<PlaneDescriptor>) -> Seq<
    i32,
> {
    seq![
        EGL_WIDTH,
        fmt.width as i32,
        EGL_HEIGHT,
        fmt.height as i32,
        EGL_LINUX_DRM_FOURCC_EXT,
        drm_format_spec(fmt.layout)->Some_0,
    ] + plane_attrs_spec(planes, fmt.modifier, planes.len() as int) + seq![EGL_NONE]
}

/// Flatten a delivered descriptor into the import layer's attribute list;
/// the modifier is opaque, and its halves enter the 32-bit attribute slots
/// as bit patterns.  Fails with `InvalidPlaneCount` exactly when the
/// descriptor carries no plane or more planes than the import layer has
/// slots for.
pub fn build_image_attributes(fmt: &NegotiatedFormat, desc: &BufferDescriptor) -> (r: Result<
    Vec<i32>,
    FrameError,
>)
    requires
        fmt.wf(),
    ensures
        r matches Ok(attrs) ==> desc.wf() && attrs@ =~= image_attrs_spec(*fmt, desc.planes@),
        r matches Err(e) ==> e == FrameError::InvalidPlaneCount && !desc.wf(),
{
    let n = desc.planes.len();
    if n == 0 || n > MAX_PLANES {
        return Err(FrameError::InvalidPlaneCount);
    }
    let fourcc = match crate::format::spa_pixel_format_to_drm_format(fmt.layout) {
        Some(f) => f,
        None => {
            proof {
                assert(false);
            }
            0
        },
    };
    let mut attrs: Vec<i32> = Vec::new();
    attrs.push(EGL_WIDTH);
    attrs.push(fmt.width as i32);
    attrs.push(EGL_HEIGHT);
    attrs.push(fmt.height as i32);
    attrs.push(EGL_LINUX_DRM_FOURCC_EXT);
    attrs.push(fourcc);
    let ghost header: Seq<i32> = attrs@;
    let mut idx: usize = 0;
    while idx < n
        invariant
            n == desc.planes@.len(),
            1 <= n <= MAX_PLANES,
            idx <= n,
            attrs@ =~= header + plane_attrs_spec(desc.planes@, fmt.modifier, idx as int),
        decreases n - idx,
    {
        let p = desc.planes[idx];
        attrs.push(fd_attr_at(idx));
        attrs.push(p.fd);
        attrs.push(offset_attr_at(idx));
        attrs.push(#[verifier::truncate] (p.offset as i32));
        attrs.push(pitch_attr_at(idx));
        attrs.push(#[verifier::truncate] (p.stride as i32));
        match fmt.modifier {
            Modifier::NoModifier => {},
            Modifier::Specific(m) => {
                attrs.push(modifier_lo_attr_at(idx));
                attrs.push(#[verifier::truncate] ((m & 0xFFFF_FFFF) as i32));
                attrs.push(modifier_hi_attr_at(idx));
                attrs.push(#[verifier::truncate] ((m >> 32) as i32));
            },
        }
        idx = idx + 1;
    }
    attrs.push(EGL_NONE);
    Ok(attrs)
}

/// Spread the leading items of a plane list over the import layer's four
/// fixed slots, filling the remainder with a given placeholder.
pub fn iter_to_array<T: Copy>(items: &Vec<T>, fill: T) -> (arr: [T; 4])
    ensures
        forall|i: int|
            0 <= i < 4 ==> arr@[i] == if i < items@.len() {
                items@[i]
            } else {
                fill
            },
{
    let a0 = if items.len() > 0 {
        items[0]
    } else {
        fill
    };
    let a1 = if items.len() > 1 {
        items[1]
    } else {
        fill
    };
    let a2 = if items.len() > 2 {
        items[2]
    } else {
        fill
    };
    let a3 = if items.len() > 3 {
        items[3]
    } else {
        fill
    };
    [a0, a1, a2, a3]
}

} // verus!
