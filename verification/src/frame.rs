//! Frame buffer view: what is known of one decoded frame while it is delivered.
use vstd::prelude::*;

verus! {

/// A double-precision number held by its IEEE-754 bit pattern.
///
/// Timestamps, durations and rates pass through the item unchanged; it stores
/// them, tells whether two of them are the same pattern and forwards them,
/// and never computes with them.
#[derive(Clone, Copy, Debug, PartialEq, Eq, Structural)]
pub struct Double {
    pub bits: u64,
}

impl Double {
    /// The number whose pattern is `bits`.
    pub fn from_bits(bits: u64) -> (d: Self)
        ensures
            d.bits == bits,
    {
        Double { bits }
    }

    /// The pattern of this number.
    pub fn to_bits(self) -> (bits: u64)
        ensures
            bits == self.bits,
    {
        self.bits
    }
}

/// Where the content of a frame lives.
#[derive(Clone, Copy, Debug)]
pub enum FrameResources {
    /// CPU-resident pixel memory of `byte_len` bytes.
    Pixels { byte_len: u64 },
    /// Resources of a graphics backend: its identifier and five opaque
    /// handles whose meaning only that backend knows.
    Texture { backend_id: u32, handles: [u64; 5] },
}

/// What a frame is good for, as far as its descriptor tells.
#[derive(Clone, Copy, Debug, PartialEq, Eq, Structural)]
pub enum FrameKind {
    /// A zero-sized frame: a signal without content, not an error.
    Signal,
    /// Pixel memory shorter than `stride * height` bytes.
    Malformed,
    /// A frame with content that a transform or the compositor may read.
    Presentable,
}

/// Bytes that `height` rows of `stride` bytes occupy.
pub open spec fn rows_len(stride: u32, height: u32) -> int {
    stride * height
}

/// A frame of `width` by `height` pixels in rows of `stride` bytes can be
/// read from `len` bytes: it has an area and its rows fit.
pub open spec fn readable(width: u32, height: u32, stride: u32, len: nat) -> bool {
    width > 0 && height > 0 && rows_len(stride, height) <= len
}

/// Non-owning description of one decoded frame. It is made for one delivery
/// and describes memory that belongs to somebody else.
#[derive(Clone, Copy, Debug)]
pub struct FrameDescriptor {
    pub frame_index: i64,
    pub timestamp: Double,
    pub width: u32,
    pub height: u32,
    pub stride: u32,
    pub resources: FrameResources,
}

impl FrameDescriptor {
    /// Neither dimension is zero.
    pub open spec fn has_area(&self) -> bool {
        self.width > 0 && self.height > 0
    }

    /// The frame index is the sentinel of a last delivery.
    pub open spec fn terminal(&self) -> bool {
        self.frame_index < 0
    }

    /// Bytes that `height` rows of `stride` bytes occupy.
    pub open spec fn required_len(&self) -> int {
        rows_len(self.stride, self.height)
    }

    /// The descriptor of a frame in pixel memory of `byte_len` bytes.
    pub open spec fn of_pixels(
        frame: u32,
        timestamp: Double,
        width: u32,
        height: u32,
        stride: u32,
        byte_len: nat,
    ) -> FrameDescriptor {
        FrameDescriptor {
            frame_index: frame as i64,
            timestamp,
            width,
            height,
            stride,
            resources: FrameResources::Pixels { byte_len: byte_len as u64 },
        }
    }

    /// The descriptor of a frame of a processing pass in pixel memory of
    /// `byte_len` bytes. Such a frame has no stride of its own, and a
    /// negative index marks the last delivery of the pass.
    pub open spec fn of_processing(
        frame: i32,
        timestamp: Double,
        width: u32,
        height: u32,
        byte_len: nat,
    ) -> FrameDescriptor {
        FrameDescriptor {
            frame_index: frame as i64,
            timestamp,
            width,
            height,
            stride: 0,
            resources: FrameResources::Pixels { byte_len: byte_len as u64 },
        }
    }

    /// The descriptor of a frame held by a graphics backend.
    pub open spec fn of_texture(
        frame: u32,
        timestamp: Double,
        width: u32,
        height: u32,
        backend_id: u32,
        handles: [u64; 5],
    ) -> FrameDescriptor {
        FrameDescriptor {
            frame_index: frame as i64,
            timestamp,
            width,
            height,
            stride: 0,
            resources: FrameResources::Texture { backend_id, handles },
        }
    }

    /// The kind of this frame: a signal when it has no area, malformed when
    /// its pixel memory cannot hold its rows, presentable otherwise.
    pub open spec fn kind(&self) -> FrameKind {
        if !self.has_area() {
            FrameKind::Signal
        } else {
            match self.resources {
                FrameResources::Pixels { byte_len } => if self.required_len() <= byte_len {
                    FrameKind::Presentable
                } else {
                    FrameKind::Malformed
                },
                FrameResources::Texture { .. } => FrameKind::Presentable,
            }
        }
    }

    /// Descriptor of a frame in pixel memory of `byte_len` bytes.
    pub fn pixels(
        frame: u32,
        timestamp: Double,
        width: u32,
        height: u32,
        stride: u32,
        byte_len: usize,
    ) -> (d: Self)
        ensures
            d == Self::of_pixels(frame, timestamp, width, height, stride, byte_len as nat),
            d.kind() == FrameKind::Presentable <==> readable(width, height, stride, byte_len as nat),
    {
        FrameDescriptor {
            frame_index: frame as i64,
            timestamp,
            width,
            height,
            stride,
            resources: FrameResources::Pixels { byte_len: byte_len as u64 },
        }
    }

    /// Descriptor of a frame of a processing pass in pixel memory of
    /// `byte_len` bytes. It is terminal exactly if `frame` is negative.
    pub fn processing(
        frame: i32,
        timestamp: Double,
        width: u32,
        height: u32,
        byte_len: usize,
    ) -> (d: Self)
        ensures
            d == Self::of_processing(frame, timestamp, width, height, byte_len as nat),
            d.terminal() <==> frame < 0,
    {
        FrameDescriptor {
            frame_index: frame as i64,
            timestamp,
            width,
            height,
            stride: 0,
            resources: FrameResources::Pixels { byte_len: byte_len as u64 },
        }
    }

    /// Descriptor of a frame held by a graphics backend.
    pub fn texture(
        frame: u32,
        timestamp: Double,
        width: u32,
        height: u32,
        backend_id: u32,
        handles: [u64; 5],
    ) -> (d: Self)
        ensures
            d == Self::of_texture(frame, timestamp, width, height, backend_id, handles),
    {
        FrameDescriptor {
            frame_index: frame as i64,
            timestamp,
            width,
            height,
            stride: 0,
            resources: FrameResources::Texture { backend_id, handles },
        }
    }

    /// Whether a dimension is zero.
    pub fn is_empty(&self) -> (empty: bool)
        ensures
            empty == !self.has_area(),
    {
        self.width == 0 || self.height == 0
    }

    /// Whether this is the last delivery of its callback.
    pub fn is_terminal(&self) -> (last: bool)
        ensures
            last == self.terminal(),
    {
        self.frame_index < 0
    }

    /// Bytes that the rows of this frame occupy.
    pub fn min_len(&self) -> (len: u64)
        ensures
            len == self.required_len(),
    {
        assert(self.stride * self.height <= 0xffff_ffff * 0xffff_ffff) by (nonlinear_arith)
            requires
                self.stride <= 0xffff_ffff,
                self.height <= 0xffff_ffff,
        ;
        let stride: u64 = self.stride as u64;
        let height: u64 = self.height as u64;
        stride * height
    }

    /// The kind of this frame.
    pub fn classify(&self) -> (kind: FrameKind)
        ensures
            kind == self.kind(),
    {
        if self.is_empty() {
            FrameKind::Signal
        } else {
            match self.resources {
                FrameResources::Pixels { byte_len } => {
                    if self.min_len() <= byte_len {
                        FrameKind::Presentable
                    } else {
                        FrameKind::Malformed
                    }
                },
                FrameResources::Texture { .. } => FrameKind::Presentable,
            }
        }
    }
}

} // verus!
