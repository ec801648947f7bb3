//! Processing gate and frame transform pipeline: the callbacks that the
//! application supplies for the frame path, and the calls into them.
use crate::frame::Double;
use vstd::prelude::*;

verus! {

/// The transform of a session. At most one of the two variants is active.
pub enum FrameTransform<P, T> {
    /// No transform: frames pass unchanged.
    Unset,
    /// A transform of pixel memory.
    Pixel(P),
    /// A consumer of backend textures.
    Texture(T),
}

/// The callbacks of one video item.
///
/// - The pixel transform takes the frame index, the timestamp, the width,
///   the height, the stride and the pixels. It may write the pixels, and
///   gives back the width, height and stride of the frame that they hold
///   when it returns.
/// - The texture consumer takes the frame index, the timestamp, the width,
///   the height, the identifier of the backend and its five handles, and
///   says whether it handled the frame itself.
/// - The readiness predicate says whether the consumer takes another frame.
/// - The resize callback takes the new width and height of the surface.
///
/// Each slot holds at most one callback; registering another replaces it.
pub struct FrameCallbacks<P, T, G, R> where
    P: Fn(u32, Double, u32, u32, u32, &mut [u8]) -> (u32, u32, u32),
    T: Fn(u32, Double, u32, u32, u32, [u64; 5]) -> bool,
    G: Fn() -> bool,
    R: Fn(u32, u32),
 {
    transform: FrameTransform<P, T>,
    ready: Option<G>,
    resize: Option<R>,
}

/// `callback` can be called with every frame in pixel memory.
pub open spec fn accepts_pixels<P: Fn(u32, Double, u32, u32, u32, &mut [u8]) -> (u32, u32, u32)>(
    callback: P,
) -> bool {
    forall|
        frame: u32,
        timestamp: Double,
        width: u32,
        height: u32,
        stride: u32,
        pixels: &mut [u8],
    | call_requires(callback, (frame, timestamp, width, height, stride, pixels))
}

/// `callback` can be called with every backend texture.
pub open spec fn accepts_textures<T: Fn(u32, Double, u32, u32, u32, [u64; 5]) -> bool>(
    callback: T,
) -> bool {
    forall|
        frame: u32,
        timestamp: Double,
        width: u32,
        height: u32,
        backend_id: u32,
        handles: [u64; 5],
    | call_requires(callback, (frame, timestamp, width, height, backend_id, handles))
}

/// `callback` can be called with every surface size.
pub open spec fn accepts_sizes<R: Fn(u32, u32)>(callback: R) -> bool {
    forall|width: u32, height: u32| call_requires(callback, (width, height))
}

impl<P, T, G, R> FrameCallbacks<P, T, G, R> where
    P: Fn(u32, Double, u32, u32, u32, &mut [u8]) -> (u32, u32, u32),
    T: Fn(u32, Double, u32, u32, u32, [u64; 5]) -> bool,
    G: Fn() -> bool,
    R: Fn(u32, u32),
 {
    #[verifier::type_invariant]
    spec fn inv(&self) -> bool {
        &&& self.transform matches FrameTransform::Pixel(cb) ==> accepts_pixels(cb)
        &&& self.transform matches FrameTransform::Texture(cb) ==> accepts_textures(cb)
        &&& self.ready matches Some(cb) ==> call_requires(cb, ())
        &&& self.resize matches Some(cb) ==> accepts_sizes(cb)
    }

    /// The pixel transform, if that is the active variant.
    pub closed spec fn pixel(&self) -> Option<P> {
        match self.transform {
            FrameTransform::Pixel(cb) => Some(cb),
            _ => None,
        }
    }

    /// The texture consumer, if that is the active variant.
    pub closed spec fn texture(&self) -> Option<T> {
        match self.transform {
            FrameTransform::Texture(cb) => Some(cb),
            _ => None,
        }
    }

    /// The readiness predicate, if one is registered.
    pub closed spec fn gate(&self) -> Option<G> {
        self.ready
    }

    /// The resize callback, if one is registered.
    pub closed spec fn resize(&self) -> Option<R> {
        self.resize
    }

    /// `ready` is an answer that the processing gate may give: `true` where
    /// no predicate is registered, else what the predicate may return.
    pub open spec fn may_answer(&self, ready: bool) -> bool {
        match self.gate() {
            None => ready,
            Some(cb) => call_ensures(cb, (), ready),
        }
    }

    /// `handled` is what the texture path may say of a frame: `false` where
    /// no consumer is registered, else what the consumer may return for it.
    pub open spec fn consumes(
        &self,
        frame: u32,
        timestamp: Double,
        width: u32,
        height: u32,
        backend_id: u32,
        handles: [u64; 5],
        handled: bool,
    ) -> bool {
        match self.texture() {
            None => !handled,
            Some(cb) => call_ensures(
                cb,
                (frame, timestamp, width, height, backend_id, handles),
                handled,
            ),
        }
    }

    /// No callback is registered.
    pub open spec fn is_vacant(&self) -> bool {
        &&& self.pixel() is None
        &&& self.texture() is None
        &&& self.gate() is None
        &&& self.resize() is None
    }

    /// Slots without callbacks.
    pub fn new() -> (callbacks: Self)
        ensures
            callbacks.is_vacant(),
    {
        FrameCallbacks { transform: FrameTransform::Unset, ready: None, resize: None }
    }

    /// Makes `callback` the transform of the session, in place of any
    /// transform or texture consumer that was registered.
    pub fn set_pixel(&mut self, callback: P)
        requires
            accepts_pixels(callback),
        ensures
            final(self).pixel() == Some(callback),
            final(self).texture() is None,
            final(self).gate() == old(self).gate(),
            final(self).resize() == old(self).resize(),
    {
        proof {
            use_type_invariant(&*self);
        }
        self.transform = FrameTransform::Pixel(callback);
    }

    /// Makes `callback` the texture consumer of the session, in place of
    /// any transform or texture consumer that was registered.
    pub fn set_texture(&mut self, callback: T)
        requires
            accepts_textures(callback),
        ensures
            final(self).texture() == Some(callback),
            final(self).pixel() is None,
            final(self).gate() == old(self).gate(),
            final(self).resize() == old(self).resize(),
    {
        proof {
            use_type_invariant(&*self);
        }
        self.transform = FrameTransform::Texture(callback);
    }

    /// Registers the readiness predicate.
    pub fn set_ready(&mut self, callback: G)
        requires
            call_requires(callback, ()),
        ensures
            final(self).gate() == Some(callback),
            final(self).pixel() == old(self).pixel(),
            final(self).texture() == old(self).texture(),
            final(self).resize() == old(self).resize(),
    {
        proof {
            use_type_invariant(&*self);
        }
        self.ready = Some(callback);
    }

    /// Registers the resize callback.
    pub fn set_resize(&mut self, callback: R)
        requires
            accepts_sizes(callback),
        ensures
            final(self).resize() == Some(callback),
            final(self).pixel() == old(self).pixel(),
            final(self).texture() == old(self).texture(),
            final(self).gate() == old(self).gate(),
    {
        proof {
            use_type_invariant(&*self);
        }
        self.resize = Some(callback);
    }

    /// Drops every callback.
    pub fn clear(&mut self)
        ensures
            final(self).is_vacant(),
    {
        proof {
            use_type_invariant(&*self);
        }
        self.transform = FrameTransform::Unset;
        self.ready = None;
        self.resize = None;
    }

    /// Polls the processing gate: the answer of the readiness predicate, and
    /// `true` where none is registered.
    pub fn is_ready(&self) -> (ready: bool)
        ensures
            self.may_answer(ready),
    {
        proof {
            use_type_invariant(self);
        }
        match &self.ready {
            Some(cb) => cb(),
            None => true,
        }
    }

    /// Runs the pixel transform on one frame, in place, and gives back the
    /// geometry that it returned. Without a transform the pixels stay as
    /// they are and the geometry is the one that came.
    pub fn transform_pixels(
        &self,
        frame: u32,
        timestamp: Double,
        width: u32,
        height: u32,
        stride: u32,
        pixels: &mut [u8],
    ) -> (out: (u32, u32, u32))
        ensures
            match self.pixel() {
                None => out == (width, height, stride) && final(pixels)@ == old(pixels)@,
                Some(cb) => exists|given: &mut [u8]|
                    {
                        &&& given@ == old(pixels)@
                        &&& final(given)@ == final(pixels)@
                        &&& #[trigger] call_ensures(
                            cb,
                            (frame, timestamp, width, height, stride, given),
                            out,
                        )
                    },
            },
    {
        proof {
            use_type_invariant(self);
        }
        match &self.transform {
            FrameTransform::Pixel(cb) => {
                let ghost before = pixels@;
                let out = cb(frame, timestamp, width, height, stride, pixels);
                assert(self.pixel() == Some(*cb));
                assert(self.pixel()->0 == *cb);
                assert(exists|given: &mut [u8]|
                    {
                        &&& given@ == before
                        &&& final(given)@ == pixels@
                        &&& #[trigger] call_ensures(
                            *cb,
                            (frame, timestamp, width, height, stride, given),
                            out,
                        )
                    });
                assert(exists|given: &mut [u8]|
                    {
                        &&& given@ == before
                        &&& final(given)@ == pixels@
                        &&& #[trigger] call_ensures(
                            self.pixel()->0,
                            (frame, timestamp, width, height, stride, given),
                            out,
                        )
                    });
                out
            },
            _ => (width, height, stride),
        }
    }

    /// Offers one backend texture to the texture consumer and says whether
    /// it handled the frame; without a consumer, `false`.
    pub fn transform_texture(
        &self,
        frame: u32,
        timestamp: Double,
        width: u32,
        height: u32,
        backend_id: u32,
        handles: [u64; 5],
    ) -> (handled: bool)
        ensures
            self.consumes(frame, timestamp, width, height, backend_id, handles, handled),
    {
        proof {
            use_type_invariant(self);
        }
        match &self.transform {
            FrameTransform::Texture(cb) => cb(frame, timestamp, width, height, backend_id, handles),
            _ => false,
        }
    }

    /// Tells the resize callback the new size of the surface. Returns
    /// whether there was a callback to tell.
    pub fn notify_resize(&self, width: u32, height: u32) -> (told: bool)
        ensures
            told == self.resize() is Some,
            self.resize() matches Some(cb) ==> call_ensures(cb, (width, height), ()),
    {
        proof {
            use_type_invariant(self);
        }
        match &self.resize {
            Some(cb) => {
                cb(width, height);
                true
            },
            None => false,
        }
    }
}

} // verus!
