//! Callback lifetime manager: a callback handed over by the application is
//! kept through any number of invocations and given up exactly once.
use crate::frame::{Double, FrameDescriptor};
use vstd::prelude::*;

verus! {

/// What happens to a registered callback.
pub enum CallbackEvent {
    /// Delivery of the frame with this index; a negative index is the last one.
    Invoke(i32),
    /// Explicit release at teardown.
    Release,
}

/// History of one registration: whether the callback is still held, how
/// often it was called and how often it was given up.
pub struct Lifecycle {
    pub live: bool,
    pub invocations: nat,
    pub releases: nat,
}

/// What one delivery did.
#[derive(Clone, Copy, Debug, PartialEq, Eq, Structural)]
pub enum Invocation {
    /// The callback ran and stays registered.
    Delivered,
    /// The callback ran for the last time and was given up.
    DeliveredLast,
    /// Nothing was registered any more; nothing ran.
    Ignored,
}

impl Lifecycle {
    /// A registration that has just been made.
    pub open spec fn fresh() -> Lifecycle {
        Lifecycle { live: true, invocations: 0, releases: 0 }
    }

    /// The history after one more event. A released callback ignores every
    /// event; a live one runs on each delivery and is given up by a
    /// terminal delivery or by an explicit release.
    pub open spec fn step(self, event: CallbackEvent) -> Lifecycle {
        if !self.live {
            self
        } else {
            match event {
                CallbackEvent::Invoke(frame) => if frame >= 0 {
                    Lifecycle { invocations: self.invocations + 1, ..self }
                } else {
                    Lifecycle {
                        live: false,
                        invocations: self.invocations + 1,
                        releases: self.releases + 1,
                    }
                },
                CallbackEvent::Release => Lifecycle {
                    live: false,
                    releases: self.releases + 1,
                    ..self
                },
            }
        }
    }

    /// The history after a sequence of events, first to last.
    pub open spec fn run(self, events: Seq<CallbackEvent>) -> Lifecycle
        decreases events.len(),
    {
        if events.len() == 0 {
            self
        } else {
            self.run(events.drop_last()).step(events.last())
        }
    }

    /// What a delivery of `frame` reports in this state.
    pub open spec fn outcome(self, frame: i32) -> Invocation {
        if !self.live {
            Invocation::Ignored
        } else if frame >= 0 {
            Invocation::Delivered
        } else {
            Invocation::DeliveredLast
        }
    }
}

/// An event that gives the callback up when it meets a live registration.
pub open spec fn is_final(event: CallbackEvent) -> bool {
    match event {
        CallbackEvent::Invoke(frame) => frame < 0,
        CallbackEvent::Release => true,
    }
}

/// `callback` can be called with every frame of a processing pass.
pub open spec fn accepts_frames<F: FnMut(i32, Double, u32, u32, &mut [u8])>(callback: F) -> bool {
    forall|frame: i32, timestamp: Double, width: u32, height: u32, pixels: &mut [u8]|
        call_requires(callback, (frame, timestamp, width, height, pixels))
}

/// A callback for processed frames, owned on behalf of the application.
///
/// The callback takes the frame index, the timestamp, the width, the height
/// and the pixels of each frame, which it may write. It is called through
/// without being consumed until a delivery with a negative index, which is
/// its last.
pub struct RegisteredCallback<F: FnMut(i32, Double, u32, u32, &mut [u8])> {
    callback: Option<F>,
    history: Ghost<Lifecycle>,
}

impl<F: FnMut(i32, Double, u32, u32, &mut [u8])> RegisteredCallback<F> {
    #[verifier::type_invariant]
    spec fn inv(&self) -> bool {
        self.callback matches Some(cb) ==> accepts_frames(cb)
    }

    /// The history of this registration.
    pub closed spec fn lifecycle(&self) -> Lifecycle {
        Lifecycle { live: self.callback is Some, ..self.history@ }
    }

    /// The callback that is held, if any.
    pub closed spec fn callback(&self) -> Option<F> {
        self.callback
    }

    /// Takes ownership of `callback`, which must accept every frame.
    pub fn register(callback: F) -> (registered: Self)
        requires
            accepts_frames(callback),
        ensures
            registered.lifecycle() == Lifecycle::fresh(),
            registered.callback() == Some(callback),
            registered.callback() is Some <==> registered.lifecycle().live,
    {
        RegisteredCallback { callback: Some(callback), history: Ghost(Lifecycle::fresh()) }
    }

    /// Whether the callback is still held.
    pub fn is_live(&self) -> (live: bool)
        ensures
            live == self.lifecycle().live,
    {
        proof {
            use_type_invariant(self);
        }
        self.callback.is_some()
    }

    /// Delivers one frame. A live callback is taken out of its store, called
    /// with the arguments as given on the pixels as they are and, unless
    /// `frame` is negative, put back; after a negative `frame` it is
    /// dropped. What the callback wrote stays in `pixels`. On a released
    /// registration nothing happens and the pixels are as they were.
    pub fn invoke(
        &mut self,
        frame: i32,
        timestamp: Double,
        width: u32,
        height: u32,
        pixels: &mut [u8],
    ) -> (outcome: Invocation)
        ensures
            outcome == old(self).lifecycle().outcome(frame),
            final(self).lifecycle() == old(self).lifecycle().step(CallbackEvent::Invoke(frame)),
            final(self).callback() is Some <==> final(self).lifecycle().live,
            final(self).lifecycle().live ==> final(self).callback() == old(self).callback(),
            match old(self).callback() {
                Some(cb) => exists|given: &mut [u8]|
                    {
                        &&& given@ == old(pixels)@
                        &&& final(given)@ == final(pixels)@
                        &&& #[trigger] call_ensures(
                            cb,
                            (frame, timestamp, width, height, given),
                            (),
                        )
                    },
                None => final(pixels)@ == old(pixels)@,
            },
    {
        proof {
            use_type_invariant(&*self);
        }
        let ghost before = self.lifecycle();
        let delivered = FrameDescriptor::processing(frame, timestamp, width, height, pixels.len());
        let mut taken: Option<F> = None;
        core::mem::swap(&mut self.callback, &mut taken);
        match taken {
            Some(mut cb) => {
                cb(frame, timestamp, width, height, pixels);
                self.history = Ghost(before.step(CallbackEvent::Invoke(frame)));
                if delivered.is_terminal() {
                    Invocation::DeliveredLast
                } else {
                    self.callback = Some(cb);
                    Invocation::Delivered
                }
            },
            None => Invocation::Ignored,
        }
    }

    /// Gives the callback up without calling it. Returns whether there was
    /// one to give up; on a released registration nothing happens.
    pub fn release(&mut self) -> (released: bool)
        ensures
            released == old(self).lifecycle().live,
            final(self).lifecycle() == old(self).lifecycle().step(CallbackEvent::Release),
            final(self).callback() is None,
            final(self).callback() is Some <==> final(self).lifecycle().live,
    {
        proof {
            use_type_invariant(&*self);
        }
        if self.callback.is_some() {
            let ghost before = self.lifecycle();
            self.callback = None;
            self.history = Ghost(before.step(CallbackEvent::Release));
            true
        } else {
            false
        }
    }
}

/// Deliveries with non-negative indices never give the callback up: after
/// any number of them a live registration is still live, has released
/// nothing more, and has run once per delivery.
pub proof fn lemma_non_terminal_keeps_callback(start: Lifecycle, frames: Seq<i32>)
    requires
        start.live,
        forall|i: int| 0 <= i < frames.len() ==> frames[i] >= 0,
    ensures
        start.run(frames.map_values(|f: i32| CallbackEvent::Invoke(f))).live,
        start.run(frames.map_values(|f: i32| CallbackEvent::Invoke(f))).releases
            == start.releases,
        start.run(frames.map_values(|f: i32| CallbackEvent::Invoke(f))).invocations
            == start.invocations + frames.len(),
    decreases frames.len(),
{
    let events = frames.map_values(|f: i32| CallbackEvent::Invoke(f));
    if frames.len() > 0 {
        lemma_non_terminal_keeps_callback(start, frames.drop_last());
        assert(events.drop_last() =~= frames.drop_last().map_values(
            |f: i32| CallbackEvent::Invoke(f),
        ));
        assert(events.last() == CallbackEvent::Invoke(frames.last()));
    }
}

/// Nothing reaches a released callback: whatever events follow, the history
/// stays as it is.
pub proof fn lemma_released_ignores_events(start: Lifecycle, events: Seq<CallbackEvent>)
    requires
        !start.live,
    ensures
        start.run(events) == start,
    decreases events.len(),
{
    if events.len() > 0 {
        lemma_released_ignores_events(start, events.drop_last());
    }
}

/// A callback is given up at most once, and exactly once as soon as a
/// terminal delivery or a release has met it: over any sequence of events a
/// fresh registration ends released with one release if the sequence holds
/// such an event, and live with none otherwise. It has then run once for
/// each delivery up to and including the first such event, and for none
/// after it.
pub proof fn lemma_released_exactly_once(events: Seq<CallbackEvent>)
    ensures
        Lifecycle::fresh().run(events).live <==> forall|i: int|
            0 <= i < events.len() ==> !is_final(#[trigger] events[i]),
        Lifecycle::fresh().run(events).releases == (if Lifecycle::fresh().run(events).live {
            0nat
        } else {
            1nat
        }),
        Lifecycle::fresh().run(events).invocations == deliveries_until_final(events),
    decreases events.len(),
{
    if events.len() > 0 {
        let head = events.drop_last();
        lemma_released_exactly_once(head);
        let mid = Lifecycle::fresh().run(head);
        if mid.live {
            assert forall|i: int| 0 <= i < head.len() implies !is_final(#[trigger] events[i]) by {
                assert(head[i] == events[i]);
            }
            if is_final(events.last()) {
                assert(is_final(events[events.len() - 1]));
            }
        } else {
            let i = choose|i: int| 0 <= i < head.len() && is_final(#[trigger] head[i]);
            assert(head[i] == events[i]);
            assert(is_final(events[i]));
        }
    }
}

/// Deliveries in `events` up to and including the first event that gives the
/// callback up.
pub open spec fn deliveries_until_final(events: Seq<CallbackEvent>) -> nat
    decreases events.len(),
{
    if events.len() == 0 {
        0
    } else {
        let head = events.drop_last();
        if exists|i: int| 0 <= i < head.len() && is_final(#[trigger] head[i]) {
            deliveries_until_final(head)
        } else {
            match events.last() {
                CallbackEvent::Invoke(_) => deliveries_until_final(head) + 1,
                CallbackEvent::Release => deliveries_until_final(head),
            }
        }
    }
}

} // verus!
