//! The video item: the state that the user interface sees, the render node
//! and the callbacks of one item, and every decision taken between them.
use crate::callback::{accepts_frames, Lifecycle, RegisteredCallback};
use crate::config::{accepts_log_lines, ProcessConfig};
use crate::counter::{bump, next_count};
use crate::frame::{readable, Double, FrameDescriptor, FrameKind};
use crate::pipeline::{accepts_pixels, accepts_sizes, accepts_textures, FrameCallbacks};
use crate::scene::{NodePhase, PaintPass, SceneNodeSynchronizer, SurfaceSize};
use crate::video_player::{CallbackHandle, MDKPlayerWrapper, PlayerCommand, PlayerState, Rgba};
use vstd::prelude::*;

verus! {

/// A notification that the item owes the user interface.
#[derive(Clone, Copy, Debug, PartialEq, Eq, Structural)]
pub enum ItemSignal {
    PlayingChanged,
    CurrentFrameChanged,
    TimestampChanged,
    MutedChanged,
    MetadataChanged,
    /// The item asks to be painted again.
    RepaintRequested,
}

/// What became of a frame in pixel memory.
#[derive(Clone, Copy, Debug, PartialEq, Eq, Structural)]
pub enum PixelDelivery {
    /// The frame belongs to a session that is over, or there is no node to
    /// show it. Nothing happened.
    Stale,
    /// The frame has no area. It is a signal without content.
    Empty,
    /// The pixel memory is shorter than the rows of the frame.
    Malformed,
    /// The processing gate was not ready for the frame.
    Declined,
    /// The transform gave back a frame that cannot be read. It is dropped.
    Faulted,
    /// The pixels hold a frame of this geometry to show, and the content of
    /// the node is marked dirty for it.
    Rendered { width: u32, height: u32, stride: u32 },
}

/// What became of a frame held by a graphics backend.
#[derive(Clone, Copy, Debug, PartialEq, Eq, Structural)]
pub enum TextureDelivery {
    /// The frame belongs to a session that is over, or there is no node to
    /// show it. Nothing happened.
    Stale,
    /// The frame has no area. It is a signal without content.
    Empty,
    /// The processing gate was not ready for the frame.
    Declined,
    /// The consumer handled the frame itself; it is not rendered.
    Handled,
    /// The frame goes the default render path, and the content of the node
    /// is marked dirty for it.
    Passed,
}

/// What a video item looks like from outside.
pub struct ItemState {
    pub playing: bool,
    pub current_frame: i64,
    pub timestamp: Double,
    pub url: Seq<char>,
    pub video_width: u32,
    pub video_height: u32,
    pub surface_width: u32,
    pub surface_height: u32,
    pub duration: Double,
    pub frame_count: i64,
    pub frame_rate: Double,
    pub node: SceneNodeSynchronizer,
    /// Frames that the decode engine offered in their own session.
    pub frames_offered: u64,
    pub player: PlayerState,
    /// Notifications that the host has not taken yet, oldest first.
    pub signals: Seq<ItemSignal>,
}

impl ItemState {
    /// The item as it is constructed.
    pub open spec fn initial() -> ItemState {
        ItemState {
            playing: false,
            current_frame: 0,
            timestamp: Double { bits: 0 },
            url: Seq::empty(),
            video_width: 0,
            video_height: 0,
            surface_width: 0,
            surface_height: 0,
            duration: Double { bits: 0 },
            frame_count: 0,
            frame_rate: Double { bits: 0 },
            node: SceneNodeSynchronizer::initial(),
            frames_offered: 0,
            player: PlayerState { commands: Seq::empty(), session: 0 },
            signals: Seq::empty(),
        }
    }

    /// After `command` was queued for the decode engine.
    pub open spec fn send(self, command: PlayerCommand) -> ItemState {
        ItemState { player: self.player.send(command), ..self }
    }

    /// After `signal` was queued for the user interface.
    pub open spec fn emit(self, signal: ItemSignal) -> ItemState {
        ItemState { signals: self.signals.push(signal), ..self }
    }

    /// After a redraw was asked of the decode engine.
    pub open spec fn redraw(self) -> ItemState {
        self.send(PlayerCommand::ForceRedraw)
    }

    /// After playback was stopped, which ends the session.
    pub open spec fn stop(self) -> ItemState {
        ItemState { player: self.player.send(PlayerCommand::Stop).next_session(), ..self }
    }

    /// After the mute state was set.
    pub open spec fn set_muted(self, v: bool) -> ItemState {
        self.send(PlayerCommand::SetMuted { muted: v }).emit(ItemSignal::MutedChanged)
    }

    /// After another source was opened while the engine was muted or not as
    /// `prev_muted` says. Playback counts as stopped, the session ends, the
    /// mute state is carried over to the new source, and a redraw is asked.
    pub open spec fn set_url(self, url: String, prev_muted: bool) -> ItemState {
        let halted = (ItemState { playing: false, ..self }).emit(ItemSignal::PlayingChanged);
        let opened = ItemState {
            url: url@,
            player: halted.player.send(PlayerCommand::SetUrl { url }).next_session(),
            ..halted
        };
        opened.set_muted(prev_muted).redraw()
    }

    /// After the engine rendered the frame `frame` at `timestamp`. The pair
    /// is taken over and both changes are notified unless it is the pair
    /// already held; a pair from earlier in the source is a change like any
    /// other.
    pub open spec fn frame_rendered(self, timestamp: Double, frame: i64) -> ItemState {
        if timestamp != self.timestamp || frame != self.current_frame {
            (ItemState { timestamp, current_frame: frame, ..self }).emit(
                ItemSignal::TimestampChanged,
            ).emit(ItemSignal::CurrentFrameChanged)
        } else {
            self
        }
    }

    /// After the engine loaded a source with these properties.
    pub open spec fn video_loaded(
        self,
        duration: Double,
        frame_count: i64,
        frame_rate: Double,
        width: u32,
        height: u32,
    ) -> ItemState {
        (ItemState {
            duration,
            frame_count,
            frame_rate,
            video_width: width,
            video_height: height,
            ..self
        }).emit(ItemSignal::MetadataChanged)
    }

    /// After the engine reported its state; state 1 is playing.
    pub open spec fn state_changed(self, state: i32) -> ItemState {
        (ItemState { playing: state == 1, ..self }).emit(ItemSignal::PlayingChanged)
    }

    /// After an explicit surface size was set.
    pub open spec fn set_surface_size(self, width: u32, height: u32) -> ItemState {
        (ItemState { surface_width: width, surface_height: height, ..self }).emit(
            ItemSignal::MetadataChanged,
        ).redraw()
    }

    /// After the item's geometry changed.
    pub open spec fn geometry_changed(self) -> ItemState {
        (ItemState { node: self.node.after_geometry_change(), ..self }).redraw().emit(
            ItemSignal::RepaintRequested,
        )
    }

    /// After the item was asked to give its resources up. The first request
    /// tears the session down and ends the node; an item that is released
    /// already stays as it is.
    pub open spec fn release_resources(self) -> ItemState {
        if self.node.phase == NodePhase::Released {
            self
        } else {
            ItemState {
                node: self.node.after_release(),
                player: self.player.send(PlayerCommand::DestroyPlayer).next_session(),
                ..self
            }
        }
    }

    /// The explicit surface size.
    pub open spec fn explicit_size(self) -> SurfaceSize {
        SurfaceSize { width: self.surface_width, height: self.surface_height }
    }

    /// What a paint pass does when the layout has the size `layout`.
    pub open spec fn paint_pass(self, layout: SurfaceSize) -> PaintPass {
        self.node.pass(self.explicit_size(), layout, self.player.session)
    }

    /// After a paint pass.
    pub open spec fn after_paint(self) -> ItemState {
        ItemState { node: self.node.after_paint(self.player.session), ..self }
    }

    /// Whether a frame delivered under `handle` is taken: the handle names
    /// the current session and the node receives frames of it.
    pub open spec fn accepts(self, handle: CallbackHandle) -> bool {
        handle.session == self.player.session && self.node.receives(handle.session)
    }

    /// After a frame was delivered under `handle`. A frame that is not taken
    /// changes nothing. A frame that is taken is counted; where it is shown,
    /// the content of the node is marked dirty for it, once.
    pub open spec fn after_delivery(self, handle: CallbackHandle, shown: bool) -> ItemState {
        if !self.accepts(handle) {
            self
        } else {
            ItemState {
                frames_offered: bump(self.frames_offered),
                node: if shown {
                    self.node.after_frame()
                } else {
                    self.node
                },
                ..self
            }
        }
    }
}

/// A video item with its four callback slots: pixel transform `P`, texture
/// consumer `T`, readiness predicate `G` and resize callback `R`.
///
/// The item never acts on the decode engine or the user interface itself.
/// Its methods queue commands in `m_player` and notifications in `signals`;
/// the host takes both and performs them.
pub struct MDKVideoItem<P, T, G, R> where
    P: Fn(u32, Double, u32, u32, u32, &mut [u8]) -> (u32, u32, u32),
    T: Fn(u32, Double, u32, u32, u32, [u64; 5]) -> bool,
    G: Fn() -> bool,
    R: Fn(u32, u32),
 {
    pub playing: bool,
    pub currentFrame: i64,
    pub timestamp: Double,
    pub url: String,
    pub videoWidth: u32,
    pub videoHeight: u32,
    pub surfaceWidth: u32,
    pub surfaceHeight: u32,
    pub duration: Double,
    pub frameCount: i64,
    pub frameRate: Double,
    pub node: SceneNodeSynchronizer,
    pub frames_offered: u64,
    pub m_player: MDKPlayerWrapper,
    pub signals: Vec<ItemSignal>,
    pub callbacks: FrameCallbacks<P, T, G, R>,
}

impl<P, T, G, R> MDKVideoItem<P, T, G, R> where
    P: Fn(u32, Double, u32, u32, u32, &mut [u8]) -> (u32, u32, u32),
    T: Fn(u32, Double, u32, u32, u32, [u64; 5]) -> bool,
    G: Fn() -> bool,
    R: Fn(u32, u32),
 {
    /// What the item looks like from outside; `item@` for short. The
    /// callbacks are no part of it: each contract says in a clause of its
    /// own what becomes of them.
    pub open spec fn view(&self) -> ItemState {
        ItemState {
            playing: self.playing,
            current_frame: self.currentFrame,
            timestamp: self.timestamp,
            url: self.url@,
            video_width: self.videoWidth,
            video_height: self.videoHeight,
            surface_width: self.surfaceWidth,
            surface_height: self.surfaceHeight,
            duration: self.duration,
            frame_count: self.frameCount,
            frame_rate: self.frameRate,
            node: self.node,
            frames_offered: self.frames_offered,
            player: self.m_player@,
            signals: self.signals@,
        }
    }

    /// `delivery` is a result that the pixel path may give for a frame of
    /// this geometry in `len` bytes: the one that the session, the shape of
    /// the frame and the answer of the processing gate leave. What the
    /// transform made of the pixels is not told here.
    pub open spec fn explains_pixels(
        &self,
        handle: CallbackHandle,
        width: u32,
        height: u32,
        stride: u32,
        len: nat,
        delivery: PixelDelivery,
    ) -> bool {
        let presentable = readable(width, height, stride, len);
        match delivery {
            PixelDelivery::Stale => !self@.accepts(handle),
            PixelDelivery::Empty => self@.accepts(handle) && (width == 0 || height == 0),
            PixelDelivery::Malformed => {
                &&& self@.accepts(handle)
                &&& width > 0 && height > 0
                &&& !presentable
            },
            PixelDelivery::Declined => {
                &&& self@.accepts(handle)
                &&& presentable
                &&& self.callbacks.may_answer(false)
            },
            PixelDelivery::Faulted => {
                &&& self@.accepts(handle)
                &&& presentable
                &&& self.callbacks.may_answer(true)
                &&& self.callbacks.pixel() is Some
            },
            PixelDelivery::Rendered { .. } => {
                &&& self@.accepts(handle)
                &&& presentable
                &&& self.callbacks.may_answer(true)
            },
        }
    }

    /// `delivery` is a result that the texture path may give for this frame.
    pub open spec fn explains_texture(
        &self,
        handle: CallbackHandle,
        frame: u32,
        timestamp: Double,
        width: u32,
        height: u32,
        backend_id: u32,
        handles: [u64; 5],
        delivery: TextureDelivery,
    ) -> bool {
        let has_area = width > 0 && height > 0;
        match delivery {
            TextureDelivery::Stale => !self@.accepts(handle),
            TextureDelivery::Empty => self@.accepts(handle) && !has_area,
            TextureDelivery::Declined => {
                &&& self@.accepts(handle)
                &&& has_area
                &&& self.callbacks.may_answer(false)
            },
            TextureDelivery::Handled => {
                &&& self@.accepts(handle)
                &&& has_area
                &&& self.callbacks.may_answer(true)
                &&& self.callbacks.consumes(
                    frame,
                    timestamp,
                    width,
                    height,
                    backend_id,
                    handles,
                    true,
                )
            },
            TextureDelivery::Passed => {
                &&& self@.accepts(handle)
                &&& has_area
                &&& self.callbacks.may_answer(true)
                &&& self.callbacks.consumes(
                    frame,
                    timestamp,
                    width,
                    height,
                    backend_id,
                    handles,
                    false,
                )
            },
        }
    }

    /// An item without a source, without a node and without callbacks.
    pub fn new() -> (item: Self)
        ensures
            item@ == ItemState::initial(),
            item.callbacks.is_vacant(),
    {
        MDKVideoItem {
            playing: false,
            currentFrame: 0,
            timestamp: Double { bits: 0 },
            url: String::new(),
            videoWidth: 0,
            videoHeight: 0,
            surfaceWidth: 0,
            surfaceHeight: 0,
            duration: Double { bits: 0 },
            frameCount: 0,
            frameRate: Double { bits: 0 },
            node: SceneNodeSynchronizer::new(),
            frames_offered: 0,
            m_player: MDKPlayerWrapper::new(),
            signals: Vec::new(),
            callbacks: FrameCallbacks::new(),
        }
    }

    /// Registers the pixel transform, which must accept every frame. It
    /// takes the place of any transform or texture consumer.
    pub fn onProcessPixels(&mut self, cb: P)
        requires
            accepts_pixels(cb),
        ensures
            final(self)@ == old(self)@,
            final(self).callbacks.pixel() == Some(cb),
            final(self).callbacks.texture() is None,
            final(self).callbacks.gate() == old(self).callbacks.gate(),
            final(self).callbacks.resize() == old(self).callbacks.resize(),
    {
        self.callbacks.set_pixel(cb);
    }

    /// Registers the texture consumer, which must accept every frame. It
    /// takes the place of any transform or texture consumer.
    pub fn onProcessTexture(&mut self, cb: T)
        requires
            accepts_textures(cb),
        ensures
            final(self)@ == old(self)@,
            final(self).callbacks.texture() == Some(cb),
            final(self).callbacks.pixel() is None,
            final(self).callbacks.gate() == old(self).callbacks.gate(),
            final(self).callbacks.resize() == old(self).callbacks.resize(),
    {
        self.callbacks.set_texture(cb);
    }

    /// Registers the readiness predicate of the processing gate.
    pub fn onReadyForProcessing(&mut self, cb: G)
        requires
            call_requires(cb, ()),
        ensures
            final(self)@ == old(self)@,
            final(self).callbacks.gate() == Some(cb),
            final(self).callbacks.pixel() == old(self).callbacks.pixel(),
            final(self).callbacks.texture() == old(self).callbacks.texture(),
            final(self).callbacks.resize() == old(self).callbacks.resize(),
    {
        self.callbacks.set_ready(cb);
    }

    /// Registers the resize callback, which must accept every size.
    pub fn onResize(&mut self, cb: R)
        requires
            accepts_sizes(cb),
        ensures
            final(self)@ == old(self)@,
            final(self).callbacks.resize() == Some(cb),
            final(self).callbacks.pixel() == old(self).callbacks.pixel(),
            final(self).callbacks.texture() == old(self).callbacks.texture(),
            final(self).callbacks.gate() == old(self).callbacks.gate(),
    {
        self.callbacks.set_resize(cb);
    }

    pub fn play(&mut self)
        ensures
            final(self)@ == old(self)@.send(PlayerCommand::Play),
            final(self).callbacks == old(self).callbacks,
    {
        self.m_player.play();
    }

    pub fn pause(&mut self)
        ensures
            final(self)@ == old(self)@.send(PlayerCommand::Pause),
            final(self).callbacks == old(self).callbacks,
    {
        self.m_player.pause();
    }

    /// Stops playback and ends the session.
    pub fn stop(&mut self)
        ensures
            final(self)@ == old(self)@.stop(),
            final(self).callbacks == old(self).callbacks,
    {
        self.m_player.stop();
    }

    pub fn setBackgroundColor(&mut self, color: Rgba)
        ensures
            final(self)@ == old(self)@.send(PlayerCommand::SetBackgroundColor { color }).redraw(),
            final(self).callbacks == old(self).callbacks,
    {
        self.m_player.set_background_color(color);
        self.forceRedraw();
    }

    pub fn setFrameRate(&mut self, fps: Double)
        ensures
            final(self)@ == old(self)@.send(PlayerCommand::SetFrameRate { fps }).redraw(),
            final(self).callbacks == old(self).callbacks,
    {
        self.m_player.set_frame_rate(fps);
        self.forceRedraw();
    }

    pub fn setPlaybackRate(&mut self, rate: Double)
        ensures
            final(self)@ == old(self)@.send(PlayerCommand::SetPlaybackRate { rate }).redraw(),
            final(self).callbacks == old(self).callbacks,
    {
        self.m_player.set_playback_rate(rate);
        self.forceRedraw();
    }

    /// Seeks to `frame`, telling the engine which frame is current.
    pub fn setCurrentFrame(&mut self, frame: i64)
        ensures
            final(self)@ == old(self)@.send(
                PlayerCommand::SeekToFrame { frame, current_frame: old(self)@.current_frame },
            ).redraw(),
            final(self).callbacks == old(self).callbacks,
    {
        self.m_player.seek_to_frame(frame, self.currentFrame);
        self.forceRedraw();
    }

    pub fn setTimestamp(&mut self, timestamp: Double)
        ensures
            final(self)@ == old(self)@.send(PlayerCommand::SeekToTimestamp { timestamp }).redraw(),
            final(self).callbacks == old(self).callbacks,
    {
        self.m_player.seek_to_timestamp(timestamp);
        self.forceRedraw();
    }

    pub fn setRotation(&mut self, v: i32)
        ensures
            final(self)@ == old(self)@.send(PlayerCommand::SetRotation { degrees: v }).redraw(),
            final(self).callbacks == old(self).callbacks,
    {
        self.m_player.set_rotation(v);
        self.forceRedraw();
    }

    /// Opens another source. `prev_muted` is the mute state that the engine
    /// reports before the change; it is set again on the new source.
    pub fn setUrl(&mut self, url: String, prev_muted: bool)
        ensures
            final(self)@ == old(self)@.set_url(url, prev_muted),
            final(self).callbacks == old(self).callbacks,
    {
        self.playing = false;
        self.signals.push(ItemSignal::PlayingChanged);
        self.url = url.clone();
        self.m_player.set_url(url);
        self.setMuted(prev_muted);
        self.forceRedraw();
    }

    pub fn setMuted(&mut self, v: bool)
        ensures
            final(self)@ == old(self)@.set_muted(v),
            final(self).callbacks == old(self).callbacks,
    {
        self.m_player.set_muted(v);
        self.signals.push(ItemSignal::MutedChanged);
    }

    /// Takes note of the frame that the engine rendered.
    ///
    /// The host works both numbers out before it calls. `ts` is the
    /// timestamp that the engine gave, in milliseconds, or zero where that
    /// was below zero or no number. `frame` is the frame number that goes
    /// with it: `ts` divided by 1000 and multiplied by the frame rate held
    /// in `frameRate`, rounded up to the next whole number. This is the one
    /// derivation of the frame number; the engine's own count is not used.
    /// Both zeros are carried as the positive one, so that equal timestamps
    /// have equal patterns.
    pub fn frameRendered(&mut self, ts: Double, frame: i64)
        ensures
            final(self)@ == old(self)@.frame_rendered(ts, frame),
            final(self).callbacks == old(self).callbacks,
    {
        if ts != self.timestamp || frame != self.currentFrame {
            self.timestamp = ts;
            self.currentFrame = frame;
            self.signals.push(ItemSignal::TimestampChanged);
            self.signals.push(ItemSignal::CurrentFrameChanged);
        }
    }

    /// Takes note of the properties of the source that the engine loaded.
    ///
    /// `duration` is in milliseconds. The host rounds the frame rate to four
    /// decimal places before it calls: `frameRate` is the engine's rate
    /// multiplied by 10000, rounded to the nearest whole number and divided
    /// by 10000 again.
    pub fn videoLoaded(
        &mut self,
        duration: Double,
        frameCount: i64,
        frameRate: Double,
        width: u32,
        height: u32,
    )
        ensures
            final(self)@ == old(self)@.video_loaded(duration, frameCount, frameRate, width, height),
            final(self).callbacks == old(self).callbacks,
    {
        self.duration = duration;
        self.frameCount = frameCount;
        self.frameRate = frameRate;
        self.videoWidth = width;
        self.videoHeight = height;
        self.signals.push(ItemSignal::MetadataChanged);
    }

    /// Takes note of the state that the engine reports; state 1 is playing.
    pub fn stateChanged(&mut self, state: i32)
        ensures
            final(self)@ == old(self)@.state_changed(state),
            final(self).callbacks == old(self).callbacks,
    {
        self.playing = state == 1;
        self.signals.push(ItemSignal::PlayingChanged);
    }

    /// Sets the explicit surface size and tells the resize callback.
    pub fn surfaceSizeUpdated(&mut self, width: u32, height: u32)
        ensures
            final(self)@ == old(self)@.set_surface_size(width, height),
            final(self).callbacks == old(self).callbacks,
            old(self).callbacks.resize() matches Some(cb) ==> call_ensures(
                cb,
                (width, height),
                (),
            ),
    {
        self.setSurfaceSize(width, height);
        self.callbacks.notify_resize(width, height);
    }

    /// Offers one frame to the pixel transform, in place, and gives back the
    /// geometry of what the pixels then hold.
    ///
    /// A frame without area goes no further: the pixels stay as they are
    /// and the geometry is the one that came. For any other frame the
    /// processing gate is polled, once; a frame that it declines stays as
    /// it is, too. Only then the transform runs, and without a transform
    /// the frame stays as it is.
    pub fn process_pixels(
        &self,
        frame: u32,
        timestamp: Double,
        width: u32,
        height: u32,
        stride: u32,
        pixels: &mut [u8],
    ) -> (out: (u32, u32, u32))
        ensures
            width == 0 || height == 0 ==> out == (width, height, stride) && final(pixels)@ == old(
                pixels,
            )@,
            width > 0 && height > 0 ==> {
                ||| {
                    &&& self.callbacks.may_answer(false)
                    &&& out == (width, height, stride)
                    &&& final(pixels)@ == old(pixels)@
                }
                ||| {
                    &&& self.callbacks.may_answer(true)
                    &&& match self.callbacks.pixel() {
                        None => out == (width, height, stride) && final(pixels)@ == old(pixels)@,
                        Some(cb) => exists|given: &mut [u8]|
                            {
                                &&& given@ == old(pixels)@
                                &&& final(given)@ == final(pixels)@
                                &&& #[trigger] call_ensures(
                                    cb,
                                    (frame, timestamp, width, height, stride, given),
                                    out,
                                )
                            },
                    }
                }
            },
    {
        if width == 0 || height == 0 {
            (width, height, stride)
        } else if !self.callbacks.is_ready() {
            (width, height, stride)
        } else {
            self.callbacks.transform_pixels(frame, timestamp, width, height, stride, pixels)
        }
    }

    /// Sets the explicit surface size. A size with a zero dimension means
    /// that the layout decides.
    pub fn setSurfaceSize(&mut self, width: u32, height: u32)
        ensures
            final(self)@ == old(self)@.set_surface_size(width, height),
            final(self).callbacks == old(self).callbacks,
    {
        self.surfaceWidth = width;
        self.surfaceHeight = height;
        self.signals.push(ItemSignal::MetadataChanged);
        self.forceRedraw();
    }

    pub fn setPlaybackRange(&mut self, from_ms: i64, to_ms: i64)
        ensures
            final(self)@ == old(self)@.send(PlayerCommand::SetPlaybackRange { from_ms, to_ms }),
            final(self).callbacks == old(self).callbacks,
    {
        self.m_player.set_playback_range(from_ms, to_ms);
    }

    /// Starts a processing pass and takes ownership of its callback, which
    /// must accept every frame.
    pub fn startProcessing<F: FnMut(i32, Double, u32, u32, &mut [u8])>(
        &mut self,
        id: usize,
        width: usize,
        height: usize,
        yuv: bool,
        ranges_ms: Vec<(usize, usize)>,
        cb: F,
    ) -> (registered: RegisteredCallback<F>)
        requires
            accepts_frames(cb),
        ensures
            final(self)@ == old(self)@.send(
                PlayerCommand::StartProcessing { id, width, height, yuv, ranges_ms },
            ),
            final(self).callbacks == old(self).callbacks,
            registered.lifecycle() == Lifecycle::fresh(),
            registered.callback() == Some(cb),
    {
        self.m_player.start_processing(id, width, height, yuv, ranges_ms, cb)
    }

    /// The command side of the item's decode session.
    pub fn get_mdkplayer(&mut self) -> (player: &mut MDKPlayerWrapper)
        ensures
            *player == old(self).m_player,
            final(self).m_player == *final(player),
            final(self)@ == (ItemState { player: final(player)@, ..old(self)@ }),
            final(self).callbacks == old(self).callbacks,
    {
        &mut self.m_player
    }

    pub fn forceRedraw(&mut self)
        ensures
            final(self)@ == old(self)@.redraw(),
            final(self).callbacks == old(self).callbacks,
    {
        self.m_player.force_redraw();
    }

    /// Queues a global option of the decode engine in `config`.
    pub fn setGlobalOption<L: Fn(i32, String)>(
        config: &mut ProcessConfig<L>,
        key: &str,
        val: &str,
    )
        ensures
            final(config).options@.len() == old(config).options@.len() + 1,
            final(config).options@.drop_last() == old(config).options@,
            final(config).options@.last().key@ == key@,
            final(config).options@.last().value@ == val@,
            final(config).log_handler == old(config).log_handler,
    {
        MDKPlayerWrapper::set_global_option(config, key.to_owned(), val.to_owned());
    }

    /// Installs the log handler of the process in `config`, if none is
    /// installed yet, and says whether it did.
    pub fn setLogHandler<L: Fn(i32, String)>(config: &mut ProcessConfig<L>, cb: L) -> (installed:
        bool)
        requires
            accepts_log_lines(cb),
        ensures
            installed == old(config).log_handler.installed() is None,
            final(config).log_handler.installed() == (if installed {
                Some(cb)
            } else {
                old(config).log_handler.installed()
            }),
            final(config).options == old(config).options,
    {
        MDKPlayerWrapper::set_log_handler(config, cb)
    }

    /// Notes that the item is complete and has content to paint.
    pub fn component_complete(&mut self)
        ensures
            final(self)@ == (ItemState { node: old(self)@.node.with_contents(), ..old(self)@ }),
            final(self).callbacks == old(self).callbacks,
    {
        self.node.gain_contents();
    }

    /// Gives the item's resources up: the decode session is torn down, the
    /// node is gone, and no frame is taken any more. This happens once; on
    /// an item that is released already the request changes nothing.
    pub fn release_resources(&mut self)
        ensures
            final(self)@ == old(self)@.release_resources(),
            old(self)@.node.phase == NodePhase::Released ==> final(self)@ == old(self)@,
            final(self)@.node.phase == NodePhase::Released,
            final(self).callbacks == old(self).callbacks,
    {
        if self.node.phase != NodePhase::Released {
            self.m_player.destroy();
            self.node.release();
        }
    }

    /// Notes that the item's geometry changed: the next paint pass sets the
    /// node's rectangle. A redraw and a repaint are asked for.
    pub fn geometry_changed(&mut self)
        ensures
            final(self)@ == old(self)@.geometry_changed(),
            final(self).callbacks == old(self).callbacks,
    {
        self.node.geometry_changed();
        self.forceRedraw();
        self.signals.push(ItemSignal::RepaintRequested);
    }

    /// Runs one paint pass while the layout has the size `layout`, in
    /// device pixels, and says what the host has to do with the node.
    pub fn update_paint_node(&mut self, layout: SurfaceSize) -> (pass: PaintPass)
        ensures
            pass == old(self)@.paint_pass(layout),
            final(self)@ == old(self)@.after_paint(),
            final(self).callbacks == old(self).callbacks,
    {
        let explicit = SurfaceSize { width: self.surfaceWidth, height: self.surfaceHeight };
        self.node.paint(explicit, layout, self.m_player.session)
    }

    /// Takes the pending notifications, oldest first, and leaves none.
    pub fn take_signals(&mut self) -> (taken: Vec<ItemSignal>)
        ensures
            taken@ == old(self)@.signals,
            final(self)@ == (ItemState { signals: Seq::empty(), ..old(self)@ }),
            final(self).callbacks == old(self).callbacks,
    {
        let mut taken: Vec<ItemSignal> = Vec::new();
        core::mem::swap(&mut self.signals, &mut taken);
        taken
    }

    /// Whether a frame delivered under `handle` is taken.
    pub fn is_accepting(&self, handle: CallbackHandle) -> (yes: bool)
        ensures
            yes == self@.accepts(handle),
    {
        handle.session == self.m_player.session && self.node.is_receiving(handle.session)
    }

    /// Delivers one frame in pixel memory, which the transform may write.
    ///
    /// A frame of a session that is over changes nothing. Any other frame
    /// is counted. A frame without area and a frame whose memory is shorter
    /// than its rows go no further. Then the processing gate is polled,
    /// once, and a frame that it declines goes no further. Then the
    /// transform runs in place; the geometry that it gives back is shown if
    /// the pixels can be read with it, and the frame is dropped if not.
    /// Only a frame that is shown marks the content of the node dirty, and
    /// only a frame that reached the transform may have other pixels than
    /// it came with.
    pub fn deliver_pixels(
        &mut self,
        handle: CallbackHandle,
        frame: u32,
        timestamp: Double,
        width: u32,
        height: u32,
        stride: u32,
        pixels: &mut [u8],
    ) -> (delivery: PixelDelivery)
        ensures
            old(self).explains_pixels(
                handle,
                width,
                height,
                stride,
                old(pixels)@.len(),
                delivery,
            ),
            final(self)@ == old(self)@.after_delivery(handle, delivery is Rendered),
            final(self).callbacks == old(self).callbacks,
            match delivery {
                PixelDelivery::Rendered { width: w, height: h, stride: s } => {
                    &&& readable(w, h, s, final(pixels)@.len())
                    &&& match old(self).callbacks.pixel() {
                        None => (w, h, s) == (width, height, stride) && final(pixels)@ == old(
                            pixels,
                        )@,
                        Some(cb) => exists|given: &mut [u8]|
                            {
                                &&& given@ == old(pixels)@
                                &&& final(given)@ == final(pixels)@
                                &&& #[trigger] call_ensures(
                                    cb,
                                    (frame, timestamp, width, height, stride, given),
                                    (w, h, s),
                                )
                            },
                    }
                },
                PixelDelivery::Faulted => old(self).callbacks.pixel() matches Some(cb) && exists|
                    given: &mut [u8],
                    out: (u32, u32, u32),
                |
                    {
                        &&& given@ == old(pixels)@
                        &&& final(given)@ == final(pixels)@
                        &&& #[trigger] call_ensures(
                            cb,
                            (frame, timestamp, width, height, stride, given),
                            out,
                        )
                        &&& !readable(out.0, out.1, out.2, final(pixels)@.len())
                    },
                _ => final(pixels)@ == old(pixels)@,
            },
    {
        if !self.is_accepting(handle) {
            return PixelDelivery::Stale;
        }
        self.frames_offered = next_count(self.frames_offered);
        let offered = FrameDescriptor::pixels(
            frame,
            timestamp,
            width,
            height,
            stride,
            pixels.len(),
        );
        match offered.classify() {
            FrameKind::Signal => PixelDelivery::Empty,
            FrameKind::Malformed => PixelDelivery::Malformed,
            FrameKind::Presentable => {
                if !self.callbacks.is_ready() {
                    PixelDelivery::Declined
                } else {
                    let ghost before = pixels@;
                    let out = self.callbacks.transform_pixels(
                        frame,
                        timestamp,
                        width,
                        height,
                        stride,
                        pixels,
                    );
                    let (w, h, s) = out;
                    proof {
                        assert(out == (w, h, s));
                        if self.callbacks.pixel() is Some {
                            assert(exists|given: &mut [u8]|
                                {
                                    &&& given@ == before
                                    &&& final(given)@ == pixels@
                                    &&& #[trigger] call_ensures(
                                        self.callbacks.pixel()->0,
                                        (frame, timestamp, width, height, stride, given),
                                        (w, h, s),
                                    )
                                });
                        }
                    }
                    let shown = FrameDescriptor::pixels(frame, timestamp, w, h, s, pixels.len());
                    match shown.classify() {
                        FrameKind::Presentable => {
                            self.node.frame_delivered();
                            PixelDelivery::Rendered { width: w, height: h, stride: s }
                        },
                        _ => PixelDelivery::Faulted,
                    }
                }
            },
        }
    }

    /// Delivers one frame held by a graphics backend.
    ///
    /// A frame of a session that is over changes nothing. Any other frame
    /// is counted. A frame without area goes no further. Then the
    /// processing gate is polled, once, and a frame that it declines goes
    /// no further. Then the texture consumer is asked; a frame that it
    /// handled is not rendered, any other goes the default render path and
    /// marks the content of the node dirty.
    pub fn deliver_texture(
        &mut self,
        handle: CallbackHandle,
        frame: u32,
        timestamp: Double,
        width: u32,
        height: u32,
        backend_id: u32,
        handles: [u64; 5],
    ) -> (delivery: TextureDelivery)
        ensures
            old(self).explains_texture(
                handle,
                frame,
                timestamp,
                width,
                height,
                backend_id,
                handles,
                delivery,
            ),
            final(self)@ == old(self)@.after_delivery(handle, delivery is Passed),
            final(self).callbacks == old(self).callbacks,
    {
        if !self.is_accepting(handle) {
            return TextureDelivery::Stale;
        }
        self.frames_offered = next_count(self.frames_offered);
        let offered = FrameDescriptor::texture(
            frame,
            timestamp,
            width,
            height,
            backend_id,
            handles,
        );
        if offered.is_empty() {
            TextureDelivery::Empty
        } else if !self.callbacks.is_ready() {
            TextureDelivery::Declined
        } else if self.callbacks.transform_texture(
            frame,
            timestamp,
            width,
            height,
            backend_id,
            handles,
        ) {
            TextureDelivery::Handled
        } else {
            self.node.frame_delivered();
            TextureDelivery::Passed
        }
    }
}

impl<P, T, G, R> Default for MDKVideoItem<P, T, G, R> where
    P: Fn(u32, Double, u32, u32, u32, &mut [u8]) -> (u32, u32, u32),
    T: Fn(u32, Double, u32, u32, u32, [u64; 5]) -> bool,
    G: Fn() -> bool,
    R: Fn(u32, u32),
 {
    /// An item without a source, without a node and without callbacks.
    fn default() -> (item: Self)
        ensures
            item@ == ItemState::initial(),
            item.callbacks.is_vacant(),
    {
        MDKVideoItem::new()
    }
}

/// A frame without area goes nowhere: it reaches neither the processing
/// gate nor the transform, and the node is as it was.
pub proof fn lemma_empty_pixels_go_nowhere<P, T, G, R>(
    item: MDKVideoItem<P, T, G, R>,
    handle: CallbackHandle,
    width: u32,
    height: u32,
    stride: u32,
    len: nat,
    delivery: PixelDelivery,
) where
    P: Fn(u32, Double, u32, u32, u32, &mut [u8]) -> (u32, u32, u32),
    T: Fn(u32, Double, u32, u32, u32, [u64; 5]) -> bool,
    G: Fn() -> bool,
    R: Fn(u32, u32),

    requires
        width == 0 || height == 0,
        item.explains_pixels(handle, width, height, stride, len, delivery),
    ensures
        delivery is Stale || delivery is Empty,
        item@.after_delivery(handle, delivery is Rendered).node == item@.node,
{
}

/// A texture without area goes nowhere either.
pub proof fn lemma_empty_texture_goes_nowhere<P, T, G, R>(
    item: MDKVideoItem<P, T, G, R>,
    handle: CallbackHandle,
    frame: u32,
    timestamp: Double,
    width: u32,
    height: u32,
    backend_id: u32,
    handles: [u64; 5],
    delivery: TextureDelivery,
) where
    P: Fn(u32, Double, u32, u32, u32, &mut [u8]) -> (u32, u32, u32),
    T: Fn(u32, Double, u32, u32, u32, [u64; 5]) -> bool,
    G: Fn() -> bool,
    R: Fn(u32, u32),

    requires
        width == 0 || height == 0,
        item.explains_texture(
            handle,
            frame,
            timestamp,
            width,
            height,
            backend_id,
            handles,
            delivery,
        ),
    ensures
        delivery is Stale || delivery is Empty,
        item@.after_delivery(handle, delivery is Passed).node == item@.node,
{
}

/// Where the processing gate does not answer that it is ready, no frame
/// reaches the transform, and still every frame of the session is counted:
/// the count moves on with each of them and the node is as it was.
pub proof fn lemma_gate_holds_frames_back<P, T, G, R>(
    item: MDKVideoItem<P, T, G, R>,
    handle: CallbackHandle,
    width: u32,
    height: u32,
    stride: u32,
    len: nat,
    delivery: PixelDelivery,
) where
    P: Fn(u32, Double, u32, u32, u32, &mut [u8]) -> (u32, u32, u32),
    T: Fn(u32, Double, u32, u32, u32, [u64; 5]) -> bool,
    G: Fn() -> bool,
    R: Fn(u32, u32),

    requires
        item@.accepts(handle),
        !item.callbacks.may_answer(true),
        item.explains_pixels(handle, width, height, stride, len, delivery),
    ensures
        !(delivery is Rendered),
        !(delivery is Faulted),
        item@.after_delivery(handle, delivery is Rendered).frames_offered
            != item@.frames_offered,
        item@.after_delivery(handle, delivery is Rendered).frames_offered == bump(
            item@.frames_offered,
        ),
        item@.after_delivery(handle, delivery is Rendered).node == item@.node,
{
}

/// The same holds on the texture path.
pub proof fn lemma_gate_holds_textures_back<P, T, G, R>(
    item: MDKVideoItem<P, T, G, R>,
    handle: CallbackHandle,
    frame: u32,
    timestamp: Double,
    width: u32,
    height: u32,
    backend_id: u32,
    handles: [u64; 5],
    delivery: TextureDelivery,
) where
    P: Fn(u32, Double, u32, u32, u32, &mut [u8]) -> (u32, u32, u32),
    T: Fn(u32, Double, u32, u32, u32, [u64; 5]) -> bool,
    G: Fn() -> bool,
    R: Fn(u32, u32),

    requires
        item@.accepts(handle),
        !item.callbacks.may_answer(true),
        item.explains_texture(
            handle,
            frame,
            timestamp,
            width,
            height,
            backend_id,
            handles,
            delivery,
        ),
    ensures
        !(delivery is Handled),
        !(delivery is Passed),
        item@.after_delivery(handle, delivery is Passed).frames_offered == bump(
            item@.frames_offered,
        ),
        item@.after_delivery(handle, delivery is Passed).node == item@.node,
{
}

/// A geometry change and a frame are independent. After a geometry change
/// the next paint pass sets the rectangle though no frame came, and marks
/// the content dirty as every pass does. After a frame without a geometry
/// change the content is marked dirty once more and the next pass leaves
/// the rectangle alone.
pub proof fn lemma_geometry_and_frames_independent(
    item: ItemState,
    handle: CallbackHandle,
    layout: SurfaceSize,
)
    requires
        item.node.phase != NodePhase::Released,
    ensures
        item.geometry_changed().paint_pass(layout).update_rect,
        item.geometry_changed().paint_pass(layout).mark_dirty,
        item.geometry_changed().after_paint().node.geometry_changed == false,
        item.accepts(handle) ==> item.after_delivery(handle, true).node.dirty_marks
            != item.node.dirty_marks,
        item.after_delivery(handle, true).node.geometry_changed == item.node.geometry_changed,
        !item.node.geometry_changed ==> !item.after_delivery(handle, true).paint_pass(
            layout,
        ).update_rect,
{
}

/// The explicit surface size wins over the layout: where both its
/// dimensions are set, every paint pass of a painting item forwards it to
/// the decode engine, whatever the layout; where one is zero, the pass
/// forwards the size of the layout.
pub proof fn lemma_explicit_size_wins(item: ItemState, width: u32, height: u32, layout: SurfaceSize)
    requires
        item.node.paints(),
    ensures
        width != 0 && height != 0 ==> item.set_surface_size(width, height).paint_pass(layout).sync
            == Some(SurfaceSize { width, height }),
        width == 0 || height == 0 ==> item.set_surface_size(width, height).paint_pass(layout).sync
            == Some(layout),
{
}

/// The end of a session cancels what is in flight: after a stop, another
/// source or the release of the item, a frame under the handle of the
/// session before is not taken. Frames of the new session are taken once a
/// paint pass has registered the callback slots for it.
pub proof fn lemma_session_end_cancels_deliveries(
    item: ItemState,
    handle: CallbackHandle,
    url: String,
    prev_muted: bool,
)
    requires
        handle.session == item.player.session,
    ensures
        !item.stop().accepts(handle),
        !item.set_url(url, prev_muted).accepts(handle),
        !item.release_resources().accepts(handle),
        item.stop().after_delivery(handle, true) == item.stop(),
        item.release_resources().release_resources() == item.release_resources(),
        item.node.paints() ==> item.stop().after_paint().accepts(
            CallbackHandle { session: bump(item.player.session) },
        ),
        forall|other: CallbackHandle| !item.release_resources().after_paint().accepts(other),
{
}

/// A frame from earlier in the source is no duplicate: whenever the frame
/// number or the timestamp differs from the one held, in either direction,
/// the item takes the pair over and notifies both changes; only the very
/// pair it holds passes in silence.
pub proof fn lemma_seek_is_a_change(item: ItemState, timestamp: Double, frame: i64)
    ensures
        (timestamp != item.timestamp || frame != item.current_frame) ==> {
            &&& item.frame_rendered(timestamp, frame).timestamp == timestamp
            &&& item.frame_rendered(timestamp, frame).current_frame == frame
            &&& item.frame_rendered(timestamp, frame).signals == item.signals.push(
                ItemSignal::TimestampChanged,
            ).push(ItemSignal::CurrentFrameChanged)
        },
        (timestamp == item.timestamp && frame == item.current_frame) ==> item.frame_rendered(
            timestamp,
            frame,
        ) == item,
{
}


} // verus!
