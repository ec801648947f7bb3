//! The command side of a decode session: what the item asks of the decode
//! engine, in the order in which it asks.
use crate::callback::{accepts_frames, Lifecycle, RegisteredCallback};
use crate::config::{accepts_log_lines, GlobalOption, ProcessConfig};
use crate::counter::{bump, next_count};
use crate::frame::Double;
use vstd::prelude::*;

verus! {

/// A colour by its red, green, blue and alpha channels.
#[derive(Clone, Copy, Debug, PartialEq, Eq, Structural)]
pub struct Rgba {
    pub red: u8,
    pub green: u8,
    pub blue: u8,
    pub alpha: u8,
}

/// One request to the decode engine.
#[derive(Debug, PartialEq, Eq)]
pub enum PlayerCommand {
    Play,
    Pause,
    Stop,
    ForceRedraw,
    SetFrameRate { fps: Double },
    SeekToTimestamp { timestamp: Double },
    SeekToFrame { frame: i64, current_frame: i64 },
    SetUrl { url: String },
    SetBackgroundColor { color: Rgba },
    SetPlaybackRate { rate: Double },
    SetMuted { muted: bool },
    SetRotation { degrees: i32 },
    SetPlaybackRange { from_ms: i64, to_ms: i64 },
    /// Start a processing pass that decodes the given ranges at the given
    /// size and hands each frame to the callback registered with it.
    StartProcessing {
        id: usize,
        width: usize,
        height: usize,
        yuv: bool,
        ranges_ms: Vec<(usize, usize)>,
    },
    /// Tear the session down.
    DestroyPlayer,
}

/// Identity under which frames are delivered: the number of the session
/// that was current when the callback slots were registered.
#[derive(Clone, Copy, Debug, PartialEq, Eq, Structural)]
pub struct CallbackHandle {
    pub session: u64,
}

/// What a decode session looks like from outside.
pub struct PlayerState {
    /// Commands that the host has not taken yet, oldest first.
    pub commands: Seq<PlayerCommand>,
    /// Number of the current session.
    pub session: u64,
}

impl PlayerState {
    /// The state after `command` was queued.
    pub open spec fn send(self, command: PlayerCommand) -> PlayerState {
        PlayerState { commands: self.commands.push(command), ..self }
    }

    /// The state after a new session began: frames of the session before
    /// are no longer accepted.
    pub open spec fn next_session(self) -> PlayerState {
        PlayerState { session: bump(self.session), ..self }
    }
}

/// The commands of one decode session. Nothing here reaches the engine by
/// itself: every method queues the command it stands for, and the host
/// takes the queue and performs it.
pub struct MDKPlayerWrapper {
    pub commands: Vec<PlayerCommand>,
    pub session: u64,
}

impl View for MDKPlayerWrapper {
    type V = PlayerState;

    open spec fn view(&self) -> PlayerState {
        PlayerState { commands: self.commands@, session: self.session }
    }
}

impl MDKPlayerWrapper {
    /// A session without pending commands.
    pub fn new() -> (player: Self)
        ensures
            player@ == (PlayerState { commands: Seq::empty(), session: 0 }),
    {
        MDKPlayerWrapper { commands: Vec::new(), session: 0 }
    }

    /// The handle under which frames of the current session are delivered.
    pub fn handle(&self) -> (current: CallbackHandle)
        ensures
            current.session == self@.session,
    {
        CallbackHandle { session: self.session }
    }

    /// Takes the pending commands, oldest first, and leaves none.
    pub fn take_commands(&mut self) -> (taken: Vec<PlayerCommand>)
        ensures
            taken@ == old(self)@.commands,
            final(self)@ == (PlayerState { commands: Seq::empty(), ..old(self)@ }),
    {
        let mut taken: Vec<PlayerCommand> = Vec::new();
        core::mem::swap(&mut self.commands, &mut taken);
        taken
    }

    pub fn play(&mut self)
        ensures
            final(self)@ == old(self)@.send(PlayerCommand::Play),
    {
        self.commands.push(PlayerCommand::Play);
    }

    pub fn pause(&mut self)
        ensures
            final(self)@ == old(self)@.send(PlayerCommand::Pause),
    {
        self.commands.push(PlayerCommand::Pause);
    }

    /// Stops playback. This ends the session: frames still in flight are
    /// not accepted any more.
    pub fn stop(&mut self)
        ensures
            final(self)@ == old(self)@.send(PlayerCommand::Stop).next_session(),
    {
        self.commands.push(PlayerCommand::Stop);
        self.session = next_count(self.session);
    }

    pub fn force_redraw(&mut self)
        ensures
            final(self)@ == old(self)@.send(PlayerCommand::ForceRedraw),
    {
        self.commands.push(PlayerCommand::ForceRedraw);
    }

    pub fn set_frame_rate(&mut self, fps: Double)
        ensures
            final(self)@ == old(self)@.send(PlayerCommand::SetFrameRate { fps }),
    {
        self.commands.push(PlayerCommand::SetFrameRate { fps });
    }

    pub fn seek_to_timestamp(&mut self, timestamp: Double)
        ensures
            final(self)@ == old(self)@.send(PlayerCommand::SeekToTimestamp { timestamp }),
    {
        self.commands.push(PlayerCommand::SeekToTimestamp { timestamp });
    }

    pub fn seek_to_frame(&mut self, frame: i64, current_frame: i64)
        ensures
            final(self)@ == old(self)@.send(PlayerCommand::SeekToFrame { frame, current_frame }),
    {
        self.commands.push(PlayerCommand::SeekToFrame { frame, current_frame });
    }

    /// Opens another source. This ends the session: frames of the source
    /// before are not accepted any more.
    pub fn set_url(&mut self, url: String)
        ensures
            final(self)@ == old(self)@.send(PlayerCommand::SetUrl { url }).next_session(),
    {
        self.commands.push(PlayerCommand::SetUrl { url });
        self.session = next_count(self.session);
    }

    pub fn set_background_color(&mut self, color: Rgba)
        ensures
            final(self)@ == old(self)@.send(PlayerCommand::SetBackgroundColor { color }),
    {
        self.commands.push(PlayerCommand::SetBackgroundColor { color });
    }

    pub fn set_playback_rate(&mut self, rate: Double)
        ensures
            final(self)@ == old(self)@.send(PlayerCommand::SetPlaybackRate { rate }),
    {
        self.commands.push(PlayerCommand::SetPlaybackRate { rate });
    }

    pub fn set_muted(&mut self, v: bool)
        ensures
            final(self)@ == old(self)@.send(PlayerCommand::SetMuted { muted: v }),
    {
        self.commands.push(PlayerCommand::SetMuted { muted: v });
    }

    pub fn set_rotation(&mut self, v: i32)
        ensures
            final(self)@ == old(self)@.send(PlayerCommand::SetRotation { degrees: v }),
    {
        self.commands.push(PlayerCommand::SetRotation { degrees: v });
    }

    pub fn set_playback_range(&mut self, from_ms: i64, to_ms: i64)
        ensures
            final(self)@ == old(self)@.send(PlayerCommand::SetPlaybackRange { from_ms, to_ms }),
    {
        self.commands.push(PlayerCommand::SetPlaybackRange { from_ms, to_ms });
    }

    /// Tears the session down. Frames still in flight are not accepted any
    /// more.
    pub fn destroy(&mut self)
        ensures
            final(self)@ == old(self)@.send(PlayerCommand::DestroyPlayer).next_session(),
    {
        self.commands.push(PlayerCommand::DestroyPlayer);
        self.session = next_count(self.session);
    }

    /// Queues the global option `key` with the value `val` in `config`.
    pub fn set_global_option<L: Fn(i32, String)>(
        config: &mut ProcessConfig<L>,
        key: String,
        val: String,
    )
        ensures
            final(config).options@ == old(config).options@.push(GlobalOption { key, value: val }),
            final(config).log_handler == old(config).log_handler,
    {
        config.set_global_option(key, val);
    }

    /// Installs `cb`, which must accept every log line, as the log handler
    /// of the process in `config` if none is installed yet, and says
    /// whether it did.
    pub fn set_log_handler<L: Fn(i32, String)>(config: &mut ProcessConfig<L>, cb: L) -> (installed:
        bool)
        requires
            accepts_log_lines(cb),
        ensures
            installed == old(config).log_handler.installed() is None,
            final(config).log_handler.installed() == (if installed {
                Some(cb)
            } else {
                old(config).log_handler.installed()
            }),
            final(config).options == old(config).options,
    {
        config.set_log_handler(cb)
    }

    /// Starts a processing pass and takes ownership of its callback, which
    /// must accept every frame. The registration that comes back is what
    /// the engine's deliveries go through: it keeps the callback until a
    /// delivery with a negative frame index.
    pub fn start_processing<F: FnMut(i32, Double, u32, u32, &mut [u8])>(
        &mut self,
        id: usize,
        width: usize,
        height: usize,
        yuv: bool,
        ranges_ms: Vec<(usize, usize)>,
        cb: F,
    ) -> (registered: RegisteredCallback<F>)
        requires
            accepts_frames(cb),
        ensures
            final(self)@ == old(self)@.send(
                PlayerCommand::StartProcessing { id, width, height, yuv, ranges_ms },
            ),
            registered.lifecycle() == Lifecycle::fresh(),
            registered.callback() == Some(cb),
    {
        self.commands.push(PlayerCommand::StartProcessing { id, width, height, yuv, ranges_ms });
        RegisteredCallback::register(cb)
    }
}

impl Default for MDKPlayerWrapper {
    /// A session without pending commands.
    fn default() -> (player: Self)
        ensures
            player@ == (PlayerState { commands: Seq::empty(), session: 0 }),
    {
        MDKPlayerWrapper::new()
    }
}

/// A frame is accepted only in the session it was produced for: after a
/// stop, another source or a teardown, the handle of the session before
/// names a session that is over.
pub proof fn lemma_session_end_invalidates_handles(player: PlayerState, command: PlayerCommand)
    ensures
        player.send(command).next_session().session != player.session,
        player.send(command).session == player.session,
{
}

} // verus!
