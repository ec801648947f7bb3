use qml_video_rs::callback::{Invocation, RegisteredCallback};
use qml_video_rs::config::ProcessConfig;
use qml_video_rs::frame::Double;
use qml_video_rs::scene::SurfaceSize;
use qml_video_rs::video_item::{ItemSignal, PixelDelivery};
use qml_video_rs::video_player::{CallbackHandle, PlayerCommand, Rgba};

type ProcessingCb = Box<dyn FnMut(i32, Double, u32, u32, &mut [u8])>;
type LogCb = Box<dyn Fn(i32, String)>;
type ProcessPixelsCb = Box<dyn Fn(u32, f64, u32, u32, u32, &mut [u8]) -> (u32, u32, u32)>;
type ReadyCb = Box<dyn Fn() -> bool>;
type ResizeCb = Box<dyn Fn(u32, u32)>;
type CorePixelsCb = Box<dyn Fn(u32, Double, u32, u32, u32, &mut [u8]) -> (u32, u32, u32)>;
type CoreTextureCb = Box<dyn Fn(u32, Double, u32, u32, u32, [u64; 5]) -> bool>;
type Core = qml_video_rs::video_item::MDKVideoItem<CorePixelsCb, CoreTextureCb, ReadyCb, ResizeCb>;

fn number(value: Double) -> f64 {
    f64::from_bits(value.to_bits())
}
fn carrier(value: f64) -> Double {
    Double::from_bits((value + 0.0).to_bits())
}

/// Stands where the decode engine would: it notes each command it is given.
#[derive(Default)]
struct Native {
    done: Vec<String>,
    slots: Vec<Box<RegisteredCallback<ProcessingCb>>>,
}

impl Native {
    fn perform(
        &mut self,
        command: PlayerCommand,
        processing: &mut Option<Box<RegisteredCallback<ProcessingCb>>>,
    ) {
        match command {
            PlayerCommand::Play => self.done.push("play".into()),
            PlayerCommand::Pause => self.done.push("pause".into()),
            PlayerCommand::Stop => self.done.push("stop".into()),
            PlayerCommand::ForceRedraw => self.done.push("redraw".into()),
            PlayerCommand::SetFrameRate { fps } => self.done.push(format!("fps {}", number(fps))),
            PlayerCommand::SeekToTimestamp { timestamp } => {
                self.done.push(format!("seek {}", number(timestamp)))
            }
            PlayerCommand::SeekToFrame { frame, current_frame } => {
                self.done.push(format!("frame {} {}", frame, current_frame))
            }
            PlayerCommand::SetUrl { url } => self.done.push(format!("url {}", url)),
            PlayerCommand::SetBackgroundColor { color } => {
                let Rgba { red, green, blue, alpha } = color;
                self.done.push(format!("color {} {} {} {}", red, green, blue, alpha))
            }
            PlayerCommand::SetPlaybackRate { rate } => {
                self.done.push(format!("rate {}", number(rate) as f32))
            }
            PlayerCommand::SetMuted { muted } => self.done.push(format!("muted {}", muted)),
            PlayerCommand::SetRotation { degrees } => self.done.push(format!("rot {}", degrees)),
            PlayerCommand::SetPlaybackRange { from_ms, to_ms } => {
                self.done.push(format!("range {} {}", from_ms, to_ms))
            }
            PlayerCommand::StartProcessing { id, width, height, yuv, ranges_ms } => {
                match processing.take() {
                    Some(registered) => {
                        self.slots.push(registered);
                        self.done.push(format!(
                            "process {} {} {} {} {}",
                            id,
                            width,
                            height,
                            yuv,
                            ranges_ms.len()
                        ));
                    }
                    None => panic!("a processing pass was queued without its callback"),
                }
            }
            PlayerCommand::DestroyPlayer => self.done.push("destroy".into()),
        }
    }
}

/// Stands where the user interface item would: it hands values to the core
/// and carries out what the core queued.
#[derive(Default)]
struct Host {
    playing: bool,
    timestamp: f64,
    frame_rate: f64,
    url: String,
    core: Core,
    m_player: Native,
    m_handle: Option<CallbackHandle>,
    emitted: Vec<ItemSignal>,
}

impl Host {
    fn flush(&mut self, processing: &mut Option<Box<RegisteredCallback<ProcessingCb>>>) {
        for command in self.core.get_mdkplayer().take_commands() {
            self.m_player.perform(command, processing);
        }
        self.playing = self.core.playing;
        self.timestamp = number(self.core.timestamp);
        self.frame_rate = number(self.core.frameRate);
        self.url = self.core.url.clone();
        for signal in self.core.take_signals() {
            self.emitted.push(signal);
        }
    }

    fn on_process_pixels(&mut self, cb: ProcessPixelsCb) {
        self.core.onProcessPixels(Box::new(move |frame, timestamp, width, height, stride, pixels| {
            cb(frame, number(timestamp), width, height, stride, pixels)
        }));
    }

    fn frame_rendered(&mut self, ts: f64) {
        let nts = ts.max(0.0);
        let ncf = ((nts / 1000.0) * self.frame_rate).ceil() as i64;
        self.core.frameRendered(carrier(nts), ncf);
        self.flush(&mut None);
    }

    fn process_pixels(
        &mut self,
        frame: u32,
        timestamp: f64,
        width: u32,
        height: u32,
        stride: u32,
        pixels: &mut [u8],
    ) -> (u32, u32, u32, bool) {
        let handle = match self.m_handle {
            Some(handle) => handle,
            None => return (width, height, stride, false),
        };
        let delivery =
            self.core.deliver_pixels(handle, frame, carrier(timestamp), width, height, stride, pixels);
        match delivery {
            PixelDelivery::Rendered { width, height, stride } => (width, height, stride, true),
            _ => (width, height, stride, false),
        }
    }

    fn start_processing<F: FnMut(i32, f64, u32, u32, &mut [u8]) + 'static>(
        &mut self,
        id: usize,
        width: usize,
        height: usize,
        yuv: bool,
        ranges_ms: Vec<(usize, usize)>,
        mut cb: F,
    ) {
        let callback: ProcessingCb =
            Box::new(move |frame, timestamp, width, height, pixels: &mut [u8]| {
                cb(frame, number(timestamp), width, height, pixels)
            });
        let registered = self.core.startProcessing(id, width, height, yuv, ranges_ms, callback);
        self.flush(&mut Some(Box::new(registered)));
    }

    fn paint(&mut self) {
        let pass = self.core.update_paint_node(SurfaceSize { width: 800, height: 600 });
        if let Some(session) = pass.register_session {
            self.m_handle = Some(CallbackHandle { session });
        }
    }
}

fn set_log_handler<F: Fn(i32, String) + 'static>(
    config: &mut ProcessConfig<LogCb>,
    cb: F,
) -> bool {
    let func: LogCb = Box::new(cb);
    if !qml_video_rs::video_player::MDKPlayerWrapper::set_log_handler(config, func) {
        return false;
    }
    config.log_handler.log(1, "x".to_string())
}

#[test]
fn host_performs_what_the_item_queued() {
    let mut host = Host::default();
    host.on_process_pixels(Box::new(|_f, _ts, w, h, s, px| {
        for b in px.iter_mut() {
            *b = !*b;
        }
        (w, h, s)
    }));
    host.core.component_complete();
    host.paint();
    let mut frame = vec![0u8; 16];
    let (w, h, s, rendered) = host.process_pixels(0, 0.0, 2, 2, 8, &mut frame);
    assert_eq!((w, h, s), (2, 2, 8));
    assert!(rendered);
    assert_eq!(frame, vec![0xFFu8; 16]);

    host.core.onReadyForProcessing(Box::new(|| false));
    let (w, _h, _s, rendered) = host.process_pixels(1, 0.0, 2, 2, 8, &mut frame);
    assert_eq!(w, 2);
    assert!(!rendered);
    assert_eq!(host.core.frames_offered, 2);

    host.core.setUrl("file:///clip.mp4".to_string(), true);
    host.flush(&mut None);
    assert_eq!(host.url, "file:///clip.mp4");
    assert_eq!(host.m_player.done, vec!["url file:///clip.mp4", "muted true", "redraw"]);
    assert_eq!(host.emitted, vec![ItemSignal::PlayingChanged, ItemSignal::MutedChanged]);
    let (_w, _h, _s, rendered) = host.process_pixels(2, 0.0, 2, 2, 8, &mut frame);
    assert!(!rendered);
    assert_eq!(host.core.frames_offered, 2);
}

#[test]
fn host_derives_the_frame_number() {
    let mut host = Host::default();
    host.core.videoLoaded(carrier(1000.0), 25, carrier(25.0), 4, 4);
    host.flush(&mut None);
    assert_eq!(host.frame_rate, 25.0);
    host.emitted.clear();
    host.frame_rendered(-5.0);
    assert!(host.emitted.is_empty());
    host.frame_rendered(-0.0);
    assert!(host.emitted.is_empty());
    host.frame_rendered(81.0);
    assert_eq!(host.core.currentFrame, 3);
    assert_eq!(host.timestamp, 81.0);
    assert_eq!(host.emitted, vec![ItemSignal::TimestampChanged, ItemSignal::CurrentFrameChanged]);
}

#[test]
fn host_hands_the_processing_callback_to_the_engine() {
    let mut host = Host::default();
    let seen = std::rc::Rc::new(std::cell::Cell::new(0usize));
    let count = seen.clone();
    host.start_processing(1, 2, 2, false, vec![(0, 10)], move |_f, _ts, _w, _h, px| {
        count.set(count.get() + px.len());
    });
    assert_eq!(host.m_player.done, vec!["process 1 2 2 false 1"]);
    let registration = &mut host.m_player.slots[0];
    assert_eq!(registration.invoke(0, carrier(0.0), 2, 2, &mut [0; 16]), Invocation::Delivered);
    assert_eq!(registration.invoke(-1, carrier(0.0), 0, 0, &mut []), Invocation::DeliveredLast);
    assert_eq!(registration.invoke(-1, carrier(0.0), 0, 0, &mut []), Invocation::Ignored);
    assert_eq!(seen.get(), 16);
}

#[test]
fn host_installs_one_log_handler() {
    let mut config: ProcessConfig<LogCb> = ProcessConfig::new();
    assert!(set_log_handler(&mut config, |_l, _t| {}));
    assert!(!set_log_handler(&mut config, |_l, _t| {}));
}
