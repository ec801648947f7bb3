use qml_video_rs::callback::{Invocation, RegisteredCallback};
use qml_video_rs::config::{GlobalOption, LogHandler, ProcessConfig};
use qml_video_rs::counter::next_count;
use qml_video_rs::frame::Double;
use qml_video_rs::video_item::MDKVideoItem;
use qml_video_rs::video_player::{MDKPlayerWrapper, PlayerCommand};
use std::cell::{Cell, RefCell};
use std::rc::Rc;

type PixelCb = Box<dyn Fn(u32, Double, u32, u32, u32, &mut [u8]) -> (u32, u32, u32)>;
type TextureCb = Box<dyn Fn(u32, Double, u32, u32, u32, [u64; 5]) -> bool>;
type ReadyCb = Box<dyn Fn() -> bool>;
type ResizeCb = Box<dyn Fn(u32, u32)>;
type Item = MDKVideoItem<PixelCb, TextureCb, ReadyCb, ResizeCb>;
type LogCb = Box<dyn Fn(i32, String)>;

fn ms(value: f64) -> Double {
    Double::from_bits(value.to_bits())
}

/// Set when the callback is dropped.
struct DropFlag(Rc<Cell<u32>>);

impl Drop for DropFlag {
    fn drop(&mut self) {
        self.0.set(self.0.get() + 1);
    }
}

#[test]
fn non_terminal_invocations_keep_the_callback() {
    let calls = Rc::new(Cell::new(0u32));
    let drops = Rc::new(Cell::new(0u32));
    let flag = DropFlag(drops.clone());
    let seen = calls.clone();
    let mut registered = RegisteredCallback::register(
        move |_frame: i32, _ts: Double, _w: u32, _h: u32, _px: &mut [u8]| {
            let _held = &flag;
            seen.set(seen.get() + 1);
        },
    );
    for frame in 0..1000 {
        let outcome = registered.invoke(frame, ms(frame as f64), 2, 2, &mut [0u8; 16]);
        assert_eq!(outcome, Invocation::Delivered);
        assert!(registered.is_live());
    }
    assert_eq!(calls.get(), 1000);
    assert_eq!(drops.get(), 0);
    assert_eq!(registered.invoke(i32::MAX, ms(0.0), 0, 0, &mut []), Invocation::Delivered);
    assert_eq!(drops.get(), 0);
}

#[test]
fn terminal_invocation_releases_exactly_once() {
    let calls = Rc::new(Cell::new(0u32));
    let drops = Rc::new(Cell::new(0u32));
    let flag = DropFlag(drops.clone());
    let seen = calls.clone();
    let mut registered = RegisteredCallback::register(
        move |_frame: i32, _ts: Double, _w: u32, _h: u32, _px: &mut [u8]| {
            let _held = &flag;
            seen.set(seen.get() + 1);
        },
    );
    assert_eq!(registered.invoke(0, ms(0.0), 2, 2, &mut [0u8; 16]), Invocation::Delivered);
    assert_eq!(registered.invoke(1, ms(40.0), 2, 2, &mut [0u8; 16]), Invocation::Delivered);
    assert_eq!(registered.invoke(-1, ms(80.0), 0, 0, &mut []), Invocation::DeliveredLast);
    assert_eq!(calls.get(), 3);
    assert_eq!(drops.get(), 1);
    assert!(!registered.is_live());
    // nothing is invoked after the release
    assert_eq!(registered.invoke(2, ms(120.0), 2, 2, &mut [0u8; 16]), Invocation::Ignored);
    assert_eq!(calls.get(), 3);
    assert_eq!(drops.get(), 1);
}

#[test]
fn terminal_release_twice_is_a_no_op() {
    let calls = Rc::new(Cell::new(0u32));
    let drops = Rc::new(Cell::new(0u32));
    let flag = DropFlag(drops.clone());
    let seen = calls.clone();
    let mut registered = RegisteredCallback::register(
        move |_frame: i32, _ts: Double, _w: u32, _h: u32, _px: &mut [u8]| {
            let _held = &flag;
            seen.set(seen.get() + 1);
        },
    );
    assert_eq!(registered.invoke(-1, ms(0.0), 0, 0, &mut []), Invocation::DeliveredLast);
    assert_eq!(registered.invoke(-1, ms(0.0), 0, 0, &mut []), Invocation::Ignored);
    assert_eq!(calls.get(), 1);
    assert_eq!(drops.get(), 1);
    assert!(!registered.is_live());
    assert!(!registered.release());
    assert_eq!(drops.get(), 1);
}

#[test]
fn explicit_release_happens_once() {
    let drops = Rc::new(Cell::new(0u32));
    let flag = DropFlag(drops.clone());
    let mut registered = RegisteredCallback::register(
        move |_frame: i32, _ts: Double, _w: u32, _h: u32, _px: &mut [u8]| {
            let _held = &flag;
        },
    );
    assert!(registered.is_live());
    assert!(registered.release());
    assert_eq!(drops.get(), 1);
    assert!(!registered.release());
    assert_eq!(drops.get(), 1);
    assert_eq!(registered.invoke(-5, ms(0.0), 0, 0, &mut []), Invocation::Ignored);
}

#[test]
fn invocation_hands_the_arguments_through() {
    let seen: Rc<RefCell<Vec<(i32, u64, u32, u32, Vec<u8>)>>> = Rc::new(RefCell::new(Vec::new()));
    let log = seen.clone();
    let mut registered = RegisteredCallback::register(
        move |frame: i32, ts: Double, w: u32, h: u32, px: &mut [u8]| {
            log.borrow_mut().push((frame, ts.to_bits(), w, h, px.to_vec()));
        },
    );
    registered.invoke(7, ms(280.5), 3, 2, &mut [1, 2, 3]);
    registered.invoke(-1, ms(0.0), 0, 0, &mut []);
    let seen = seen.borrow();
    assert_eq!(seen.len(), 2);
    assert_eq!(seen[0], (7, 280.5f64.to_bits(), 3, 2, vec![1, 2, 3]));
    assert_eq!(seen[1], (-1, 0.0f64.to_bits(), 0, 0, Vec::new()));
}

#[test]
fn what_the_callback_writes_stays_in_the_pixels() {
    let mut registered = RegisteredCallback::register(
        |frame: i32, _ts: Double, _w: u32, _h: u32, px: &mut [u8]| {
            for b in px.iter_mut() {
                *b = b.wrapping_add(frame as u8);
            }
        },
    );
    let mut pixels = vec![1u8, 2, 3, 4];
    assert_eq!(registered.invoke(10, ms(0.0), 1, 1, &mut pixels), Invocation::Delivered);
    assert_eq!(pixels, vec![11, 12, 13, 14]);
    assert_eq!(registered.invoke(-1, ms(0.0), 1, 1, &mut pixels), Invocation::DeliveredLast);
    assert_eq!(pixels, vec![10, 11, 12, 13]);
    // a released registration leaves the pixels alone
    assert_eq!(registered.invoke(5, ms(0.0), 1, 1, &mut pixels), Invocation::Ignored);
    assert_eq!(pixels, vec![10, 11, 12, 13]);
}

#[test]
fn a_mutable_callback_keeps_its_state_between_frames() {
    let total = Rc::new(Cell::new(0usize));
    let out = total.clone();
    let mut bytes = 0usize;
    let mut registered = RegisteredCallback::register(
        move |_frame: i32, _ts: Double, _w: u32, _h: u32, px: &mut [u8]| {
            bytes += px.len();
            out.set(bytes);
        },
    );
    registered.invoke(0, ms(0.0), 1, 1, &mut [0u8; 4]);
    registered.invoke(1, ms(1.0), 1, 1, &mut [0u8; 6]);
    assert_eq!(total.get(), 10);
}

#[test]
fn start_processing_queues_the_pass_and_registers_the_callback() {
    let calls = Rc::new(Cell::new(0u32));
    let seen = calls.clone();
    let mut player = MDKPlayerWrapper::new();
    let mut registered = player.start_processing(
        9,
        1920,
        1080,
        true,
        vec![(0, 1000), (5000, 6000)],
        move |_frame: i32, _ts: Double, _w: u32, _h: u32, _px: &mut [u8]| {
            seen.set(seen.get() + 1);
        },
    );
    assert_eq!(
        player.take_commands(),
        vec![PlayerCommand::StartProcessing {
            id: 9,
            width: 1920,
            height: 1080,
            yuv: true,
            ranges_ms: vec![(0, 1000), (5000, 6000)],
        }]
    );
    assert!(registered.is_live());
    assert_eq!(registered.invoke(0, ms(0.0), 1920, 1080, &mut []), Invocation::Delivered);
    assert_eq!(registered.invoke(-1, ms(0.0), 0, 0, &mut []), Invocation::DeliveredLast);
    assert_eq!(calls.get(), 2);
}

#[test]
fn item_start_processing_forwards_to_the_player() {
    let mut item = Item::new();
    let mut registered = item.startProcessing(
        1,
        64,
        32,
        false,
        vec![(10, 20)],
        |_frame: i32, _ts: Double, _w: u32, _h: u32, _px: &mut [u8]| {},
    );
    assert_eq!(
        item.get_mdkplayer().take_commands(),
        vec![PlayerCommand::StartProcessing {
            id: 1,
            width: 64,
            height: 32,
            yuv: false,
            ranges_ms: vec![(10, 20)],
        }]
    );
    assert!(registered.release());
}

#[test]
fn log_handler_is_installed_once() {
    let first = Rc::new(RefCell::new(Vec::<(i32, String)>::new()));
    let second = Rc::new(Cell::new(0u32));
    let mut config: ProcessConfig<LogCb> = ProcessConfig::new();
    assert!(!config.log_handler.is_installed());
    assert!(!config.log_handler.log(1, "lost".to_string()));
    let sink = first.clone();
    assert!(Item::setLogHandler(
        &mut config,
        Box::new(move |level, text| sink.borrow_mut().push((level, text)))
    ));
    let other = second.clone();
    assert!(!MDKPlayerWrapper::set_log_handler(
        &mut config,
        Box::new(move |_level, _text| other.set(other.get() + 1))
    ));
    assert!(config.log_handler.is_installed());
    assert!(config.log_handler.log(2, "opened".to_string()));
    assert!(config.log_handler.log(0, "closed".to_string()));
    assert_eq!(*first.borrow(), vec![(2, "opened".to_string()), (0, "closed".to_string())]);
    assert_eq!(second.get(), 0);
}

#[test]
fn log_handler_slot_alone() {
    let lines = Rc::new(Cell::new(0u32));
    let mut slot: LogHandler<LogCb> = LogHandler::new();
    let count = lines.clone();
    assert!(slot.install(Box::new(move |_l, _t| count.set(count.get() + 1))));
    assert!(!slot.install(Box::new(|_l, _t| {})));
    for _ in 0..5 {
        assert!(slot.log(3, String::new()));
    }
    assert_eq!(lines.get(), 5);
}

#[test]
fn global_options_are_queued_in_order() {
    let mut config: ProcessConfig<LogCb> = ProcessConfig::new();
    Item::setGlobalOption(&mut config, "MDK_KEY", "secret");
    MDKPlayerWrapper::set_global_option(&mut config, "logLevel".to_string(), "all".to_string());
    config.set_global_option("a".to_string(), String::new());
    let taken = config.take_options();
    assert_eq!(
        taken,
        vec![
            GlobalOption { key: "MDK_KEY".to_string(), value: "secret".to_string() },
            GlobalOption { key: "logLevel".to_string(), value: "all".to_string() },
            GlobalOption { key: "a".to_string(), value: String::new() },
        ]
    );
    assert!(config.take_options().is_empty());
    assert!(!config.log_handler.is_installed());
}

#[test]
fn counters_start_over() {
    assert_eq!(next_count(0), 1);
    assert_eq!(next_count(41), 42);
    assert_eq!(next_count(u64::MAX - 1), u64::MAX);
    assert_eq!(next_count(u64::MAX), 0);
}
