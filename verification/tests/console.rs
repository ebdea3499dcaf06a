use std::sync::Mutex;

use prototyper::console::{
    _print, advance, install, installed, is_installed, AlreadyInstalled, ConsoleDevice,
    ConsoleSlot, ConsoleWriter, WriteStopped,
};

struct OneByteAtATime(Mutex<Vec<u8>>);

impl ConsoleDevice for OneByteAtATime {
    fn write(&self, bytes: &[u8]) -> usize {
        self.0.lock().unwrap().push(bytes[0]);
        1
    }
}

static DEVICE: OneByteAtATime = OneByteAtATime(Mutex::new(Vec::new()));

#[test]
fn print_handles_partial_writes_inside_utf8_characters() {
    let mut console: ConsoleSlot<&'static dyn ConsoleDevice> = ConsoleSlot::new();
    install(&mut console, &DEVICE).unwrap();
    _print(&console, &format!("{}\n", format!("hart α: {}", 7)));
    assert_eq!(&*DEVICE.0.lock().unwrap(), "hart α: 7\n".as_bytes());
}

/// Accepts at most `limit` bytes in total, then reports zero.
struct Limited {
    out: Mutex<Vec<u8>>,
    limit: usize,
    calls: Mutex<Vec<usize>>,
}

impl Limited {
    fn new(limit: usize) -> Self {
        Limited { out: Mutex::new(Vec::new()), limit, calls: Mutex::new(Vec::new()) }
    }
}

impl ConsoleDevice for Limited {
    fn write(&self, bytes: &[u8]) -> usize {
        self.calls.lock().unwrap().push(bytes.len());
        let mut out = self.out.lock().unwrap();
        let room = self.limit - out.len();
        let n = room.min(bytes.len()).min(3);
        out.extend_from_slice(&bytes[..n]);
        n
    }
}

/// Claims to have written far more than it was handed.
struct Boastful(Mutex<Vec<u8>>);

impl ConsoleDevice for Boastful {
    fn write(&self, bytes: &[u8]) -> usize {
        self.0.lock().unwrap().extend_from_slice(bytes);
        usize::MAX
    }
}

#[test]
fn output_is_discarded_until_installed() {
    let console: ConsoleSlot<&Limited> = ConsoleSlot::new();
    assert!(!is_installed(&console));
    assert!(installed(&console).is_none());
    assert_eq!(_print(&console, "dropped"), None);
}

#[test]
fn install_is_one_shot() {
    let first = Limited::new(100);
    let second = Limited::new(100);
    let mut console: ConsoleSlot<&Limited> = ConsoleSlot::new();
    assert_eq!(install(&mut console, &first), Ok(()));
    assert!(is_installed(&console));
    assert_eq!(install(&mut console, &second), Err(AlreadyInstalled));
    assert!(std::ptr::eq(*installed(&console).unwrap(), &first));
    assert_eq!(_print(&console, "hello"), Some(5));
    assert_eq!(&*first.out.lock().unwrap(), b"hello");
    assert!(second.out.lock().unwrap().is_empty());
}

#[test]
fn writer_resumes_after_partial_writes() {
    let dev = Limited::new(100);
    let mut writer = ConsoleWriter { device: &dev };
    assert_eq!(writer.write_str("abcdefgh"), Ok(()));
    assert_eq!(&*dev.out.lock().unwrap(), b"abcdefgh");
    assert_eq!(&*dev.calls.lock().unwrap(), &[8, 5, 2]);
}

#[test]
fn writer_stops_when_device_writes_nothing() {
    let dev = Limited::new(4);
    let mut writer = ConsoleWriter { device: &dev };
    assert_eq!(writer.write_str("abcdefgh"), Err(WriteStopped { written: 4 }));
    assert_eq!(&*dev.out.lock().unwrap(), b"abcd");
    assert_eq!(&*dev.calls.lock().unwrap(), &[8, 5, 4]);
    let mut console: ConsoleSlot<&Limited> = ConsoleSlot::new();
    install(&mut console, &dev).unwrap();
    assert_eq!(_print(&console, "xyz"), Some(0));
}

#[test]
fn writer_caps_overlong_reports() {
    let dev = Boastful(Mutex::new(Vec::new()));
    let mut writer = ConsoleWriter { device: &dev };
    assert_eq!(writer.write_str("abc"), Ok(()));
    assert_eq!(&*dev.0.lock().unwrap(), b"abc");
}

#[test]
fn empty_text_needs_no_device_call() {
    let dev = Limited::new(0);
    let mut writer = ConsoleWriter { device: &dev };
    assert_eq!(writer.write_str(""), Ok(()));
    assert!(dev.calls.lock().unwrap().is_empty());
}

#[test]
fn advance_steps() {
    assert_eq!(advance(0, 10, 3), Some(3));
    assert_eq!(advance(4, 6, 100), Some(10));
    assert_eq!(advance(4, 6, 0), None);
    assert_eq!(advance(7, 0, 5), None);
}
