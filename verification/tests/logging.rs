//! The logging call path: one drain invocation per call, silent failure
//! absorption, buffer discipline, and concurrent use of one hierarchy.

use std::sync::atomic::AtomicUsize;
use std::sync::atomic::Ordering;
use std::sync::Arc;
use std::sync::Mutex;

use slog::discard;
use slog::BorrowedKeyValue;
use slog::Discard;
use slog::Drain;
use slog::DrainError;
use slog::Level;
use slog::Logger;
use slog::OwnedKeyValue;
use slog::RecordInfo;

/// Counts invocations and records the level of each.
struct Counting {
    count: Arc<AtomicUsize>,
    levels: Arc<Mutex<Vec<Level>>>,
}

impl Drain for Counting {
    fn log(
        &self,
        _buf: &mut Vec<u8>,
        info: &mut RecordInfo,
        _logger_values: &[OwnedKeyValue],
        _values: &[BorrowedKeyValue],
    ) -> Result<(), DrainError> {
        self.count.fetch_add(1, Ordering::SeqCst);
        self.levels.lock().unwrap().push(info.level());
        Ok(())
    }
}

/// Writes into the scratch buffer, then fails.
struct WriteAndFail;

impl Drain for WriteAndFail {
    fn log(
        &self,
        buf: &mut Vec<u8>,
        info: &mut RecordInfo,
        _logger_values: &[OwnedKeyValue],
        _values: &[BorrowedKeyValue],
    ) -> Result<(), DrainError> {
        buf.extend_from_slice(info.msg().as_bytes());
        Err(DrainError)
    }
}

/// Checks that the buffer it is handed carries nothing from any other call.
struct ExpectsEmptyBuffer {
    clean: Arc<AtomicUsize>,
}

impl Drain for ExpectsEmptyBuffer {
    fn log(
        &self,
        buf: &mut Vec<u8>,
        info: &mut RecordInfo,
        _logger_values: &[OwnedKeyValue],
        _values: &[BorrowedKeyValue],
    ) -> Result<(), DrainError> {
        if buf.is_empty() {
            self.clean.fetch_add(1, Ordering::SeqCst);
        }
        buf.extend_from_slice(info.msg().as_bytes());
        Ok(())
    }
}

fn counting() -> (Counting, Arc<AtomicUsize>, Arc<Mutex<Vec<Level>>>) {
    let count = Arc::new(AtomicUsize::new(0));
    let levels = Arc::new(Mutex::new(Vec::new()));
    (Counting { count: count.clone(), levels: levels.clone() }, count, levels)
}

#[test]
fn error_on_child_invokes_installed_drain_exactly_once() {
    let (drain, count, levels) = counting();
    let root = Logger::new_root(&[]);
    // The root starts on the no-op drain; replace it.
    root.set_drain(drain);
    let child = root.new(&[]);

    child.error("boom", &[]);

    assert_eq!(count.load(Ordering::SeqCst), 1);
    assert_eq!(*levels.lock().unwrap(), vec![Level::Error]);
}

#[test]
fn each_level_function_reports_its_level() {
    let (drain, count, levels) = counting();
    let root = Logger::new_root(&[]);
    root.set_drain(drain);

    root.critical("m", &[]);
    root.error("m", &[]);
    root.warn("m", &[]);
    root.info("m", &[]);
    root.debug("m", &[]);
    root.trace("m", &[]);

    assert_eq!(count.load(Ordering::SeqCst), 6);
    assert_eq!(
        *levels.lock().unwrap(),
        vec![
            Level::Critical,
            Level::Error,
            Level::Warning,
            Level::Info,
            Level::Debug,
            Level::Trace,
        ]
    );
}

#[test]
fn fresh_root_logs_to_noop_drain_without_failing() {
    let root = Logger::new_root(&[]);
    root.info("nobody listens", &[]);
    root.error("still nobody", &[]);
}

#[test]
fn drain_failure_is_absorbed() {
    let root = Logger::new_root(&[]);
    root.set_drain(WriteAndFail);
    // The drain fails on every record; the caller must not notice.
    root.critical("dropped", &[]);
    root.trace("also dropped", &[]);
}

#[test]
fn buffer_is_cleared_on_success_and_on_failure() {
    let root = Logger::new_root(&[]);

    let mut buf: Vec<u8> = vec![9, 9, 9];
    root.set_drain(ExpectsEmptyBuffer { clean: Arc::new(AtomicUsize::new(0)) });
    root.log_to(&mut buf, Level::Info, "ok", &[]);
    assert!(buf.is_empty());

    root.set_drain(WriteAndFail);
    root.log_to(&mut buf, Level::Info, "fails", &[]);
    assert!(buf.is_empty());
}

#[test]
fn reused_buffer_arrives_empty_at_the_next_call() {
    let clean = Arc::new(AtomicUsize::new(0));
    let root = Logger::new_root(&[]);
    root.set_drain(ExpectsEmptyBuffer { clean: clean.clone() });

    let mut buf: Vec<u8> = Vec::new();
    root.log_to(&mut buf, Level::Info, "first", &[]);
    root.log_to(&mut buf, Level::Info, "second", &[]);
    root.log_to(&mut buf, Level::Info, "third", &[]);

    // The drain wrote into the buffer on every call, yet found it empty
    // again on each of the following calls.
    assert_eq!(clean.load(Ordering::SeqCst), 3);
}

#[test]
fn discard_builds_the_noop_drain() {
    let root = Logger::new_root(&[]);
    root.set_drain(discard());
    root.info("m", &[]);
    root.set_drain(Discard);
    root.info("m", &[]);
}

#[test]
fn concurrent_logging_from_many_threads() {
    let count = Arc::new(AtomicUsize::new(0));
    let clean = Arc::new(AtomicUsize::new(0));
    let root = Logger::new_root(&[OwnedKeyValue::new("service", "x")]);
    root.set_drain(ExpectsEmptyBuffer { clean: clean.clone() });

    let threads: usize = 8;
    let per_thread: usize = 50;
    crossbeam::scope(|scope| {
        for _ in 0..threads {
            let child = root.new(&[OwnedKeyValue::new("worker", "w")]);
            let count = count.clone();
            scope.spawn(move || {
                for _ in 0..per_thread {
                    child.info("concurrent", &[]);
                    count.fetch_add(1, Ordering::SeqCst);
                }
            });
        }
    });

    assert_eq!(count.load(Ordering::SeqCst), threads * per_thread);
    // Every invocation received a buffer untouched by any other call.
    assert_eq!(clean.load(Ordering::SeqCst), threads * per_thread);
}
