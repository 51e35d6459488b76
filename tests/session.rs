use std::cell::{Cell, RefCell};
use std::sync::atomic::{AtomicUsize, Ordering};

use libmagic_rs::cookie::{DatabasePaths, Flags, Load, Open, OpenErrorKind};
use libmagic_rs::magic::{self, error_from_slot, settle_status, settle_text, Native};
use libmagic_rs::{libmagic_version, Cookie};

/// Flag bit that makes the fake refuse to open with EINVAL.
const REFUSE_INVALID: u32 = 0x8000_0000;
/// Flag bit that makes the fake refuse to open with ENOMEM.
const REFUSE_NOMEM: u32 = 0x4000_0000;
/// Flag bit that makes the fake count the instance's opening and release.
const COUNTED: u32 = 0x2000_0000;

static OPENED: AtomicUsize = AtomicUsize::new(0);
static CLOSED: AtomicUsize = AtomicUsize::new(0);

/// An engine that knows one database file, "good.mgc", and counts how many
/// instances opened with `COUNTED` were opened and released.
#[derive(Debug)]
struct Fake {
    counted: bool,
    flags: Cell<u32>,
    loaded: Cell<bool>,
    error: RefCell<Option<String>>,
    errno: Cell<i32>,
}

impl Fake {
    fn fail(&self, explanation: &str, errno: i32) {
        *self.error.borrow_mut() = Some(explanation.to_string());
        self.errno.set(errno);
    }

    fn status(&self, filenames: Option<&str>) -> i32 {
        match filenames {
            None => 0,
            Some(names) if names.split(':').all(|n| n == "good.mgc") => 0,
            Some(_) => {
                self.fail("could not find any valid magic files!", 2);
                -1
            }
        }
    }
}

impl Drop for Fake {
    fn drop(&mut self) {
        if self.counted {
            CLOSED.fetch_add(1, Ordering::SeqCst);
        }
    }
}

impl Native for Fake {
    fn open(flags: u32) -> Result<Self, i32> {
        if flags & REFUSE_INVALID != 0 {
            return Err(22);
        }
        if flags & REFUSE_NOMEM != 0 {
            return Err(12);
        }
        let counted = flags & COUNTED != 0;
        if counted {
            OPENED.fetch_add(1, Ordering::SeqCst);
        }
        Ok(Fake {
            counted,
            flags: Cell::new(flags),
            loaded: Cell::new(false),
            error: RefCell::new(None),
            errno: Cell::new(0),
        })
    }

    fn error(&self) -> Option<String> {
        self.error.borrow().clone()
    }

    fn errno(&self) -> i32 {
        self.errno.get()
    }

    fn file(&self, filename: &str) -> Option<String> {
        if !self.loaded.get() {
            self.fail("no magic files loaded", 0);
            return None;
        }
        if filename == "missing" {
            self.fail("cannot open `missing' (No such file or directory)", 2);
            return None;
        }
        Some(format!("ASCII text ({})", filename.len()))
    }

    fn buffer(&self, buffer: &[u8]) -> Option<String> {
        if !self.loaded.get() {
            self.fail("no magic files loaded", 0);
            return None;
        }
        if buffer.is_empty() {
            Some("empty".to_string())
        } else if buffer.starts_with(b"%PDF") {
            Some("PDF document".to_string())
        } else {
            Some("data".to_string())
        }
    }

    fn setflags(&self, flags: u32) -> i32 {
        if flags & 0x80 != 0 {
            self.fail("cannot preserve access time", 95);
            return -1;
        }
        self.flags.set(flags);
        0
    }

    fn check(&self, filenames: Option<&str>) -> i32 {
        self.status(filenames)
    }

    fn compile(&self, filenames: Option<&str>) -> i32 {
        self.status(filenames)
    }

    fn list(&self, filenames: Option<&str>) -> i32 {
        self.status(filenames)
    }

    fn load(&self, filenames: Option<&str>) -> i32 {
        let res = self.status(filenames);
        if res == 0 {
            self.loaded.set(true);
        }
        res
    }

    fn load_buffers(&self, buffers: &[&[u8]]) -> i32 {
        if buffers.is_empty() || buffers.iter().any(|b| b.is_empty()) {
            self.fail("no magic in buffer", 0);
            return -1;
        }
        self.loaded.set(true);
        0
    }

    fn version() -> i32 {
        545
    }

    fn contract_violated(&self, description: &str) {
        panic!("engine broke its calling convention: {}", description);
    }
}

fn good() -> DatabasePaths {
    DatabasePaths::new(&["good.mgc"]).unwrap()
}

fn counted() -> Flags {
    Flags::from_bits_retain(COUNTED)
}

fn bad() -> DatabasePaths {
    DatabasePaths::new(&["bad.mgc"]).unwrap()
}

#[test]
fn open_then_set_same_flags() {
    let flags = Flags::error().union(Flags::mime());
    let cookie = Cookie::<Open, Fake>::open(flags).unwrap();
    assert!(cookie.set_flags(flags).is_ok());
}

#[test]
fn open_refused_with_invalid_input() {
    let flags = Flags::from_bits_retain(REFUSE_INVALID | 0x1);
    let err = Cookie::<Open, Fake>::open(flags).unwrap_err();
    assert_eq!(err.kind(), OpenErrorKind::UnsupportedFlags);
    assert_eq!(err.flags(), flags);
    assert_eq!(err.source().errno(), 22);
    assert_eq!(err.source().flags(), REFUSE_INVALID | 0x1);
}

#[test]
fn open_refused_with_other_errno() {
    let flags = Flags::from_bits_retain(REFUSE_NOMEM);
    let err = Cookie::<Open, Fake>::open(flags).unwrap_err();
    assert_eq!(err.kind(), OpenErrorKind::Errno);
    assert_eq!(err.source().errno(), 12);
}

#[test]
fn set_flags_refusal_names_preserve_atime() {
    let cookie = Cookie::<Open, Fake>::open(Flags::empty()).unwrap();
    let err = cookie.set_flags(Flags::preserve_atime().union(Flags::debug())).unwrap_err();
    assert_eq!(err.function(), "magic_setflags");
    assert_eq!(err.flags(), Flags::preserve_atime());
    assert_eq!(err.source().explanation(), "cannot preserve access time");
    assert_eq!(err.source().errno(), Some(95));
}

#[test]
fn load_twice_stays_usable() {
    let cookie = Cookie::<Open, Fake>::open(Flags::error()).unwrap();
    let cookie = cookie.load(&good()).unwrap();
    assert_eq!(cookie.file("notes.txt").unwrap(), "ASCII text (9)");
    let cookie = cookie.load(&good()).unwrap();
    assert_eq!(cookie.file("notes.txt").unwrap(), "ASCII text (9)");
}

#[test]
fn failed_load_returns_session() {
    let cookie = Cookie::<Open, Fake>::open(Flags::error()).unwrap();
    let err = cookie.load(&bad()).unwrap_err();
    assert_eq!(err.function(), "magic_load");
    assert_eq!(err.source().explanation(), "could not find any valid magic files!");
    assert_eq!(err.source().errno(), Some(2));
    let cookie: Cookie<Open, Fake> = err.cookie();
    let cookie: Cookie<Load, Fake> = cookie.load(&good()).unwrap();
    assert!(cookie.buffer(b"%PDF-1.7").is_ok());
}

#[test]
fn load_default_database() {
    let cookie = Cookie::<Open, Fake>::open(Flags::empty()).unwrap();
    let cookie = cookie.load(&DatabasePaths::default()).unwrap();
    assert_eq!(cookie.buffer(b"").unwrap(), "empty");
}

#[test]
fn file_query_is_repeatable() {
    let cookie = Cookie::<Open, Fake>::open(Flags::empty()).unwrap();
    let cookie = cookie.load(&good()).unwrap();
    let first = cookie.file("README.md").unwrap();
    let second = cookie.file("README.md").unwrap();
    assert!(!first.is_empty());
    assert_eq!(first, second);
}

#[test]
fn file_query_failure_names_function() {
    let cookie = Cookie::<Open, Fake>::open(Flags::empty()).unwrap();
    let cookie = cookie.load(&good()).unwrap();
    let err = cookie.file("missing").unwrap_err();
    assert_eq!(err.function(), "magic_file");
    assert_eq!(err.source().errno(), Some(2));
}

#[test]
fn buffer_queries() {
    let cookie = Cookie::<Open, Fake>::open(Flags::empty()).unwrap();
    let db: &[u8] = b"compiled";
    let cookie = cookie.load_buffers(&[db]).unwrap();
    assert_eq!(cookie.buffer(b"%PDF-1.4").unwrap(), "PDF document");
    assert_eq!(cookie.buffer(b"\x00\x01").unwrap(), "data");
}

#[test]
fn failed_load_buffers_returns_session() {
    let cookie = Cookie::<Open, Fake>::open(Flags::empty()).unwrap();
    let empty: &[u8] = b"";
    let err = cookie.load_buffers(&[empty]).unwrap_err();
    assert_eq!(err.function(), "magic_load_buffers");
    assert_eq!(err.source().explanation(), "no magic in buffer");
    assert_eq!(err.source().errno(), None);
    let db: &[u8] = b"compiled";
    let cookie = err.cookie().load_buffers(&[db]).unwrap();
    assert_eq!(cookie.buffer(b"x").unwrap(), "data");
}

#[test]
fn database_maintenance_errors_name_function() {
    let cookie = Cookie::<Open, Fake>::open(Flags::empty()).unwrap();
    assert!(cookie.check(&good()).is_ok());
    assert!(cookie.compile(&good()).is_ok());
    assert!(cookie.list(&DatabasePaths::default()).is_ok());
    assert_eq!(cookie.check(&bad()).unwrap_err().function(), "magic_check");
    assert_eq!(cookie.compile(&bad()).unwrap_err().function(), "magic_compile");
    let err = cookie.list(&bad()).unwrap_err();
    assert_eq!(err.function(), "magic_list");
    assert_eq!(err.source().explanation(), "could not find any valid magic files!");
}

#[test]
fn engine_version() {
    assert_eq!(libmagic_version::<Fake>(), 545);
}

#[test]
fn every_instance_released_once() {
    {
        let _unloaded = Cookie::<Open, Fake>::open(counted()).unwrap();
    }
    {
        let cookie = Cookie::<Open, Fake>::open(counted()).unwrap();
        let _loaded = cookie.load(&good()).unwrap();
    }
    {
        let cookie = Cookie::<Open, Fake>::open(counted()).unwrap();
        let _err = cookie.load(&bad()).unwrap_err();
    }
    {
        let cookie = Cookie::<Open, Fake>::open(counted()).unwrap();
        let back = cookie.load(&bad()).unwrap_err().cookie();
        let loaded = back.load(&good()).unwrap();
        let reloaded = loaded.load(&good()).unwrap();
        let _ = reloaded.file("x");
    }
    {
        let _refused = Cookie::<Open, Fake>::open(Flags::from_bits_retain(REFUSE_INVALID | COUNTED));
    }
    assert_eq!(OPENED.load(Ordering::SeqCst), 4);
    assert_eq!(CLOSED.load(Ordering::SeqCst), 4);
}

#[test]
fn settled_status_results() {
    let cookie = magic::Cookie::new(Fake::open(0).unwrap());
    assert!(settle_status(&cookie, 0, None, "unexplained", "undocumented").is_ok());
    let last = error_from_slot(Some("no such file".to_string()), 2);
    let err = settle_status(&cookie, -1, last, "unexplained", "undocumented").unwrap_err();
    assert_eq!(err.explanation(), "no such file");
    assert_eq!(err.errno(), Some(2));
}

#[test]
fn settled_text_results() {
    let cookie = magic::Cookie::new(Fake::open(0).unwrap());
    let text = settle_text(&cookie, Some("ASCII text".to_string()), None, "unexplained");
    assert_eq!(text.unwrap(), "ASCII text");
    let last = error_from_slot(Some("cannot read".to_string()), 0);
    let err = settle_text(&cookie, None, last, "unexplained").unwrap_err();
    assert_eq!(err.explanation(), "cannot read");
    assert_eq!(err.errno(), None);
}

#[test]
fn open_reply_keeps_errno() {
    let refused = magic::open_reply::<Fake>(0x81, Err(12)).unwrap_err();
    assert_eq!(refused.errno(), 12);
    assert_eq!(refused.flags(), 0x81);
    let flags = Flags::nodesc().union(Flags::no_check_json());
    let err = Cookie::<Open, Fake>::finish_open(flags, magic::open_reply::<Fake>(flags.bits(), Err(22)))
        .unwrap_err();
    assert_eq!(err.kind(), OpenErrorKind::UnsupportedFlags);
    assert_eq!(err.flags(), flags);
    assert_eq!(Flags::from_bits(err.source().flags()), Some(flags));
    let opened = magic::open_reply::<Fake>(0, Fake::open(0).map_err(|_| 0));
    assert!(Cookie::<Open, Fake>::finish_open(Flags::empty(), opened).is_ok());
}
