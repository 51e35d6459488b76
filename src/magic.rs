//! The engine's primitives, named as the engine's header names them.
use vstd::prelude::*;

verus! {

pub const MAGIC_NONE: u32 = 0x0000000;
pub const MAGIC_DEBUG: u32 = 0x0000001;
pub const MAGIC_SYMLINK: u32 = 0x0000002;
pub const MAGIC_COMPRESS: u32 = 0x0000004;
pub const MAGIC_DEVICES: u32 = 0x0000008;
pub const MAGIC_MIME_TYPE: u32 = 0x0000010;
pub const MAGIC_CONTINUE: u32 = 0x0000020;
pub const MAGIC_CHECK: u32 = 0x0000040;
pub const MAGIC_PRESERVE_ATIME: u32 = 0x0000080;
pub const MAGIC_RAW: u32 = 0x0000100;
pub const MAGIC_ERROR: u32 = 0x0000200;
pub const MAGIC_MIME_ENCODING: u32 = 0x0000400;
pub const MAGIC_MIME: u32 = MAGIC_MIME_TYPE | MAGIC_MIME_ENCODING;
pub const MAGIC_APPLE: u32 = 0x0000800;
pub const MAGIC_EXTENSION: u32 = 0x1000000;
pub const MAGIC_NODESC: u32 = MAGIC_EXTENSION | MAGIC_MIME | MAGIC_APPLE;
pub const MAGIC_NO_CHECK_COMPRESS: u32 = 0x0001000;
pub const MAGIC_NO_CHECK_TAR: u32 = 0x0002000;
pub const MAGIC_NO_CHECK_SOFT: u32 = 0x0004000;
pub const MAGIC_NO_CHECK_APPTYPE: u32 = 0x0008000;
pub const MAGIC_NO_CHECK_ELF: u32 = 0x0010000;
pub const MAGIC_NO_CHECK_TEXT: u32 = 0x0020000;
pub const MAGIC_NO_CHECK_CDF: u32 = 0x0040000;
pub const MAGIC_NO_CHECK_CSV: u32 = 0x0080000;
pub const MAGIC_NO_CHECK_TOKENS: u32 = 0x0100000;
pub const MAGIC_NO_CHECK_ENCODING: u32 = 0x0200000;
pub const MAGIC_NO_CHECK_JSON: u32 = 0x0400000;
/// Every "skip built-in test" bit but the soft-magic one.
pub const MAGIC_NO_CHECK_BUILTIN: u32 = MAGIC_NO_CHECK_COMPRESS | MAGIC_NO_CHECK_TAR
    | MAGIC_NO_CHECK_APPTYPE | MAGIC_NO_CHECK_ELF | MAGIC_NO_CHECK_TEXT | MAGIC_NO_CHECK_CSV
    | MAGIC_NO_CHECK_CDF | MAGIC_NO_CHECK_TOKENS | MAGIC_NO_CHECK_ENCODING | MAGIC_NO_CHECK_JSON;

// Database actions, as the engine numbers them.
pub const FILE_LOAD: u32 = 0;
pub const FILE_CHECK: u32 = 1;
pub const FILE_COMPILE: u32 = 2;
pub const FILE_LIST: u32 = 3;

/// The engine's primitives, over plain values.
///
/// A value of an implementation owns one engine instance, and releases it
/// (with the databases loaded into it) when dropped. Calls that fail say so by their
/// return value (`None`, or a status other than 0); the instance's error slot
/// then explains the failure until the next call overwrites it.
pub trait Native: Sized {
    /// Allocates an instance configured with `flags`, or gives the OS error
    /// code that explains why none could be had.
    fn open(flags: u32) -> Result<Self, i32>;

    /// The explanation in the error slot, if one was recorded.
    fn error(&self) -> Option<String>;

    /// The OS error code in the error slot; 0 where none was recorded.
    fn errno(&self) -> i32;

    /// Describes the file named `filename`; `None` on failure.
    fn file(&self, filename: &str) -> Option<String>;

    /// Describes the bytes of `buffer`; `None` on failure.
    fn buffer(&self, buffer: &[u8]) -> Option<String>;

    /// Reconfigures the instance; -1 on failure.
    fn setflags(&self, flags: u32) -> i32;

    /// Checks the validity of database files (`None`: the default); 0 on success, -1 on failure.
    fn check(&self, filenames: Option<&str>) -> i32;

    /// Compiles database files (`None`: the default); 0 on success, -1 on failure.
    fn compile(&self, filenames: Option<&str>) -> i32;

    /// Lists the entries of database files (`None`: the default); 0 on success, -1 on failure.
    fn list(&self, filenames: Option<&str>) -> i32;

    /// Loads database files (`None`: the default); 0 on success, -1 on failure.
    fn load(&self, filenames: Option<&str>) -> i32;

    /// Loads databases held in memory; 0 on success, -1 on failure.
    fn load_buffers(&self, buffers: &[&[u8]]) -> i32;

    /// The engine's version number.
    fn version() -> i32;

    /// Told that the instance broke its calling convention: it signalled a
    /// failure without explaining it, or returned a status it does not
    /// document. Nothing that follows can be trusted, so an implementation
    /// stops the program here.
    fn contract_violated(&self, description: &str);
}

/// The explanation and OS error code read from an instance's error slot right
/// after a call failed.
#[derive(Debug)]
pub struct CookieError {
    explanation: String,
    errno: Option<i32>,
}

impl View for CookieError {
    type V = (Seq<char>, Option<i32>);

    closed spec fn view(&self) -> (Seq<char>, Option<i32>) {
        (self.explanation@, self.errno)
    }
}

impl CookieError {
    pub fn explanation(&self) -> (r: &str)
        ensures
            r@ == self@.0,
    {
        self.explanation.as_str()
    }

    /// The OS error code, where the engine recorded one.
    pub fn errno(&self) -> (r: Option<i32>)
        ensures
            r == self@.1,
    {
        self.errno
    }
}

/// What the error slot holds: nothing without an explanation; else the
/// explanation, with the OS error code unless that is 0.
pub fn error_from_slot(explanation: Option<String>, errno: i32) -> (r: Option<CookieError>)
    ensures
        explanation is None <==> r is None,
        explanation is Some ==> r->Some_0@ == (
            explanation->Some_0@,
            if errno == 0 {
                None
            } else {
                Some(errno)
            },
        ),
{
    match explanation {
        None => None,
        Some(explanation) => Some(
            CookieError { explanation, errno: if errno == 0 {
                None
            } else {
                Some(errno)
            } },
        ),
    }
}

/// What a primitive's result means under the engine's calling convention.
#[derive(Debug)]
pub enum Reply<T> {
    /// The call succeeded with this value.
    Done(T),
    /// The call failed, and the error slot explains why.
    Failed(CookieError),
    /// The engine broke its convention: a failure left unexplained, or an
    /// undocumented status.
    Broken,
}

/// The meaning of status `res`, where `last` is what the error slot held
/// after the call.
pub fn status_reply(res: i32, last: Option<CookieError>) -> (r: Reply<()>)
    ensures
        res == 0 ==> r is Done,
        res == -1 && last is Some ==> r == Reply::<()>::Failed(last->Some_0),
        (res != 0 && res != -1) || (res == -1 && last is None) ==> r is Broken,
{
    if res == 0 {
        Reply::Done(())
    } else if res == -1 {
        match last {
            Some(err) => Reply::Failed(err),
            None => Reply::Broken,
        }
    } else {
        Reply::Broken
    }
}

/// The meaning of a text result `res` (`None` for a failure), where `last`
/// is what the error slot held after the call.
pub fn text_reply(res: Option<String>, last: Option<CookieError>) -> (r: Reply<String>)
    ensures
        res is Some ==> r == Reply::<String>::Done(res->Some_0),
        res is None && last is Some ==> r == Reply::<String>::Failed(last->Some_0),
        res is None && last is None ==> r is Broken,
{
    match res {
        Some(text) => Reply::Done(text),
        None => match last {
            Some(err) => Reply::Failed(err),
            None => Reply::Broken,
        },
    }
}

/// Sole owner of one engine instance, which is released when this is dropped.
///
/// The instance is never copied: it moves with this value, so it is released
/// exactly once.
#[derive(Debug)]
pub struct Cookie<N: Native> {
    native: N,
}

impl<N: Native> Cookie<N> {
    /// Takes ownership of an instance.
    pub fn new(native: N) -> (r: Cookie<N>)
        ensures
            r.native_spec() == native,
    {
        Cookie { native }
    }

    /// The instance owned.
    pub closed spec fn native_spec(&self) -> N {
        self.native
    }
}

/// What the engine says of every error it explains: an OS error code, where
/// one is given, is never 0.
pub open spec fn well_formed_error(err: CookieError) -> bool {
    err@.1 != Some(0i32)
}

/// Reads the error slot of `cookie`.
fn last_error<N: Native>(cookie: &Cookie<N>) -> (r: Option<CookieError>)
    ensures
        r is Some ==> well_formed_error(r->Some_0),
{
    let explanation = cookie.native.error();
    let errno = cookie.native.errno();
    error_from_slot(explanation, errno)
}

/// Reads the error slot of `cookie` where `failed`; the slot is trustworthy
/// only right after a failing call.
fn error_after<N: Native>(cookie: &Cookie<N>, failed: bool) -> (r: Option<CookieError>)
    ensures
        !failed ==> r is None,
        r is Some ==> well_formed_error(r->Some_0),
{
    if failed {
        last_error(cookie)
    } else {
        None
    }
}

/// Reports that the engine broke its calling convention, and gives the
/// description as the error of the failed call.
fn api_violation<N: Native>(cookie: &Cookie<N>, description: &str) -> (r: CookieError)
    ensures
        r@ == (description@, None::<i32>),
{
    cookie.native.contract_violated(description);
    CookieError { explanation: description.to_owned(), errno: None }
}

/// The result that `reply` stands for; a broken convention is reported.
fn settle<N: Native, T>(cookie: &Cookie<N>, reply: Reply<T>, description: &str) -> (r: Result<
    T,
    CookieError,
>)
    ensures
        reply is Done ==> r == Ok::<T, CookieError>(reply->Done_0),
        reply is Failed ==> r == Err::<T, CookieError>(reply->Failed_0),
        reply is Broken ==> r is Err && r->Err_0@ == (description@, None::<i32>),
{
    match reply {
        Reply::Done(value) => Ok(value),
        Reply::Failed(err) => Err(err),
        Reply::Broken => Err(api_violation(cookie, description)),
    }
}

/// The result of a call that returned status `res`, where `last` is what
/// the error slot held after it. A broken convention is reported, and
/// described by `unexplained` (a failure without an explanation) or
/// `undocumented` (a status other than 0 and -1).
pub fn settle_status<N: Native>(
    cookie: &Cookie<N>,
    res: i32,
    last: Option<CookieError>,
    unexplained: &str,
    undocumented: &str,
) -> (r: Result<(), CookieError>)
    ensures
        res == 0 ==> r == Ok::<(), CookieError>(()),
        res == -1 && last is Some ==> r == Err::<(), CookieError>(last->Some_0),
        res == -1 && last is None ==> r is Err && r->Err_0@ == (unexplained@, None::<i32>),
        res != 0 && res != -1 ==> r is Err && r->Err_0@ == (undocumented@, None::<i32>),
{
    let description = if res == -1 {
        unexplained
    } else {
        undocumented
    };
    settle(cookie, status_reply(res, last), description)
}

/// The result of a call that returned text `res` (`None` for a failure),
/// where `last` is what the error slot held after it. A failure without an
/// explanation is reported, and described by `description`.
pub fn settle_text<N: Native>(
    cookie: &Cookie<N>,
    res: Option<String>,
    last: Option<CookieError>,
    description: &str,
) -> (r: Result<String, CookieError>)
    ensures
        res is Some ==> r == Ok::<String, CookieError>(res->Some_0),
        res is None && last is Some ==> r == Err::<String, CookieError>(last->Some_0),
        res is None && last is None ==> r is Err && r->Err_0@ == (description@, None::<i32>),
{
    settle(cookie, text_reply(res, last), description)
}

/// Describes the file named `filename`.
pub(crate) fn file<N: Native>(cookie: &Cookie<N>, filename: &str) -> (r: Result<String, CookieError>)
    ensures
        r is Err ==> well_formed_error(r->Err_0),
{
    let res = cookie.native.file(filename);
    let last = error_after(cookie, res.is_none());
    settle_text(cookie, res, last, "`magic_file()` did not set last error")
}

/// Describes the bytes of `buffer`.
pub(crate) fn buffer<N: Native>(cookie: &Cookie<N>, bytes: &[u8]) -> (r: Result<String, CookieError>)
    ensures
        r is Err ==> well_formed_error(r->Err_0),
{
    let res = cookie.native.buffer(bytes);
    let last = error_after(cookie, res.is_none());
    settle_text(cookie, res, last, "`magic_buffer()` did not set last error")
}

/// The meaning of status `res` of a reconfiguration, where `last` is what
/// the error slot held after it: only -1 signals a failure.
pub fn setflags_reply(res: i32, last: Option<CookieError>) -> (r: Reply<()>)
    ensures
        res != -1 ==> r is Done,
        res == -1 && last is Some ==> r == Reply::<()>::Failed(last->Some_0),
        res == -1 && last is None ==> r is Broken,
{
    if res == -1 {
        match last {
            Some(err) => Reply::Failed(err),
            None => Reply::Broken,
        }
    } else {
        Reply::Done(())
    }
}

/// Reconfigures the instance with `flags`.
pub(crate) fn setflags<N: Native>(cookie: &Cookie<N>, flags: u32) -> (r: Result<(), CookieError>)
    ensures
        r is Err ==> well_formed_error(r->Err_0),
{
    let res = cookie.native.setflags(flags);
    let last = error_after(cookie, res == -1);
    settle(cookie, setflags_reply(res, last), "`magic_setflags()` did not set last error")
}

/// Checks the validity of database files (`None`: the default).
pub(crate) fn check<N: Native>(cookie: &Cookie<N>, filenames: Option<&str>) -> (r: Result<(), CookieError>)
    ensures
        r is Err ==> well_formed_error(r->Err_0),
{
    let res = cookie.native.check(filenames);
    let last = error_after(cookie, res != 0);
    settle_status(
        cookie,
        res,
        last,
        "`magic_check()` did not set last error",
        "`magic_check()` returned neither 0 nor -1",
    )
}

/// Compiles database files (`None`: the default).
pub(crate) fn compile<N: Native>(cookie: &Cookie<N>, filenames: Option<&str>) -> (r: Result<(), CookieError>)
    ensures
        r is Err ==> well_formed_error(r->Err_0),
{
    let res = cookie.native.compile(filenames);
    let last = error_after(cookie, res != 0);
    settle_status(
        cookie,
        res,
        last,
        "`magic_compile()` did not set last error",
        "`magic_compile()` returned neither 0 nor -1",
    )
}

/// Lists the entries of database files (`None`: the default).
pub(crate) fn list<N: Native>(cookie: &Cookie<N>, filenames: Option<&str>) -> (r: Result<(), CookieError>)
    ensures
        r is Err ==> well_formed_error(r->Err_0),
{
    let res = cookie.native.list(filenames);
    let last = error_after(cookie, res != 0);
    settle_status(
        cookie,
        res,
        last,
        "`magic_list()` did not set last error",
        "`magic_list()` returned neither 0 nor -1",
    )
}

/// Loads database files (`None`: the default) into the instance.
pub(crate) fn load<N: Native>(cookie: &Cookie<N>, filenames: Option<&str>) -> (r: Result<(), CookieError>)
    ensures
        r is Err ==> well_formed_error(r->Err_0),
{
    let res = cookie.native.load(filenames);
    let last = error_after(cookie, res != 0);
    settle_status(
        cookie,
        res,
        last,
        "`magic_load()` did not set last error",
        "`magic_load()` returned neither 0 nor -1",
    )
}

/// Loads databases held in memory into the instance.
pub(crate) fn load_buffers<N: Native>(cookie: &Cookie<N>, buffers: &[&[u8]]) -> (r: Result<(), CookieError>)
    ensures
        r is Err ==> well_formed_error(r->Err_0),
{
    let res = cookie.native.load_buffers(buffers);
    let last = error_after(cookie, res != 0);
    settle_status(
        cookie,
        res,
        last,
        "`magic_load_buffers()` did not set last error",
        "`magic_load_buffers()` returned neither 0 nor -1",
    )
}

/// No instance could be opened with the flags asked for.
#[derive(Debug)]
pub struct OpenError {
    flags: u32,
    errno: i32,
}

impl OpenError {
    pub closed spec fn flags_spec(&self) -> u32 {
        self.flags
    }

    pub closed spec fn errno_spec(&self) -> i32 {
        self.errno
    }

    /// The flags asked for.
    pub fn flags(&self) -> (r: u32)
        ensures
            r == self.flags_spec(),
    {
        self.flags
    }

    /// The OS error code that explains the failure.
    pub fn errno(&self) -> (r: i32)
        ensures
            r == self.errno_spec(),
    {
        self.errno
    }
}

/// The result of opening with `flags`, where the engine answered `reply`:
/// the instance it opened, or the OS error code of its refusal.
pub fn open_reply<N: Native>(flags: u32, reply: Result<N, i32>) -> (r: Result<Cookie<N>, OpenError>)
    ensures
        r is Ok <==> reply is Ok,
        r is Ok ==> r->Ok_0.native_spec() == reply->Ok_0,
        r is Err ==> r->Err_0.flags_spec() == flags && r->Err_0.errno_spec() == reply->Err_0,
{
    match reply {
        Ok(native) => Ok(Cookie::new(native)),
        Err(errno) => Err(OpenError { flags, errno }),
    }
}

/// Opens an instance configured with `flags`.
pub(crate) fn open<N: Native>(flags: u32) -> (r: Result<Cookie<N>, OpenError>)
    ensures
        r is Err ==> r->Err_0.flags_spec() == flags,
{
    open_reply(flags, N::open(flags))
}

/// The engine's version number.
pub(crate) fn version<N: Native>() -> i32 {
    N::version()
}

} // verus!
