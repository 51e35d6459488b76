//! Sessions ("cookies"), the values they are configured with, and the errors
//! of their operations.
//!
//! A session is opened without any database, in stage [`Open`]; only a
//! successful load takes it to stage [`Load`], where it answers queries. The
//! stage is part of the type, so a query before a load does not compile.
mod flags;
mod paths;
mod private;

pub use self::flags::{lemma_bits_round_trip, Flags};
pub use self::paths::{
    is_native_string, joined, lemma_joined_from_names, lemma_joined_keeps, lemma_native_iff_no_nul,
    path_texts, some_path_has_nul, DatabasePaths, InvalidDatabasePathError,
    DATABASE_FILENAME_SEPARATOR,
};

use vstd::prelude::*;

use crate::magic;
use crate::magic::{well_formed_error, CookieError, Native};

verus! {

/// The stage of a session that has no database loaded.
#[derive(Debug)]
pub struct Open;

/// The stage of a session that has loaded a database.
#[derive(Debug)]
pub struct Load;

/// A session stage: [`Open`] or [`Load`].
pub trait State: private::Sealed {}

impl State for Open {}

impl State for Load {}

/// Whether the OS error code `code` means that an input was invalid.
pub uninterp spec fn os_error_is_invalid_input(code: i32) -> bool;

/// Relies on `std::io::Error::kind`, of the error that
/// `std::io::Error::from_raw_os_error` makes of `code`: whether it is
/// `ErrorKind::InvalidInput`, which depends on the code alone.
#[verifier::external_body]
fn is_invalid_input(code: i32) -> (r: bool)
    ensures
        r == os_error_is_invalid_input(code),
{
    matches!(std::io::Error::from_raw_os_error(code).kind(), std::io::ErrorKind::InvalidInput)
}

/// A failed engine call of a session, with the name of the call and the
/// explanation the engine gave.
#[derive(Debug)]
pub struct Error {
    function: &'static str,
    source: CookieError,
}

impl Error {
    pub closed spec fn function_spec(&self) -> Seq<char> {
        self.function@
    }

    pub closed spec fn source_spec(&self) -> CookieError {
        self.source
    }

    /// The name of the engine call that failed.
    pub fn function(&self) -> (r: &'static str)
        ensures
            r@ == self.function_spec(),
    {
        self.function
    }

    /// The engine's explanation.
    pub fn source(&self) -> (r: &CookieError)
        ensures
            *r == self.source_spec(),
    {
        &self.source
    }
}

/// The result of session call `function`, whose engine call ended in
/// `outcome`: its value, or its error under the call's name.
pub fn finish_call<T>(function: &'static str, outcome: Result<T, CookieError>) -> (r: Result<
    T,
    Error,
>)
    ensures
        r is Ok <==> outcome is Ok,
        r is Ok ==> r == Ok::<T, Error>(outcome->Ok_0),
        r is Err ==> r->Err_0.function_spec() == function@ && r->Err_0.source_spec()
            == outcome->Err_0,
{
    match outcome {
        Ok(value) => Ok(value),
        Err(source) => Err(Error { function, source }),
    }
}

/// A session with the engine, in stage `S`, over engine instances of type `N`.
///
/// The session owns its instance alone and releases it when dropped. A load
/// moves the instance into a session of the next stage; a failed load hands
/// the session back inside the error.
#[derive(Debug)]
pub struct Cookie<S: State, N: Native> {
    cookie: magic::Cookie<N>,
    marker: core::marker::PhantomData<S>,
}

/// A failed load, which hands back the session it was asked of, unchanged.
#[derive(Debug)]
pub struct LoadError<S: State, N: Native> {
    function: &'static str,
    source: CookieError,
    cookie: Cookie<S, N>,
}

impl<S: State, N: Native> LoadError<S, N> {
    pub closed spec fn function_spec(&self) -> Seq<char> {
        self.function@
    }

    pub closed spec fn cookie_spec(&self) -> Cookie<S, N> {
        self.cookie
    }

    pub closed spec fn source_spec(&self) -> CookieError {
        self.source
    }

    /// The name of the engine call that failed.
    pub fn function(&self) -> (r: &'static str)
        ensures
            r@ == self.function_spec(),
    {
        self.function
    }

    /// The engine's explanation.
    pub fn source(&self) -> (r: &CookieError)
        ensures
            *r == self.source_spec(),
    {
        &self.source
    }

    /// Returns the session in the stage it had before the load.
    pub fn cookie(self) -> (r: Cookie<S, N>)
        ensures
            r == self.cookie_spec(),
    {
        self.cookie
    }
}

/// Why no session could be opened.
#[derive(Debug, Clone, Copy, PartialEq, Eq, Structural)]
pub enum OpenErrorKind {
    /// The engine does not support the flags asked for.
    UnsupportedFlags,
    /// Any other OS error.
    Errno,
}

impl OpenErrorKind {
    /// The kind of failure that OS error code `errno` stands for.
    pub fn of_errno(errno: i32) -> (r: OpenErrorKind)
        ensures
            r == OpenErrorKind::UnsupportedFlags <==> os_error_is_invalid_input(errno),
    {
        if is_invalid_input(errno) {
            OpenErrorKind::UnsupportedFlags
        } else {
            OpenErrorKind::Errno
        }
    }
}

/// No session could be opened with the flags asked for.
#[derive(Debug)]
pub struct OpenError {
    flags: Flags,
    kind: OpenErrorKind,
    source: magic::OpenError,
}

impl OpenError {
    pub closed spec fn flags_spec(&self) -> Flags {
        self.flags
    }

    pub closed spec fn kind_spec(&self) -> OpenErrorKind {
        self.kind
    }

    pub closed spec fn source_spec(&self) -> magic::OpenError {
        self.source
    }

    /// The error of a failed open with `flags`, classified by the OS error
    /// code that the engine gave.
    pub fn new(flags: Flags, source: magic::OpenError) -> (r: OpenError)
        ensures
            r.flags_spec() == flags,
            r.kind_spec() == OpenErrorKind::UnsupportedFlags <==> os_error_is_invalid_input(
                source.errno_spec(),
            ),
            r.source_spec() == source,
    {
        let kind = OpenErrorKind::of_errno(source.errno());
        OpenError { flags, kind, source }
    }

    /// The flags that were refused.
    pub fn flags(&self) -> (r: Flags)
        ensures
            r == self.flags_spec(),
    {
        self.flags
    }

    pub fn kind(&self) -> (r: OpenErrorKind)
        ensures
            r == self.kind_spec(),
    {
        self.kind
    }

    pub fn source(&self) -> (r: &magic::OpenError)
        ensures
            *r == self.source_spec(),
    {
        &self.source
    }
}

/// The engine refused a reconfiguration.
#[derive(Debug)]
pub struct SetFlagsError {
    function: &'static str,
    flags: Flags,
    source: CookieError,
}

impl SetFlagsError {
    pub closed spec fn function_spec(&self) -> Seq<char> {
        self.function@
    }

    pub closed spec fn flags_spec(&self) -> Flags {
        self.flags
    }

    pub closed spec fn source_spec(&self) -> CookieError {
        self.source
    }

    /// The name of the engine call that failed.
    pub fn function(&self) -> (r: &'static str)
        ensures
            r@ == self.function_spec(),
    {
        self.function
    }

    /// The flag the engine may refuse: the only one its manual names.
    pub fn flags(&self) -> (r: Flags)
        ensures
            r == self.flags_spec(),
    {
        self.flags
    }

    /// The engine's explanation.
    pub fn source(&self) -> (r: &CookieError)
        ensures
            *r == self.source_spec(),
    {
        &self.source
    }
}

impl<N: Native> Cookie<Open, N> {
    /// The result of opening a session with `flags`, where the engine layer
    /// answered `opened`: a session without a database that owns the
    /// instance opened, or the refusal, classified.
    pub fn finish_open(flags: Flags, opened: Result<magic::Cookie<N>, magic::OpenError>) -> (r: Result<
        Cookie<Open, N>,
        OpenError,
    >)
        ensures
            r is Ok <==> opened is Ok,
            r is Ok ==> r->Ok_0.native() == opened->Ok_0.native_spec(),
            r is Err ==> r->Err_0.flags_spec() == flags && r->Err_0.source_spec() == opened->Err_0
                && (r->Err_0.kind_spec() == OpenErrorKind::UnsupportedFlags
                <==> os_error_is_invalid_input(opened->Err_0.errno_spec())),
    {
        match opened {
            Err(err) => Err(OpenError::new(flags, err)),
            Ok(cookie) => Ok(Cookie { cookie, marker: core::marker::PhantomData }),
        }
    }

    /// Opens a session configured with `flags`, with no database loaded.
    /// The engine is handed the bits of `flags`.
    pub fn open(flags: Flags) -> (r: Result<Cookie<Open, N>, OpenError>)
        ensures
            r is Err ==> r->Err_0.flags_spec() == flags && r->Err_0.source_spec().flags_spec()
                == flags@ && (r->Err_0.kind_spec() == OpenErrorKind::UnsupportedFlags
                <==> os_error_is_invalid_input(r->Err_0.source_spec().errno_spec())),
    {
        Cookie::finish_open(flags, magic::open::<N>(flags.bits()))
    }
}

impl<N: Native> Cookie<Load, N> {
    /// Describes the file named `filename`.
    pub fn file(&self, filename: &str) -> (r: Result<String, Error>)
        requires
            is_native_string(filename@),
        ensures
            r is Err ==> r->Err_0.function_spec() == "magic_file"@ && well_formed_error(
                r->Err_0.source_spec(),
            ),
    {
        finish_call("magic_file", magic::file(&self.cookie, filename))
    }

    /// Describes the bytes of `buffer`.
    pub fn buffer(&self, buffer: &[u8]) -> (r: Result<String, Error>)
        ensures
            r is Err ==> r->Err_0.function_spec() == "magic_buffer"@ && well_formed_error(
                r->Err_0.source_spec(),
            ),
    {
        finish_call("magic_buffer", magic::buffer(&self.cookie, buffer))
    }
}

impl<S: State, N: Native> Cookie<S, N> {
    /// The engine instance the session owns.
    pub closed spec fn native(&self) -> N {
        self.cookie.native_spec()
    }

    /// Ends a load that the engine reported as `outcome`, through engine call
    /// `function`: on success the session moves, with the same instance, to
    /// stage [`Load`]; on failure it comes back, unchanged, in the error.
    pub fn finish_load(self, function: &'static str, outcome: Result<(), CookieError>) -> (r: Result<
        Cookie<Load, N>,
        LoadError<S, N>,
    >)
        ensures
            r is Ok <==> outcome is Ok,
            r is Ok ==> r->Ok_0.native() == self.native(),
            r is Err ==> r->Err_0.cookie_spec() == self && r->Err_0.function_spec() == function@
                && r->Err_0.source_spec() == outcome->Err_0,
    {
        match outcome {
            Err(err) => Err(LoadError { function, source: err, cookie: self }),
            Ok(_) => {
                let Cookie { cookie, marker: _ } = self;
                Ok(Cookie { cookie, marker: core::marker::PhantomData })
            },
        }
    }

    /// Loads the database files of `filenames` (the default database where
    /// the list is empty). On success the session moves, with the same
    /// instance, to stage [`Load`]; on failure it comes back in the error.
    pub fn load(self, filenames: &DatabasePaths) -> (r: Result<Cookie<Load, N>, LoadError<S, N>>)
        ensures
            r is Ok ==> r->Ok_0.native() == self.native(),
            r is Err ==> r->Err_0.cookie_spec() == self && r->Err_0.function_spec()
                == "magic_load"@,
    {
        let outcome = magic::load(&self.cookie, filenames.filenames());
        self.finish_load("magic_load", outcome)
    }

    /// Loads the databases held in `buffers`. On success the session moves,
    /// with the same instance, to stage [`Load`]; on failure it comes back in
    /// the error.
    pub fn load_buffers(self, buffers: &[&[u8]]) -> (r: Result<Cookie<Load, N>, LoadError<S, N>>)
        ensures
            r is Ok ==> r->Ok_0.native() == self.native(),
            r is Err ==> r->Err_0.cookie_spec() == self && r->Err_0.function_spec()
                == "magic_load_buffers"@,
    {
        let outcome = magic::load_buffers(&self.cookie, buffers);
        self.finish_load("magic_load_buffers", outcome)
    }

    /// The result of reconfiguring, where the engine layer answered
    /// `outcome`. The engine's manual names one flag it may refuse, which
    /// the error carries.
    pub fn finish_set_flags(outcome: Result<(), CookieError>) -> (r: Result<(), SetFlagsError>)
        ensures
            r is Ok <==> outcome is Ok,
            r is Err ==> r->Err_0.function_spec() == "magic_setflags"@
                && r->Err_0.flags_spec()@ == magic::MAGIC_PRESERVE_ATIME
                && r->Err_0.source_spec() == outcome->Err_0,
    {
        match outcome {
            Err(source) => Err(
                SetFlagsError { function: "magic_setflags", flags: Flags::preserve_atime(), source },
            ),
            Ok(_) => Ok(()),
        }
    }

    /// Reconfigures the session with `flags`; the engine is handed their bits.
    pub fn set_flags(&self, flags: Flags) -> (r: Result<(), SetFlagsError>)
        ensures
            r is Err ==> r->Err_0.function_spec() == "magic_setflags"@
                && r->Err_0.flags_spec()@ == magic::MAGIC_PRESERVE_ATIME && well_formed_error(
                r->Err_0.source_spec(),
            ),
    {
        Cookie::<S, N>::finish_set_flags(magic::setflags(&self.cookie, flags.bits()))
    }

    /// Compiles the database files of `filenames`.
    pub fn compile(&self, filenames: &DatabasePaths) -> (r: Result<(), Error>)
        ensures
            r is Err ==> r->Err_0.function_spec() == "magic_compile"@ && well_formed_error(
                r->Err_0.source_spec(),
            ),
    {
        finish_call("magic_compile", magic::compile(&self.cookie, filenames.filenames()))
    }

    /// Checks the validity of the database files of `filenames`.
    pub fn check(&self, filenames: &DatabasePaths) -> (r: Result<(), Error>)
        ensures
            r is Err ==> r->Err_0.function_spec() == "magic_check"@ && well_formed_error(
                r->Err_0.source_spec(),
            ),
    {
        finish_call("magic_check", magic::check(&self.cookie, filenames.filenames()))
    }

    /// Lists the entries of the database files of `filenames`.
    pub fn list(&self, filenames: &DatabasePaths) -> (r: Result<(), Error>)
        ensures
            r is Err ==> r->Err_0.function_spec() == "magic_list"@ && well_formed_error(
                r->Err_0.source_spec(),
            ),
    {
        finish_call("magic_list", magic::list(&self.cookie, filenames.filenames()))
    }
}

} // verus!
