//! The bookkeeping of a session: its handle, and which of the calls that starting it needs have
//! succeeded.
use vstd::prelude::*;

use crate::builder::{FswSessionBuilder, SessionOp, empty_builder};
use crate::status::{
    map_result, result_of_code, FswError, FswResult, FswStatus, FSW_OK,
};

verus! {

/// The handle the C API returns where it could not make a session.
pub const FSW_INVALID_HANDLE: i32 = -1;

/// Static functions of fswatch, for the library as a whole.
pub struct Fsw;

/// A session in fswatch, revolving around a handle, as far as the library keeps track of it.
///
/// This holds the handle of the session and whether a callback was set, a path was added and the
/// monitor was started, each by a call that succeeded. The calls themselves go to libfswatch with
/// the handle; their status codes come back to this session's `record_*` methods.
#[derive(Debug)]
pub struct FswSession {
    handle: i32,
    callback_set: bool,
    path_added: bool,
    started: bool,
}

/// What a session holds.
pub struct SessionView {
    pub handle: i32,
    pub callback_set: bool,
    pub path_added: bool,
    pub started: bool,
}

impl View for FswSession {
    type V = SessionView;

    closed spec fn view(&self) -> SessionView {
        SessionView {
            handle: self.handle,
            callback_set: self.callback_set,
            path_added: self.path_added,
            started: self.started,
        }
    }
}

/// A new session on a handle: nothing set yet.
pub open spec fn new_session(handle: i32) -> SessionView {
    SessionView { handle, callback_set: false, path_added: false, started: false }
}

/// The session after adding a path returned `code`.
pub open spec fn after_add_path(s: SessionView, code: i32) -> SessionView {
    SessionView { path_added: s.path_added || code == FSW_OK, ..s }
}

/// The session after setting the callback returned `code`.
pub open spec fn after_set_callback(s: SessionView, code: i32) -> SessionView {
    SessionView { callback_set: s.callback_set || code == FSW_OK, ..s }
}

/// The session after starting the monitor returned `code`.
pub open spec fn after_start_monitor(s: SessionView, code: i32) -> SessionView {
    SessionView { started: s.started || code == FSW_OK, ..s }
}

/// The session after applying an option returned `code`: only a path that was added changes it.
pub open spec fn after_op(s: SessionView, is_path: bool, code: i32) -> SessionView {
    if is_path {
        after_add_path(s, code)
    } else {
        s
    }
}

/// Whether the monitor may be started: a callback was set and a path was added.
pub open spec fn can_start(s: SessionView) -> bool {
    s.callback_set && s.path_added
}

/// What checking a session before starting its monitor gives.
pub open spec fn start_check(s: SessionView) -> FswResult<()> {
    if can_start(s) {
        Ok(())
    } else {
        Err(FswError::MissingRequiredParameters)
    }
}

impl FswSession {
    /// Makes the session for a handle that the C API returned for a new session: an error where
    /// the handle is the invalid one.
    pub fn from_handle(handle: i32) -> (r: FswResult<FswSession>)
        ensures
            handle == FSW_INVALID_HANDLE ==> r == Err::<FswSession, FswError>(
                FswError::FromFsw(FswStatus::UnknownError),
            ),
            handle != FSW_INVALID_HANDLE ==> (r matches Ok(s) && s@ == new_session(handle)),
    {
        if handle == FSW_INVALID_HANDLE {
            return Err(FswError::FromFsw(FswStatus::UnknownError));
        }
        Ok(FswSession { handle, callback_set: false, path_added: false, started: false })
    }

    /// The handle of this session.
    pub fn handle(&self) -> (r: i32)
        ensures
            r == self@.handle,
    {
        self.handle
    }

    /// Whether a callback was set successfully.
    pub fn callback_set(&self) -> (r: bool)
        ensures
            r == self@.callback_set,
    {
        self.callback_set
    }

    /// Whether a path was added successfully.
    pub fn path_added(&self) -> (r: bool)
        ensures
            r == self@.path_added,
    {
        self.path_added
    }

    /// Whether the monitor was started successfully.
    pub fn started(&self) -> (r: bool)
        ensures
            r == self@.started,
    {
        self.started
    }

    /// Takes note that adding a path returned `status`, and gives the result of adding it.
    pub fn record_add_path(&mut self, status: i32) -> (r: FswResult<()>)
        ensures
            r == result_of_code((), status),
            final(self)@ == after_add_path(old(self)@, status),
    {
        let res = map_result((), status);
        if res.is_ok() {
            self.path_added = true;
        }
        res
    }

    /// Takes note that setting the callback returned `status`, and gives the result of setting it.
    pub fn record_set_callback(&mut self, status: i32) -> (r: FswResult<()>)
        ensures
            r == result_of_code((), status),
            final(self)@ == after_set_callback(old(self)@, status),
    {
        let res = map_result((), status);
        if res.is_ok() {
            self.callback_set = true;
        }
        res
    }

    /// Takes note that applying an option returned `status`, and gives the result of applying it.
    pub fn record_op(&mut self, op: &SessionOp, status: i32) -> (r: FswResult<()>)
        ensures
            r == result_of_code((), status),
            final(self)@ == after_op(old(self)@, op is AddPath, status),
    {
        match op {
            SessionOp::AddPath(_) => self.record_add_path(status),
            _ => map_result((), status),
        }
    }

    /// Checks a session before starting its monitor.
    ///
    /// # Errors
    ///
    /// This gives an error if the callback has not been set successfully or if no path has been
    /// added successfully.
    pub fn check_start_monitor(&self) -> (r: FswResult<()>)
        ensures
            r == start_check(self@),
    {
        if !self.callback_set || !self.path_added {
            return Err(FswError::MissingRequiredParameters);
        }
        Ok(())
    }

    /// Takes note that starting the monitor returned `status`, and gives the result of starting it.
    pub fn record_start_monitor(&mut self, status: i32) -> (r: FswResult<()>)
        ensures
            r == result_of_code((), status),
            final(self)@ == after_start_monitor(old(self)@, status),
    {
        let res = map_result((), status);
        if res.is_ok() {
            self.started = true;
        }
        res
    }

    /// A second session on the same handle, holding what this one holds, as an iterator over the
    /// events of this session uses.
    pub fn share(&self) -> (r: FswSession)
        ensures
            r@ == self@,
    {
        FswSession {
            handle: self.handle,
            callback_set: self.callback_set,
            path_added: self.path_added,
            started: self.started,
        }
    }

    /// Create a new empty builder.
    pub fn builder() -> (r: FswSessionBuilder)
        ensures
            r@ == empty_builder(Seq::empty()),
    {
        FswSessionBuilder::empty()
    }

    /// Create a new builder with the given paths.
    pub fn builder_paths(paths: Vec<&str>) -> (r: FswSessionBuilder)
        ensures
            r@ == empty_builder(paths@.map_values(|p: &str| p@)),
    {
        FswSessionBuilder::new(paths)
    }
}

/// Once a callback is set and a path is added, each by a call that succeeded, in either order,
/// the monitor may be started.
pub proof fn lemma_setup_allows_start(s: SessionView, path_code: i32, callback_code: i32)
    requires
        path_code == FSW_OK,
        callback_code == FSW_OK,
    ensures
        can_start(after_set_callback(after_add_path(s, path_code), callback_code)),
        can_start(after_add_path(after_set_callback(s, callback_code), path_code)),
        start_check(after_set_callback(after_add_path(s, path_code), callback_code)) == Ok::<
            (),
            FswError,
        >(()),
{
}

/// A new session may not be started, and a call that fails changes nothing of a session.
pub proof fn lemma_failures_change_nothing(handle: i32, s: SessionView, code: i32)
    requires
        code != FSW_OK,
    ensures
        !can_start(new_session(handle)),
        after_add_path(s, code) == s,
        after_set_callback(s, code) == s,
        after_start_monitor(s, code) == s,
{
}

/// What a session has once achieved it keeps: no call unsets a flag.
pub proof fn lemma_flags_only_grow(s: SessionView, is_path: bool, code: i32)
    ensures
        s.path_added ==> after_add_path(s, code).path_added && after_op(s, is_path, code).path_added,
        s.callback_set ==> after_set_callback(s, code).callback_set && after_add_path(
            s,
            code,
        ).callback_set,
        s.started ==> after_start_monitor(s, code).started,
        can_start(s) ==> can_start(after_op(s, is_path, code)) && can_start(
            after_start_monitor(s, code),
        ),
{
}

/// Checking before a start succeeds exactly when both a callback was set and a path was added;
/// otherwise it gives `MissingRequiredParameters`, whichever of the two is missing.
pub proof fn lemma_start_check_needs_both(s: SessionView)
    ensures
        start_check(s) is Ok <==> (s.callback_set && s.path_added),
        !s.path_added ==> start_check(s) == Err::<(), FswError>(
            FswError::MissingRequiredParameters,
        ),
        !s.callback_set ==> start_check(s) == Err::<(), FswError>(
            FswError::MissingRequiredParameters,
        ),
        start_check(s) is Err ==> start_check(s) == Err::<(), FswError>(
            FswError::MissingRequiredParameters,
        ),
{
}

/// Each record changes exactly its own flag, setting it where the call succeeded and keeping it
/// otherwise; the handle and the other flags stay.
pub proof fn lemma_records_touch_only_their_flag(s: SessionView, code: i32)
    ensures
        after_add_path(s, code) == (SessionView {
            handle: s.handle,
            callback_set: s.callback_set,
            path_added: s.path_added || code == FSW_OK,
            started: s.started,
        }),
        after_set_callback(s, code) == (SessionView {
            handle: s.handle,
            callback_set: s.callback_set || code == FSW_OK,
            path_added: s.path_added,
            started: s.started,
        }),
        after_start_monitor(s, code) == (SessionView {
            handle: s.handle,
            callback_set: s.callback_set,
            path_added: s.path_added,
            started: s.started || code == FSW_OK,
        }),
        after_op(s, true, code) == after_add_path(s, code),
        after_op(s, false, code) == s,
        new_session(s.handle) == (SessionView {
            handle: s.handle,
            callback_set: false,
            path_added: false,
            started: false,
        }),
{
}

} // verus!
