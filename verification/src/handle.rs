//! The logger handle and the write path.
//!
//! A handle owns the opaque instance id the native engine returned for one
//! `name_prefix`, and prepares every per-call value the engine consumes. The
//! calls themselves — create, lookup, write, release — are foreign, so each
//! is split: the validating and formatting half lives here with a contract,
//! and the unverified boundary code passes the prepared values through.
use vstd::prelude::*;
use vstd::string::StrSliceExecFns;
use crate::config::{FileIoAction, XlogError, action_of_code};
use crate::level::LogLevel;
use crate::marshal::{nul_free, sanitize, strip_nul};

verus! {

/// Handle to one native logger instance.
///
/// The wrapped instance id is an opaque non-zero integer; zero always means
/// failure or absence, so no constructed handle ever holds it. The handle
/// remembers the `name_prefix` it was created under because the native
/// release call is keyed on that name.
#[derive(Debug)]
pub struct Xlog {
    /// Opaque non-zero instance id returned by the native engine.
    pub instance: usize,
    /// The lookup key the instance was created under.
    pub name_prefix: String,
}

impl Clone for Xlog {
    /// Cloning a handle yields an equal handle; shared ownership of the
    /// native instance is counted separately (see the lifecycle module).
    fn clone(&self) -> (r: Self)
        ensures
            r == *self,
    {
        Xlog { instance: self.instance, name_prefix: self.name_prefix.clone() }
    }
}

impl Xlog {
    /// A handle never wraps the failure sentinel.
    pub open spec fn wf(self) -> bool {
        self.instance != 0
    }

    /// Wrap the native create call's reply. The engine returns `0` for
    /// failure, which becomes `InitFailed`; any non-zero id becomes a handle.
    pub fn from_create(instance: usize, name_prefix: String) -> (r: Result<Xlog, XlogError>)
        ensures
            r is Ok <==> instance != 0,
            instance == 0 ==> r == Err::<Xlog, XlogError>(XlogError::InitFailed),
            r matches Ok(h) ==> h == (Xlog { instance, name_prefix }) && h.wf(),
    {
        if instance == 0 {
            Err(XlogError::InitFailed)
        } else {
            Ok(Xlog { instance, name_prefix })
        }
    }

    /// Wrap the native lookup call's reply. `0` means the instance does not
    /// exist, which is absence, not an error.
    pub fn from_lookup(name_prefix: String, instance: usize) -> (r: Option<Xlog>)
        ensures
            r is Some <==> instance != 0,
            r matches Some(h) ==> h == (Xlog { instance, name_prefix }) && h.wf(),
    {
        if instance == 0 {
            None
        } else {
            Some(Xlog { instance, name_prefix })
        }
    }

    /// The raw instance id used by the native engine.
    pub fn instance(&self) -> (id: usize)
        ensures
            id == self.instance,
    {
        self.instance
    }

    /// Prepare the metadata record and message for one native write call.
    ///
    /// `enabled` is the engine's answer to the level filter, checked before any
    /// formatting work: a filtered-out write produces nothing. The produced record
    /// carries sanitized strings, the caller's line number, and the sentinel
    /// process and thread ids the engine fills in itself. A missing tag
    /// defaults to this handle's `name_prefix`.
    pub fn write_record(
        &self,
        enabled: bool,
        level: LogLevel,
        tag: Option<&str>,
        file: &str,
        func: &str,
        line: u32,
        msg: &str,
    ) -> (r: Option<LogRecord>)
        ensures
            r is Some <==> enabled,
            r matches Some(rec) ==> {
                &&& rec.level == level
                &&& rec.tag@ == strip_nul(
                    match tag {
                        Some(t) => t@,
                        None => self.name_prefix@,
                    },
                )
                &&& rec.filename@ == strip_nul(file@)
                &&& rec.func_name@ == strip_nul(func@)
                &&& rec.line == line
                &&& rec.pid == -1i64 && rec.tid == -1i64 && rec.main_tid == -1i64
                &&& rec.trace_log == 0i32
                &&& rec.message@ == strip_nul(msg@)
                &&& rec.wf()
            },
    {
        if !enabled {
            return None;
        }
        let tag_text = match tag {
            Some(t) => sanitize(t),
            None => sanitize(self.name_prefix.as_str()),
        };
        Some(
            LogRecord {
                level,
                tag: tag_text,
                filename: sanitize(file),
                func_name: sanitize(func),
                line,
                pid: -1,
                tid: -1,
                main_tid: -1,
                trace_log: 0,
                message: sanitize(msg),
            },
        )
    }
}

/// One native write call's metadata record plus its message, modelled after
/// the engine's entry layout. The timestamp is stamped by the boundary code
/// at call time; process and thread ids are the `-1` sentinels that tell the
/// engine to fill in its own.
#[derive(Debug)]
pub struct LogRecord {
    /// Severity of the entry.
    pub level: LogLevel,
    /// Tag or category string.
    pub tag: String,
    /// Source file path, empty when unknown.
    pub filename: String,
    /// Function name, empty when unknown.
    pub func_name: String,
    /// Source line number, zero when unknown.
    pub line: u32,
    /// Process id sentinel.
    pub pid: i64,
    /// Thread id sentinel.
    pub tid: i64,
    /// Main thread id sentinel.
    pub main_tid: i64,
    /// Console trace flag, normally off.
    pub trace_log: i32,
    /// The log message itself.
    pub message: String,
}

impl LogRecord {
    /// Every string in the record can become a C string without truncation.
    pub open spec fn wf(self) -> bool {
        &&& nul_free(self.tag@)
        &&& nul_free(self.filename@)
        &&& nul_free(self.func_name@)
        &&& nul_free(self.message@)
    }
}

/// Check a lookup name the way the lookup call needs it: a name with an
/// embedded NUL can never match an instance, so it yields absence without a
/// native call; any other name is passed on unchanged.
pub fn lookup_name(name_prefix: &str) -> (r: Option<String>)
    ensures
        r is Some <==> nul_free(name_prefix@),
        r matches Some(s) ==> s@ == name_prefix@,
{
    let n = name_prefix.unicode_len();
    let mut i: usize = 0;
    while i < n
        invariant
            i <= n,
            n == name_prefix@.len(),
            forall|j: int| 0 <= j < i ==> name_prefix@[j] != '\0',
        decreases n - i,
    {
        if name_prefix.get_char(i) == '\0' {
            return None;
        }
        i = i + 1;
    }
    Some(name_prefix.to_owned())
}

/// Interpret the one-shot flush reply: a zero status is the failure
/// sentinel, any other status carries an action result code.
pub fn oneshot_outcome(status: i32, action: i32) -> (r: Result<FileIoAction, XlogError>)
    ensures
        status == 0 ==> r == Err::<FileIoAction, XlogError>(XlogError::InitFailed),
        status != 0 ==> r == Ok::<FileIoAction, XlogError>(action_of_code(action as int)),
{
    if status == 0 {
        Err(XlogError::InitFailed)
    } else {
        Ok(FileIoAction::from_code(action))
    }
}

} // verus!
