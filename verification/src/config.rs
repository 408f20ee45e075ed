//! Configuration values, native call codes, and the error taxonomy.
use vstd::prelude::*;

verus! {

/// Controls whether the native appender writes asynchronously or
/// synchronously.
#[derive(Debug, Copy, Clone, PartialEq, Eq, Structural)]
pub enum AppenderMode {
    Async,
    Sync,
}

/// The C integer the native contract uses for an appender mode.
pub open spec fn mode_rank(mode: AppenderMode) -> int {
    match mode {
        AppenderMode::Async => 0,
        AppenderMode::Sync => 1,
    }
}

/// Compression algorithm used for log buffers and files.
#[derive(Debug, Copy, Clone, PartialEq, Eq, Structural)]
pub enum CompressMode {
    Zlib,
    Zstd,
}

/// The C integer the native contract uses for a compression mode.
pub open spec fn compress_rank(mode: CompressMode) -> int {
    match mode {
        CompressMode::Zlib => 0,
        CompressMode::Zstd => 1,
    }
}

/// Appender mode as the C integer the native calls take.
pub fn mode_code(mode: AppenderMode) -> (c: i32)
    ensures
        c == mode_rank(mode),
{
    match mode {
        AppenderMode::Async => 0,
        AppenderMode::Sync => 1,
    }
}

/// Appender mode denoted by a foreign caller's integer; every value other
/// than the synchronous code means asynchronous.
pub fn mode_from_code(code: i32) -> (m: AppenderMode)
    ensures
        m == (if code == 1 {
            AppenderMode::Sync
        } else {
            AppenderMode::Async
        }),
{
    if code == 1 {
        AppenderMode::Sync
    } else {
        AppenderMode::Async
    }
}

/// Compression mode as the C integer the native calls take.
pub fn compress_code(mode: CompressMode) -> (c: i32)
    ensures
        c == compress_rank(mode),
{
    match mode {
        CompressMode::Zlib => 0,
        CompressMode::Zstd => 1,
    }
}

/// Compression mode denoted by a foreign caller's integer; every value other
/// than the zstd code means zlib.
pub fn compress_from_code(code: i32) -> (m: CompressMode)
    ensures
        m == (if code == 1 {
            CompressMode::Zstd
        } else {
            CompressMode::Zlib
        }),
{
    if code == 1 {
        CompressMode::Zstd
    } else {
        CompressMode::Zlib
    }
}

/// Result code of the one-shot flush operation.
#[derive(Debug, Copy, Clone, PartialEq, Eq, Structural)]
pub enum FileIoAction {
    NoAction,
    Success,
    Unnecessary,
    OpenFailed,
    ReadFailed,
    WriteFailed,
    CloseFailed,
    RemoveFailed,
}

/// The action a native result code denotes; every unknown code denotes
/// "no action performed".
pub open spec fn action_of_code(code: int) -> FileIoAction {
    if code == 1 {
        FileIoAction::Success
    } else if code == 2 {
        FileIoAction::Unnecessary
    } else if code == 3 {
        FileIoAction::OpenFailed
    } else if code == 4 {
        FileIoAction::ReadFailed
    } else if code == 5 {
        FileIoAction::WriteFailed
    } else if code == 6 {
        FileIoAction::CloseFailed
    } else if code == 7 {
        FileIoAction::RemoveFailed
    } else {
        FileIoAction::NoAction
    }
}

/// The code a foreign bridge reports for an action.
pub open spec fn action_rank(action: FileIoAction) -> int {
    match action {
        FileIoAction::NoAction => 0,
        FileIoAction::Success => 1,
        FileIoAction::Unnecessary => 2,
        FileIoAction::OpenFailed => 3,
        FileIoAction::ReadFailed => 4,
        FileIoAction::WriteFailed => 5,
        FileIoAction::CloseFailed => 6,
        FileIoAction::RemoveFailed => 7,
    }
}

impl FileIoAction {
    /// Action denoted by the native engine's result code.
    pub fn from_code(code: i32) -> (r: FileIoAction)
        ensures
            r == action_of_code(code as int),
    {
        match code {
            1 => FileIoAction::Success,
            2 => FileIoAction::Unnecessary,
            3 => FileIoAction::OpenFailed,
            4 => FileIoAction::ReadFailed,
            5 => FileIoAction::WriteFailed,
            6 => FileIoAction::CloseFailed,
            7 => FileIoAction::RemoveFailed,
            _ => FileIoAction::NoAction,
        }
    }

    /// The action as the integer a foreign bridge reports.
    pub fn code(self) -> (c: i32)
        ensures
            c == action_rank(self),
    {
        match self {
            FileIoAction::NoAction => 0,
            FileIoAction::Success => 1,
            FileIoAction::Unnecessary => 2,
            FileIoAction::OpenFailed => 3,
            FileIoAction::ReadFailed => 4,
            FileIoAction::WriteFailed => 5,
            FileIoAction::CloseFailed => 6,
            FileIoAction::RemoveFailed => 7,
        }
    }
}

/// Console logging backend selector on platforms that offer more than one.
#[derive(Debug, Copy, Clone, PartialEq, Eq, Structural)]
pub enum ConsoleFun {
    Printf,
    NSLog,
    OSLog,
}

/// The console backend as the C integer the native call takes.
pub fn console_fun_code(fun: ConsoleFun) -> (c: i32)
    ensures
        c == match fun {
            ConsoleFun::Printf => 0int,
            ConsoleFun::NSLog => 1int,
            ConsoleFun::OSLog => 2int,
        },
{
    match fun {
        ConsoleFun::Printf => 0,
        ConsoleFun::NSLog => 1,
        ConsoleFun::OSLog => 2,
    }
}

/// Errors returned by the creation and one-shot flush entry points.
#[derive(Debug, Copy, Clone, PartialEq, Eq, Structural)]
pub enum XlogError {
    /// A required configuration field was empty; no native call was made.
    InvalidConfig,
    /// The native engine reported its failure sentinel.
    InitFailed,
}

/// The human-readable description each error carries.
pub open spec fn error_text(error: XlogError) -> Seq<char> {
    match error {
        XlogError::InvalidConfig => "log_dir and name_prefix must be non-empty"@,
        XlogError::InitFailed => "xlog initialization failed"@,
    }
}

impl XlogError {
    /// Human-readable message for bridge-facing errors.
    pub fn message(&self) -> (m: String)
        ensures
            m@ == error_text(*self),
    {
        match self {
            XlogError::InvalidConfig => "log_dir and name_prefix must be non-empty".to_owned(),
            XlogError::InitFailed => "xlog initialization failed".to_owned(),
        }
    }
}

/// Configuration used to create a logger instance, open the global appender,
/// or drive a one-shot flush.
#[derive(Debug, Clone)]
pub struct XlogConfig {
    /// Directory for log files. Must be non-empty.
    pub log_dir: String,
    /// Prefix for log file names and the instance's lookup key. Must be
    /// non-empty.
    pub name_prefix: String,
    /// Optional public key enabling log encryption; absent means disabled.
    pub pub_key: Option<String>,
    /// Optional cache directory for buffers and temporary logs.
    pub cache_dir: Option<String>,
    /// Days to keep cached logs before moving them to `log_dir`.
    pub cache_days: i32,
    /// Appender mode (async or sync).
    pub mode: AppenderMode,
    /// Compression algorithm for log buffers and files.
    pub compress_mode: CompressMode,
    /// Compression level forwarded to the compressor.
    pub compress_level: i32,
}

impl XlogConfig {
    /// Both required fields are present; nothing may be marshalled for a
    /// configuration that lacks one.
    pub open spec fn valid(self) -> bool {
        self.log_dir@.len() > 0 && self.name_prefix@.len() > 0
    }

    /// Create a config with the required fields and the default optional
    /// values.
    pub fn new(log_dir: String, name_prefix: String) -> (c: XlogConfig)
        ensures
            c == (XlogConfig {
                log_dir,
                name_prefix,
                pub_key: None::<String>,
                cache_dir: None::<String>,
                cache_days: 0i32,
                mode: AppenderMode::Async,
                compress_mode: CompressMode::Zlib,
                compress_level: 6i32,
            }),
    {
        XlogConfig {
            log_dir,
            name_prefix,
            pub_key: None,
            cache_dir: None,
            cache_days: 0,
            mode: AppenderMode::Async,
            compress_mode: CompressMode::Zlib,
            compress_level: 6,
        }
    }

    /// Set the public key used to encrypt logs.
    pub fn pub_key(self, key: String) -> (c: XlogConfig)
        ensures
            c == (XlogConfig { pub_key: Some(key), ..self }),
    {
        XlogConfig { pub_key: Some(key), ..self }
    }

    /// Set the optional cache directory.
    pub fn cache_dir(self, dir: String) -> (c: XlogConfig)
        ensures
            c == (XlogConfig { cache_dir: Some(dir), ..self }),
    {
        XlogConfig { cache_dir: Some(dir), ..self }
    }

    /// Set the number of days to keep cached logs.
    pub fn cache_days(self, days: i32) -> (c: XlogConfig)
        ensures
            c == (XlogConfig { cache_days: days, ..self }),
    {
        XlogConfig { cache_days: days, ..self }
    }

    /// Set the appender mode.
    pub fn mode(self, mode: AppenderMode) -> (c: XlogConfig)
        ensures
            c == (XlogConfig { mode, ..self }),
    {
        XlogConfig { mode, ..self }
    }

    /// Set the compression algorithm.
    pub fn compress_mode(self, mode: CompressMode) -> (c: XlogConfig)
        ensures
            c == (XlogConfig { compress_mode: mode, ..self }),
    {
        XlogConfig { compress_mode: mode, ..self }
    }

    /// Set the compression level forwarded to the compressor.
    pub fn compress_level(self, level: i32) -> (c: XlogConfig)
        ensures
            c == (XlogConfig { compress_level: level, ..self }),
    {
        XlogConfig { compress_level: level, ..self }
    }

    /// Check that both required fields are non-empty.
    pub fn is_valid(&self) -> (b: bool)
        ensures
            b == self.valid(),
    {
        !self.log_dir.as_str().is_empty() && !self.name_prefix.as_str().is_empty()
    }
}

} // verus!
