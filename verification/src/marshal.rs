//! String sanitization and the native parameter block.
//!
//! Every string that crosses the native boundary travels as a NUL-terminated
//! C string, so an embedded NUL would silently truncate it. The defined
//! policy is to drop embedded NUL characters, never to reject the string.
//! Optional fields that are absent must reach the engine as a null pointer —
//! not as an empty string — to keep their "feature disabled" meaning; here
//! absence is `None`, and the unverified boundary code turns `None` into a
//! null pointer and `Some` into a NUL-terminated buffer.
use vstd::prelude::*;
use vstd::string::StrSliceExecFns;
use crate::config::{XlogConfig, XlogError, mode_rank, compress_rank};

verus! {

/// The characters of `s` with every NUL removed, in order.
pub open spec fn strip_nul(s: Seq<char>) -> Seq<char>
    decreases s.len(),
{
    if s.len() == 0 {
        Seq::empty()
    } else if s.last() == '\0' {
        strip_nul(s.drop_last())
    } else {
        strip_nul(s.drop_last()).push(s.last())
    }
}

/// No NUL character anywhere in `s`.
pub open spec fn nul_free(s: Seq<char>) -> bool {
    forall|i: int| 0 <= i < s.len() ==> s[i] != '\0'
}

/// Stripping NULs leaves no NUL behind.
pub proof fn lemma_strip_nul_free(s: Seq<char>)
    ensures
        nul_free(strip_nul(s)),
    decreases s.len(),
{
    if s.len() > 0 {
        lemma_strip_nul_free(s.drop_last());
    }
}

/// Relies on `String::push`: appends exactly the given character.
#[verifier::external_body]
pub(crate) fn push_char(s: &mut String, c: char)
    ensures
        final(s)@ == old(s)@.push(c),
{
    s.push(c);
}

/// Remove embedded NUL characters from a string, silently: dropping a NUL
/// mid-string is the defined policy, not a failure.
pub fn sanitize(s: &str) -> (r: String)
    ensures
        r@ == strip_nul(s@),
        nul_free(r@),
{
    let n = s.unicode_len();
    let mut out = String::new();
    let mut i: usize = 0;
    while i < n
        invariant
            i <= n,
            n == s@.len(),
            out@ == strip_nul(s@.subrange(0, i as int)),
        decreases n - i,
    {
        let c = s.get_char(i);
        proof {
            let pre = s@.subrange(0, (i + 1) as int);
            assert(pre.drop_last() =~= s@.subrange(0, i as int));
            assert(pre.last() == s@[i as int]);
        }
        if c != '\0' {
            push_char(&mut out, c);
        }
        i = i + 1;
    }
    proof {
        assert(s@.subrange(0, n as int) =~= s@);
        lemma_strip_nul_free(s@);
    }
    out
}

/// Sanitize an optional string, preserving absence: `None` stays `None`.
pub fn sanitize_opt(s: &Option<String>) -> (r: Option<String>)
    ensures
        r is Some <==> s is Some,
        r matches Some(t) ==> (s matches Some(o) && t@ == strip_nul(o@) && nul_free(t@)),
{
    match s {
        Some(v) => Some(sanitize(v.as_str())),
        None => None,
    }
}

/// The exact parameter shape the native create, open and one-shot-flush
/// calls take, with every string already sanitized. `None` in an optional
/// field marshals to a null pointer at the boundary; `Some` marshals to an
/// owned NUL-terminated buffer that outlives the one native call.
#[derive(Debug)]
pub struct NativeConfig {
    /// Appender mode code.
    pub mode: i32,
    /// Directory for log files.
    pub log_dir: String,
    /// Prefix for log file names and the instance name.
    pub name_prefix: String,
    /// Optional public key; absent means encryption disabled.
    pub pub_key: Option<String>,
    /// Compression mode code.
    pub compress_mode: i32,
    /// Compression level, passed through unchanged.
    pub compress_level: i32,
    /// Optional cache directory; absent means no cache.
    pub cache_dir: Option<String>,
    /// Days to keep cached logs, passed through unchanged.
    pub cache_days: i32,
}

impl NativeConfig {
    /// Every string in the block is free of embedded NULs, so each can
    /// become a C string without truncation.
    pub open spec fn wf(self) -> bool {
        &&& nul_free(self.log_dir@)
        &&& nul_free(self.name_prefix@)
        &&& (self.pub_key matches Some(k) ==> nul_free(k@))
        &&& (self.cache_dir matches Some(d) ==> nul_free(d@))
    }
}

impl XlogConfig {
    /// Validate the configuration and produce the native parameter block.
    ///
    /// Fails fast with `InvalidConfig` when a required field is empty, in
    /// which case no native call may be made. On success, every string is
    /// sanitized, numeric fields pass through unchanged, and an optional
    /// field is present in the block exactly when it was set here.
    pub fn marshal(&self) -> (r: Result<NativeConfig, XlogError>)
        ensures
            r is Ok <==> self.valid(),
            !self.valid() ==> r == Err::<NativeConfig, XlogError>(XlogError::InvalidConfig),
            r matches Ok(n) ==> {
                &&& n.mode == mode_rank(self.mode)
                &&& n.log_dir@ == strip_nul(self.log_dir@)
                &&& n.name_prefix@ == strip_nul(self.name_prefix@)
                &&& (n.pub_key is Some <==> self.pub_key is Some)
                &&& (n.pub_key matches Some(k) ==> self.pub_key matches Some(o) && k@
                    == strip_nul(o@))
                &&& n.compress_mode == compress_rank(self.compress_mode)
                &&& n.compress_level == self.compress_level
                &&& (n.cache_dir is Some <==> self.cache_dir is Some)
                &&& (n.cache_dir matches Some(d) ==> self.cache_dir matches Some(o) && d@
                    == strip_nul(o@))
                &&& n.cache_days == self.cache_days
                &&& n.wf()
            },
    {
        if !self.is_valid() {
            return Err(XlogError::InvalidConfig);
        }
        Ok(
            NativeConfig {
                mode: crate::config::mode_code(self.mode),
                log_dir: sanitize(self.log_dir.as_str()),
                name_prefix: sanitize(self.name_prefix.as_str()),
                pub_key: sanitize_opt(&self.pub_key),
                compress_mode: crate::config::compress_code(self.compress_mode),
                compress_level: self.compress_level,
                cache_dir: sanitize_opt(&self.cache_dir),
                cache_days: self.cache_days,
            },
        )
    }
}

} // verus!
