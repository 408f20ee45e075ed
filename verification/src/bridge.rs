//! The shared contract behind every foreign bridge.
//!
//! Each foreign runtime hands this layer the same plain values — strings,
//! integers, booleans — and each bridge used to assemble them into a
//! configuration in its own copy of the same code. That normalization lives
//! here once: an optional string that is absent or empty means the feature
//! is off, and integer codes map to the enums the core takes.
use vstd::prelude::*;
use crate::config::{XlogConfig, compress_from_code, mode_from_code, AppenderMode, CompressMode};

verus! {

/// Assemble a configuration from the plain values a foreign bridge passes.
///
/// An optional string left unset, or set to the empty string, means the
/// feature is disabled and stays absent; the mode and compression codes map
/// as every bridge maps them.
pub fn bridge_config(
    log_dir: String,
    name_prefix: String,
    pub_key: Option<String>,
    cache_dir: Option<String>,
    cache_days: i32,
    mode: i32,
    compress_mode: i32,
    compress_level: i32,
) -> (c: XlogConfig)
    ensures
        c.log_dir == log_dir,
        c.name_prefix == name_prefix,
        c.pub_key == (match pub_key {
            Some(k) => if k@.len() > 0 {
                Some(k)
            } else {
                None::<String>
            },
            None => None::<String>,
        }),
        c.cache_dir == (match cache_dir {
            Some(d) => if d@.len() > 0 {
                Some(d)
            } else {
                None::<String>
            },
            None => None::<String>,
        }),
        c.cache_days == cache_days,
        c.mode == (if mode == 1 {
            AppenderMode::Sync
        } else {
            AppenderMode::Async
        }),
        c.compress_mode == (if compress_mode == 1 {
            CompressMode::Zstd
        } else {
            CompressMode::Zlib
        }),
        c.compress_level == compress_level,
{
    let mut cfg = XlogConfig::new(log_dir, name_prefix).cache_days(cache_days).mode(
        mode_from_code(mode),
    ).compress_mode(compress_from_code(compress_mode)).compress_level(compress_level);
    match pub_key {
        Some(key) => {
            if !key.as_str().is_empty() {
                cfg = cfg.pub_key(key);
            }
        },
        None => {},
    }
    match cache_dir {
        Some(dir) => {
            if !dir.as_str().is_empty() {
                cfg = cfg.cache_dir(dir);
            }
        },
        None => {},
    }
    cfg
}

/// Clamp a bridge-supplied line number: a negative value means the caller
/// does not know the line, which the write path encodes as zero.
pub fn line_from_bridge(line: i32) -> (r: u32)
    ensures
        r == (if line < 0 {
            0int
        } else {
            line as int
        }),
{
    if line < 0 {
        0
    } else {
        line as u32
    }
}

} // verus!
