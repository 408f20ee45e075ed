//! The structured-event adapter: its runtime filter and message composition.
//!
//! The adapter turns one structured event into one write call on a logger
//! handle. It keeps a filter of its own — an enabled flag and a minimum level —
//! that can suppress events cheaply without touching the native instance; the
//! event framework's plumbing (trait impls, atomics around the shared filter)
//! lives in the unverified boundary code, which reads the filter, folds the
//! event's fields through the visitor, and hands the plain values here.
use vstd::prelude::*;
use vstd::string::StringExecFns;
use crate::handle::Xlog;
use crate::level::{LogLevel, rank};

verus! {

/// Builder-style configuration for the event adapter.
#[derive(Debug, Clone)]
pub struct XlogLayerConfig {
    /// Whether the adapter forwards events at all.
    pub enabled: bool,
    /// Minimum level the adapter forwards.
    pub level: LogLevel,
    /// Fixed tag for forwarded events; absent means the event's own target.
    pub tag: Option<String>,
    /// Whether to prefix messages with the enclosing span names.
    pub include_spans: bool,
}

impl XlogLayerConfig {
    /// A configuration that forwards everything at or above `level`.
    pub fn new(level: LogLevel) -> (c: XlogLayerConfig)
        ensures
            c == (XlogLayerConfig {
                enabled: true,
                level,
                tag: None::<String>,
                include_spans: false,
            }),
    {
        XlogLayerConfig { enabled: true, level, tag: None, include_spans: false }
    }

    /// Set whether the adapter forwards events.
    pub fn enabled(self, enabled: bool) -> (c: XlogLayerConfig)
        ensures
            c == (XlogLayerConfig { enabled, ..self }),
    {
        XlogLayerConfig { enabled, ..self }
    }

    /// Set the minimum forwarded level.
    pub fn level(self, level: LogLevel) -> (c: XlogLayerConfig)
        ensures
            c == (XlogLayerConfig { level, ..self }),
    {
        XlogLayerConfig { level, ..self }
    }

    /// Set a fixed tag for forwarded events.
    pub fn tag(self, tag: String) -> (c: XlogLayerConfig)
        ensures
            c == (XlogLayerConfig { tag: Some(tag), ..self }),
    {
        XlogLayerConfig { tag: Some(tag), ..self }
    }

    /// Set whether span names prefix the message.
    pub fn include_spans(self, with_spans: bool) -> (c: XlogLayerConfig)
        ensures
            c == (XlogLayerConfig { include_spans: with_spans, ..self }),
    {
        XlogLayerConfig { include_spans: with_spans, ..self }
    }
}

/// The adapter's runtime filter. The layer and every handle to it share one
/// filter; the boundary code keeps that one copy behind atomics and applies
/// these transitions to it.
#[derive(Debug, Copy, Clone, PartialEq, Eq, Structural)]
pub struct XlogLayerHandle {
    /// Whether the adapter forwards events at all.
    pub enabled: bool,
    /// Minimum level the adapter forwards.
    pub level: LogLevel,
}

impl XlogLayerHandle {
    /// Toggle the adapter without touching the native instance.
    pub fn set_enabled(&mut self, enabled: bool)
        ensures
            *final(self) == (XlogLayerHandle { enabled, ..*old(self) }),
    {
        self.enabled = enabled;
    }

    /// Whether the adapter currently forwards events.
    pub fn enabled(&self) -> (b: bool)
        ensures
            b == self.enabled,
    {
        self.enabled
    }

    /// Change the adapter's minimum level. The boundary code forwards the
    /// same level to the native instance so both filters agree.
    pub fn set_level(&mut self, level: LogLevel)
        ensures
            *final(self) == (XlogLayerHandle { level, ..*old(self) }),
    {
        self.level = level;
    }

    /// The adapter's current minimum level.
    pub fn level(&self) -> (l: LogLevel)
        ensures
            l == self.level,
    {
        self.level
    }
}

/// The event adapter: a logger handle, the shared filter, and the per-layer
/// formatting choices.
pub struct XlogLayer {
    /// The handle every forwarded event is written to.
    pub logger: Xlog,
    /// The filter shared with the adapter's handles.
    pub state: XlogLayerHandle,
    /// Fixed tag for forwarded events; absent means the event's own target.
    pub tag: Option<String>,
    /// Whether to prefix messages with the enclosing span names.
    pub include_spans: bool,
}

impl XlogLayer {
    /// An adapter that forwards everything the logger currently accepts:
    /// `level` is the logger's current minimum. Returns the layer and a
    /// handle to its filter.
    pub fn new(logger: Xlog, level: LogLevel) -> (r: (XlogLayer, XlogLayerHandle))
        ensures
            r.0.logger == logger,
            r.0.state == (XlogLayerHandle { enabled: true, level }),
            r.0.tag is None,
            !r.0.include_spans,
            r.1 == r.0.state,
    {
        Self::with_config(logger, XlogLayerConfig::new(level))
    }

    /// An adapter with an explicit configuration. Returns the layer and a
    /// handle to its filter; the boundary code also forwards `config.level` to
    /// the native instance, as every level change does.
    pub fn with_config(logger: Xlog, config: XlogLayerConfig) -> (r: (XlogLayer, XlogLayerHandle))
        ensures
            r.0.logger == logger,
            r.0.state == (XlogLayerHandle { enabled: config.enabled, level: config.level }),
            r.0.tag == config.tag,
            r.0.include_spans == config.include_spans,
            r.1 == r.0.state,
    {
        let state = XlogLayerHandle { enabled: config.enabled, level: config.level };
        let layer = XlogLayer {
            logger,
            state,
            tag: config.tag,
            include_spans: config.include_spans,
        };
        (layer, state)
    }

    /// A handle onto the adapter's filter.
    pub fn handle(&self) -> (h: XlogLayerHandle)
        ensures
            h == self.state,
    {
        self.state
    }

    /// The adapter's own filter: enabled, and the event's level at or above
    /// the adapter's minimum.
    pub fn is_enabled_for(&self, level: LogLevel) -> (b: bool)
        ensures
            b == (self.state.enabled && rank(level) >= rank(self.state.level)),
    {
        if !self.state.enabled {
            false
        } else {
            crate::level::level_rank(level) >= crate::level::level_rank(self.state.level)
        }
    }

    /// The filter applied to an event's metadata before any work: an event
    /// whose level maps to `Off` is never forwarded.
    pub fn is_metadata_enabled(&self, level: LogLevel) -> (b: bool)
        ensures
            b == (level != LogLevel::Off && self.state.enabled && rank(level) >= rank(
                self.state.level,
            )),
    {
        level != LogLevel::Off && self.is_enabled_for(level)
    }
}

/// Span names joined in root-first order, each separated from a non-empty
/// prefix by ` > `; empty names at the front add nothing.
pub open spec fn join_spans(spans: Seq<Seq<char>>) -> Seq<char>
    decreases spans.len(),
{
    if spans.len() == 0 {
        Seq::empty()
    } else {
        let acc = join_spans(spans.drop_last());
        if acc.len() == 0 {
            spans.last()
        } else {
            acc + " > "@ + spans.last()
        }
    }
}

/// The message an event forwards: the rendered body, prefixed by the joined
/// span names when requested and present, falling back to the event's
/// symbolic name when everything else is empty.
pub open spec fn composed_event(
    body: Seq<char>,
    spans: Seq<Seq<char>>,
    include_spans: bool,
    fallback: Seq<char>,
) -> Seq<char> {
    let joined = join_spans(spans);
    let with_spans = if include_spans && joined.len() > 0 {
        if body.len() == 0 {
            joined
        } else {
            "["@ + joined + "] "@ + body
        }
    } else {
        body
    };
    if with_spans.len() == 0 {
        fallback
    } else {
        with_spans
    }
}

/// Compose the forwarded message from the visitor's rendered body, the
/// enclosing span names (root first), and the event's symbolic name.
pub fn compose_event_message(
    body: String,
    spans: &Vec<String>,
    include_spans: bool,
    fallback: &str,
) -> (r: String)
    ensures
        r@ == composed_event(body@, spans@.map_values(|s: String| s@), include_spans, fallback@),
{
    let ghost span_views = spans@.map_values(|s: String| s@);
    let mut message = body;
    if include_spans {
        let mut joined = String::new();
        let n = spans.len();
        let mut i: usize = 0;
        while i < n
            invariant
                i <= n,
                n == spans@.len(),
                span_views == spans@.map_values(|s: String| s@),
                span_views.len() == n,
                joined@ == join_spans(span_views.subrange(0, i as int)),
            decreases n - i,
        {
            let ghost pre0 = span_views.subrange(0, i as int);
            let ghost pre1 = span_views.subrange(0, (i + 1) as int);
            proof {
                assert(pre1.drop_last() =~= pre0);
                assert(pre1.last() == span_views[i as int]);
                assert(span_views[i as int] == spans@[i as int]@);
            }
            if !joined.as_str().is_empty() {
                joined.append(" > ");
            }
            joined.append(spans[i].as_str());
            proof {
                assert(joined@ =~= join_spans(pre1));
            }
            i = i + 1;
        }
        proof {
            assert(span_views.subrange(0, n as int) =~= span_views);
        }
        if !joined.as_str().is_empty() {
            if message.as_str().is_empty() {
                message = joined;
            } else {
                let mut prefixed = String::new();
                prefixed.append("[");
                prefixed.append(joined.as_str());
                prefixed.append("] ");
                prefixed.append(message.as_str());
                proof {
                    assert(prefixed@ =~= "["@ + joined@ + "] "@ + body@);
                }
                message = prefixed;
            }
        }
    }
    if message.as_str().is_empty() {
        let r = fallback.to_owned();
        proof {
            assert(r@ =~= composed_event(body@, span_views, include_spans, fallback@));
        }
        r
    } else {
        proof {
            assert(message@ =~= composed_event(body@, span_views, include_spans, fallback@));
        }
        message
    }
}

} // verus!
