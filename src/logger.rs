//! The logging facade: severity levels, the registration state of the active
//! backend, and what each log call emits.
use vstd::prelude::*;
use crate::backend::{Channel, LogBackend, channel_of, needs_registration};

verus! {

/// Severity of a record, from the most to the least severe.
#[derive(Clone, Copy, Debug, PartialEq, Eq, Structural)]
pub enum Level {
    Error,
    Warn,
    Info,
    Debug,
    Trace,
}

/// Why `init` could not register the backend.
#[derive(Clone, Copy, Debug, PartialEq, Eq, Structural)]
pub enum InitError {
    /// The backend is registered already.
    AlreadyRegistered,
    /// The transport the backend writes through could not be acquired.
    TransportUnavailable,
}

/// What a record carries.
#[derive(Clone, Debug, PartialEq, Eq)]
pub enum Payload {
    /// A rendered line of text.
    Text(String),
    /// The template and the values, left for a host-side decoder.
    Structured { template: String, values: Vec<String> },
}

/// One record handed to the output channel.
#[derive(Clone, Debug, PartialEq, Eq)]
pub struct Emission {
    pub channel: Channel,
    pub level: Level,
    pub payload: Payload,
}

/// The process-wide logger of the active backend.
#[derive(Clone, Copy, Debug, PartialEq, Eq, Structural)]
pub struct Logger {
    pub backend: LogBackend,
    pub registered: bool,
}

/// Severity as a number: 1 for `Error` up to 5 for `Trace`.
pub open spec fn rank(l: Level) -> nat {
    match l {
        Level::Error => 1,
        Level::Warn => 2,
        Level::Info => 3,
        Level::Debug => 4,
        Level::Trace => 5,
    }
}

/// The threshold of the text backends' logger.
pub open spec fn text_threshold() -> Level {
    Level::Info
}

/// Whether a logger in state `l` emits a record of level `level`. A text
/// backend drops every record until it is registered, and after that the
/// records below its threshold; the structured backend registers itself and
/// emits every record; the fallback emits none.
pub open spec fn emits(l: Logger, level: Level) -> bool {
    match l.backend {
        LogBackend::Itm | LogBackend::Semihosting => l.registered && rank(level) <= rank(
            text_threshold(),
        ),
        LogBackend::StructuredRtt => true,
        LogBackend::Fallback => false,
    }
}

/// The template with each `{}` replaced by the next value, in order. A `{}`
/// left over once the values run out stays as it is; values left over once
/// the template ends are not written.
pub open spec fn render(t: Seq<char>, vals: Seq<Seq<char>>) -> Seq<char>
    decreases t.len(),
{
    if t.len() == 0 {
        Seq::empty()
    } else if t.len() >= 2 && t[0] == '{' && t[1] == '}' && vals.len() > 0 {
        vals[0] + render(t.skip(2), vals.skip(1))
    } else {
        seq![t[0]] + render(t.skip(1), vals)
    }
}

/// Whether `r` is what a logger in state `l` hands out for a call at `level`
/// with template `t` and values `vals`.
pub open spec fn is_emission(
    l: Logger,
    level: Level,
    t: Seq<char>,
    vals: Seq<String>,
    r: Option<Emission>,
) -> bool {
    if !emits(l, level) {
        r is None
    } else {
        &&& r is Some
        &&& channel_of(l.backend) == Some(r->Some_0.channel)
        &&& r->Some_0.level == level
        &&& match r->Some_0.payload {
            Payload::Text(s) => l.backend != LogBackend::StructuredRtt && s@ == render(t, views(vals)),
            Payload::Structured { template, values } => l.backend == LogBackend::StructuredRtt
                && template@ == t && values@ == vals,
        }
    }
}

/// The views of a list of strings.
pub open spec fn views(vals: Seq<String>) -> Seq<Seq<char>> {
    vals.map_values(|s: String| s@)
}

/// The logger state after `init` with the given transport status, and its result.
pub open spec fn after_init(l: Logger, transport_ready: bool) -> (Logger, Result<(), InitError>) {
    if !needs_registration(l.backend) {
        (l, Ok(()))
    } else if l.registered {
        (l, Err(InitError::AlreadyRegistered))
    } else if !transport_ready {
        (l, Err(InitError::TransportUnavailable))
    } else {
        (Logger { backend: l.backend, registered: true }, Ok(()))
    }
}

impl Level {
    /// Severity as a number: 1 for `Error` up to 5 for `Trace`.
    pub fn rank(&self) -> (r: u8)
        ensures
            r as nat == rank(*self),
    {
        match self {
            Level::Error => 1,
            Level::Warn => 2,
            Level::Info => 3,
            Level::Debug => 4,
            Level::Trace => 5,
        }
    }

    /// Whether a record of this level passes a threshold of `threshold`.
    pub fn passes(&self, threshold: Level) -> (r: bool)
        ensures
            r == (rank(*self) <= rank(threshold)),
    {
        self.rank() <= threshold.rank()
    }
}

impl Logger {
    /// The logger of `backend`, before any `init`.
    pub fn new(backend: LogBackend) -> (r: Logger)
        ensures
            r.backend == backend,
            !r.registered,
    {
        Logger { backend, registered: false }
    }

    /// Registers the backend's logger where the backend needs it. The
    /// self-registering backend and the fallback need none: for them this
    /// succeeds and changes nothing. `transport_ready` tells whether the
    /// transport the logger writes through was acquired.
    pub fn init(&mut self, transport_ready: bool) -> (r: Result<(), InitError>)
        ensures
            (*final(self), r) == after_init(*old(self), transport_ready),
    {
        if !self.backend.needs_init() {
            Ok(())
        } else if self.registered {
            Err(InitError::AlreadyRegistered)
        } else if !transport_ready {
            Err(InitError::TransportUnavailable)
        } else {
            self.registered = true;
            Ok(())
        }
    }

    /// Whether a record of `level` is emitted in the current state.
    pub fn enabled(&self, level: Level) -> (r: bool)
        ensures
            r == emits(*self, level),
    {
        match self.backend {
            LogBackend::Itm | LogBackend::Semihosting => self.registered && level.passes(Level::Info),
            LogBackend::StructuredRtt => true,
            LogBackend::Fallback => false,
        }
    }

    /// The record a call at `level` produces, or `None` where the call is a
    /// no-op. Text backends render the template; the structured backend
    /// carries the template and the values as they are.
    pub fn emit(&self, level: Level, template: &str, values: Vec<String>) -> (r: Option<Emission>)
        ensures
            is_emission(*self, level, template@, values@, r),
    {
        if !self.enabled(level) {
            return None;
        }
        let channel = match self.backend.channel() {
            Some(c) => c,
            None => {
                return None;
            },
        };
        let payload = if self.backend == LogBackend::StructuredRtt {
            Payload::Structured { template: template.to_string(), values }
        } else {
            Payload::Text(render_template(template, &values))
        };
        Some(Emission { channel, level, payload })
    }

    /// A record at `Error` level.
    pub fn error(&self, template: &str, values: Vec<String>) -> (r: Option<Emission>)
        ensures
            is_emission(*self, Level::Error, template@, values@, r),
    {
        self.emit(Level::Error, template, values)
    }

    /// A record at `Warn` level.
    pub fn warn(&self, template: &str, values: Vec<String>) -> (r: Option<Emission>)
        ensures
            is_emission(*self, Level::Warn, template@, values@, r),
    {
        self.emit(Level::Warn, template, values)
    }

    /// A record at `Info` level.
    pub fn info(&self, template: &str, values: Vec<String>) -> (r: Option<Emission>)
        ensures
            is_emission(*self, Level::Info, template@, values@, r),
    {
        self.emit(Level::Info, template, values)
    }

    /// A record at `Debug` level.
    pub fn debug(&self, template: &str, values: Vec<String>) -> (r: Option<Emission>)
        ensures
            is_emission(*self, Level::Debug, template@, values@, r),
    {
        self.emit(Level::Debug, template, values)
    }

    /// A record at `Trace` level.
    pub fn trace(&self, template: &str, values: Vec<String>) -> (r: Option<Emission>)
        ensures
            is_emission(*self, Level::Trace, template@, values@, r),
    {
        self.emit(Level::Trace, template, values)
    }
}

/// A backend that registers itself, or the fallback, treats `init` as a
/// no-op: it succeeds, leaves the logger as it was, and so every later call
/// emits exactly what it would have emitted without it.
pub proof fn lemma_init_is_no_op_without_registration(l: Logger, transport_ready: bool)
    requires
        !needs_registration(l.backend),
    ensures
        after_init(l, transport_ready) == (l, Ok::<(), InitError>(())),
        forall|level: Level, t: Seq<char>, vals: Seq<String>, r: Option<Emission>|
            is_emission(after_init(l, transport_ready).0, level, t, vals, r) == is_emission(
                l,
                level,
                t,
                vals,
                r,
            ),
{
}

/// A backend that needs registration succeeds on its first `init` once its
/// transport is ready, and every later `init` fails as already registered
/// and changes nothing.
pub proof fn lemma_init_succeeds_once(l: Logger, second_ready: bool)
    requires
        needs_registration(l.backend),
        !l.registered,
    ensures
        after_init(l, true).1 is Ok,
        after_init(l, true).0.registered,
        after_init(after_init(l, true).0, second_ready) == (
        after_init(l, true).0,
        Err::<(), InitError>(InitError::AlreadyRegistered),
        ),
{
}

proof fn lemma_render_literal(t: Seq<char>, i: int, vals: Seq<Seq<char>>)
    requires
        0 <= i < t.len(),
        !(i + 1 < t.len() && t[i] == '{' && t[i + 1] == '}' && vals.len() > 0),
    ensures
        render(t.skip(i), vals) == seq![t[i]] + render(t.skip(i + 1), vals),
{
    assert(t.skip(i).skip(1) =~= t.skip(i + 1));
}

proof fn lemma_render_placeholder(t: Seq<char>, i: int, vals: Seq<Seq<char>>)
    requires
        0 <= i,
        i + 1 < t.len(),
        t[i] == '{',
        t[i + 1] == '}',
        vals.len() > 0,
    ensures
        render(t.skip(i), vals) == vals[0] + render(t.skip(i + 2), vals.skip(1)),
{
    assert(t.skip(i).skip(2) =~= t.skip(i + 2));
}

/// The template with each `{}` replaced by the next value, as `render` states.
pub fn render_template(template: &str, values: &Vec<String>) -> (r: String)
    ensures
        r@ == render(template@, views(values@)),
{
    let n = template.unicode_len();
    let ghost t = template@;
    let ghost vs = views(values@);
    let mut out = String::new();
    let mut start: usize = 0;
    let mut i: usize = 0;
    let mut k: usize = 0;
    proof {
        assert(t.skip(0) =~= t);
        assert(vs.skip(0) =~= vs);
        assert(out@ + t.subrange(0, 0) =~= Seq::<char>::empty());
    }
    while i < n
        invariant
            n == t.len(),
            t == template@,
            vs == views(values@),
            vs.len() == values@.len(),
            start <= i <= n,
            k <= values@.len(),
            render(t, vs) == out@ + t.subrange(start as int, i as int) + render(
                t.skip(i as int),
                vs.skip(k as int),
            ),
        decreases n - i,
    {
        let c = template.get_char(i);
        let placeholder = c == '{' && i + 1 < n && template.get_char(i + 1) == '}' && k
            < values.len();
        if placeholder {
            proof {
                lemma_render_placeholder(t, i as int, vs.skip(k as int));
                assert(vs.skip(k as int).skip(1) =~= vs.skip(k + 1));
                assert(vs.skip(k as int)[0] == values@[k as int]@);
            }
            let lit = template.substring_char(start, i);
            out.append(lit);
            out.append(values[k].as_str());
            proof {
                assert(render(t, vs) == out@ + render(t.skip(i + 2), vs.skip(k + 1))) by {
                    assert(t.subrange(start as int, i as int) + (values@[k as int]@ + render(
                        t.skip(i + 2),
                        vs.skip(k + 1),
                    )) =~= t.subrange(start as int, i as int) + values@[k as int]@ + render(
                        t.skip(i + 2),
                        vs.skip(k + 1),
                    ));
                }
                assert(t.subrange(i + 2, i + 2) =~= Seq::<char>::empty());
                assert(out@ + t.subrange(i + 2, i + 2) =~= out@);
            }
            i = i + 2;
            k = k + 1;
            start = i;
        } else {
            proof {
                lemma_render_literal(t, i as int, vs.skip(k as int));
                assert(t.subrange(start as int, i as int) + seq![t[i as int]] =~= t.subrange(
                    start as int,
                    i + 1,
                ));
                assert(out@ + t.subrange(start as int, i as int) + (seq![t[i as int]] + render(
                    t.skip(i + 1),
                    vs.skip(k as int),
                )) =~= out@ + t.subrange(start as int, i + 1) + render(
                    t.skip(i + 1),
                    vs.skip(k as int),
                ));
            }
            i = i + 1;
        }
    }
    let lit = template.substring_char(start, n);
    out.append(lit);
    proof {
        assert(t.skip(n as int) =~= Seq::<char>::empty());
        assert(render(t.skip(n as int), vs.skip(k as int)) == Seq::<char>::empty());
        assert(out@ =~= render(t, vs));
    }
    out
}

} // verus!
