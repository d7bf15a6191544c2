//! Selection of the logging backend, and the panic strategy that goes with it.
use vstd::prelude::*;

verus! {

/// The logging backend a build is configured with. Exactly one is active.
#[derive(Clone, Copy, Debug, PartialEq, Eq, Structural)]
pub enum LogBackend {
    /// Text records over the instrumentation trace macrocell.
    Itm,
    /// Structured binary records over a real-time memory transport.
    StructuredRtt,
    /// Text records over the host debugger's console.
    Semihosting,
    /// No output at all.
    Fallback,
}

/// An output channel that records and panic reports travel on.
#[derive(Clone, Copy, Debug, PartialEq, Eq, Structural)]
pub enum Channel {
    Itm,
    Rtt,
    Semihosting,
}

/// What happens when the program panics.
#[derive(Clone, Copy, Debug, PartialEq, Eq, Structural)]
pub enum PanicStrategy {
    /// Print the message over the trace port, then halt.
    PrintItmAndHalt,
    /// Hand the message to the structured backend's panic hook, then halt.
    ProbeAndHalt,
    /// Print the message on the semihosting console, then halt.
    PrintSemihostingAndHalt,
    /// Halt at once, with no output.
    Halt,
}

/// The build options that select a backend.
#[derive(Clone, Copy, Debug, PartialEq, Eq, Structural)]
pub struct BuildOptions {
    pub itm: bool,
    pub structured_rtt: bool,
    pub semihosting: bool,
}

/// More than one backend option was enabled.
#[derive(Clone, Copy, Debug, PartialEq, Eq, Structural)]
pub enum SelectionError {
    Conflict,
}

/// A report written before halting.
#[derive(Clone, Debug, PartialEq, Eq)]
pub struct Diagnostic {
    pub channel: Channel,
    pub text: String,
}

/// The observable outcome of a panic.
#[derive(Clone, Debug, PartialEq, Eq)]
pub struct PanicOutcome {
    pub report: Option<Diagnostic>,
    pub halted: bool,
}

/// The number of options that are enabled.
pub open spec fn enabled_count(o: BuildOptions) -> nat {
    (if o.itm { 1nat } else { 0nat }) + (if o.structured_rtt { 1nat } else { 0nat }) + (
    if o.semihosting { 1nat } else { 0nat })
}

/// The backend chosen by the priority chain: the first enabled option wins,
/// and with none enabled the fallback is chosen.
pub open spec fn resolved(o: BuildOptions) -> LogBackend {
    if o.itm {
        LogBackend::Itm
    } else if o.structured_rtt {
        LogBackend::StructuredRtt
    } else if o.semihosting {
        LogBackend::Semihosting
    } else {
        LogBackend::Fallback
    }
}

/// The panic strategy that each backend links.
pub open spec fn strategy_of(b: LogBackend) -> PanicStrategy {
    match b {
        LogBackend::Itm => PanicStrategy::PrintItmAndHalt,
        LogBackend::StructuredRtt => PanicStrategy::ProbeAndHalt,
        LogBackend::Semihosting => PanicStrategy::PrintSemihostingAndHalt,
        LogBackend::Fallback => PanicStrategy::Halt,
    }
}

/// The channel a backend writes to, if any.
pub open spec fn channel_of(b: LogBackend) -> Option<Channel> {
    match b {
        LogBackend::Itm => Some(Channel::Itm),
        LogBackend::StructuredRtt => Some(Channel::Rtt),
        LogBackend::Semihosting => Some(Channel::Semihosting),
        LogBackend::Fallback => None,
    }
}

/// The channel a panic strategy reports on, if any.
pub open spec fn report_channel(s: PanicStrategy) -> Option<Channel> {
    match s {
        PanicStrategy::PrintItmAndHalt => Some(Channel::Itm),
        PanicStrategy::ProbeAndHalt => Some(Channel::Rtt),
        PanicStrategy::PrintSemihostingAndHalt => Some(Channel::Semihosting),
        PanicStrategy::Halt => None,
    }
}

/// Whether a backend must be registered by an explicit `init` before it emits.
pub open spec fn needs_registration(b: LogBackend) -> bool {
    b == LogBackend::Itm || b == LogBackend::Semihosting
}

impl BuildOptions {
    /// No backend option enabled.
    pub fn none() -> (r: BuildOptions)
        ensures
            !r.itm && !r.structured_rtt && !r.semihosting,
    {
        BuildOptions { itm: false, structured_rtt: false, semihosting: false }
    }

    /// The backend that the priority chain picks.
    pub fn resolve(&self) -> (r: LogBackend)
        ensures
            r == resolved(*self),
            enabled_count(*self) == 0 ==> r == LogBackend::Fallback,
    {
        if self.itm {
            LogBackend::Itm
        } else if self.structured_rtt {
            LogBackend::StructuredRtt
        } else if self.semihosting {
            LogBackend::Semihosting
        } else {
            LogBackend::Fallback
        }
    }

    /// The backend, where at most one option is enabled; a conflict otherwise.
    pub fn resolve_exclusive(&self) -> (r: Result<LogBackend, SelectionError>)
        ensures
            enabled_count(*self) <= 1 <==> r is Ok,
            r is Ok ==> r->Ok_0 == resolved(*self),
            r is Err ==> r->Err_0 == SelectionError::Conflict,
    {
        let n: u8 = (if self.itm { 1u8 } else { 0u8 }) + (if self.structured_rtt { 1u8 } else { 0u8 }) + (
        if self.semihosting { 1u8 } else { 0u8 });
        if n > 1 {
            Err(SelectionError::Conflict)
        } else {
            Ok(self.resolve())
        }
    }
}

impl LogBackend {
    /// The panic strategy linked with this backend.
    pub fn panic_strategy(&self) -> (r: PanicStrategy)
        ensures
            r == strategy_of(*self),
    {
        match self {
            LogBackend::Itm => PanicStrategy::PrintItmAndHalt,
            LogBackend::StructuredRtt => PanicStrategy::ProbeAndHalt,
            LogBackend::Semihosting => PanicStrategy::PrintSemihostingAndHalt,
            LogBackend::Fallback => PanicStrategy::Halt,
        }
    }

    /// The channel this backend writes to; `None` for the fallback.
    pub fn channel(&self) -> (r: Option<Channel>)
        ensures
            r == channel_of(*self),
    {
        match self {
            LogBackend::Itm => Some(Channel::Itm),
            LogBackend::StructuredRtt => Some(Channel::Rtt),
            LogBackend::Semihosting => Some(Channel::Semihosting),
            LogBackend::Fallback => None,
        }
    }

    /// Whether `init` must register this backend before it emits anything.
    pub fn needs_init(&self) -> (r: bool)
        ensures
            r == needs_registration(*self),
    {
        match self {
            LogBackend::Itm | LogBackend::Semihosting => true,
            _ => false,
        }
    }
}

impl PanicStrategy {
    /// What a panic with `message` does under this strategy: every strategy
    /// halts, and all but `Halt` first report the message on their channel.
    pub fn on_panic(&self, message: &str) -> (r: PanicOutcome)
        ensures
            r.halted,
            report_channel(*self) is None ==> r.report is None,
            report_channel(*self) is Some ==> r.report is Some && r.report->Some_0.channel
                == report_channel(*self)->Some_0 && r.report->Some_0.text@ == message@,
    {
        let channel = match self {
            PanicStrategy::PrintItmAndHalt => Some(Channel::Itm),
            PanicStrategy::ProbeAndHalt => Some(Channel::Rtt),
            PanicStrategy::PrintSemihostingAndHalt => Some(Channel::Semihosting),
            PanicStrategy::Halt => None,
        };
        let report = match channel {
            Some(c) => Some(Diagnostic { channel: c, text: message.to_string() }),
            None => None,
        };
        PanicOutcome { report, halted: true }
    }
}

/// With no option enabled the fallback is chosen, which writes nothing and
/// halts silently on a panic.
pub proof fn lemma_no_option_is_fallback(o: BuildOptions)
    requires
        !o.itm && !o.structured_rtt && !o.semihosting,
    ensures
        resolved(o) == LogBackend::Fallback,
        channel_of(resolved(o)) is None,
        strategy_of(resolved(o)) == PanicStrategy::Halt,
        report_channel(strategy_of(resolved(o))) is None,
{
}

/// Each configuration links exactly one panic strategy, no two backends share
/// one, and a strategy reports on the same channel its backend logs to.
pub proof fn lemma_one_strategy_per_backend(a: LogBackend, b: LogBackend)
    ensures
        strategy_of(a) == strategy_of(b) <==> a == b,
        report_channel(strategy_of(a)) == channel_of(a),
{
}

/// A single enabled option selects its own backend, with or without the
/// priority chain.
pub proof fn lemma_exclusive_agrees_with_chain(o: BuildOptions)
    requires
        enabled_count(o) <= 1,
    ensures
        o.itm ==> resolved(o) == LogBackend::Itm,
        o.structured_rtt ==> resolved(o) == LogBackend::StructuredRtt,
        o.semihosting ==> resolved(o) == LogBackend::Semihosting,
{
}

} // verus!
