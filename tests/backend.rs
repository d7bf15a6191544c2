use nucleo_blink::backend::{BuildOptions, Channel, LogBackend, PanicStrategy, SelectionError};

fn opts(itm: bool, structured_rtt: bool, semihosting: bool) -> BuildOptions {
    BuildOptions { itm, structured_rtt, semihosting }
}

#[test]
fn no_option_resolves_to_fallback() {
    let o = BuildOptions::none();
    assert_eq!(o.resolve(), LogBackend::Fallback);
    assert_eq!(o.resolve_exclusive(), Ok(LogBackend::Fallback));
    let backend = o.resolve();
    assert_eq!(backend.channel(), None);
    assert_eq!(backend.panic_strategy(), PanicStrategy::Halt);
    let outcome = backend.panic_strategy().on_panic("boom");
    assert!(outcome.halted);
    assert!(outcome.report.is_none());
}

#[test]
fn single_option_selects_its_backend() {
    assert_eq!(opts(true, false, false).resolve(), LogBackend::Itm);
    assert_eq!(opts(false, true, false).resolve(), LogBackend::StructuredRtt);
    assert_eq!(opts(false, false, true).resolve(), LogBackend::Semihosting);
    assert_eq!(opts(false, true, false).resolve_exclusive(), Ok(LogBackend::StructuredRtt));
}

#[test]
fn priority_chain_prefers_earlier_option() {
    assert_eq!(opts(true, true, true).resolve(), LogBackend::Itm);
    assert_eq!(opts(false, true, true).resolve(), LogBackend::StructuredRtt);
    assert_eq!(opts(true, false, true).resolve(), LogBackend::Itm);
}

#[test]
fn conflicting_options_are_refused_when_exclusive() {
    assert_eq!(opts(true, true, false).resolve_exclusive(), Err(SelectionError::Conflict));
    assert_eq!(opts(false, true, true).resolve_exclusive(), Err(SelectionError::Conflict));
    assert_eq!(opts(true, true, true).resolve_exclusive(), Err(SelectionError::Conflict));
}

#[test]
fn each_backend_links_its_own_panic_strategy() {
    let all = [LogBackend::Itm, LogBackend::StructuredRtt, LogBackend::Semihosting, LogBackend::Fallback];
    let expected = [
        PanicStrategy::PrintItmAndHalt,
        PanicStrategy::ProbeAndHalt,
        PanicStrategy::PrintSemihostingAndHalt,
        PanicStrategy::Halt,
    ];
    for (b, s) in all.iter().zip(expected.iter()) {
        assert_eq!(b.panic_strategy(), *s);
    }
    for a in all.iter() {
        for b in all.iter() {
            assert_eq!(a.panic_strategy() == b.panic_strategy(), a == b);
        }
    }
}

#[test]
fn simulated_panic_reports_on_backend_channel_then_halts() {
    let cases = [
        (LogBackend::Itm, Some(Channel::Itm)),
        (LogBackend::StructuredRtt, Some(Channel::Rtt)),
        (LogBackend::Semihosting, Some(Channel::Semihosting)),
        (LogBackend::Fallback, None),
    ];
    for (backend, channel) in cases.iter() {
        let outcome = backend.panic_strategy().on_panic("cannot take peripherals");
        assert!(outcome.halted);
        match channel {
            Some(c) => {
                let report = outcome.report.expect("a report");
                assert_eq!(report.channel, *c);
                assert_eq!(report.text, "cannot take peripherals");
            }
            None => assert!(outcome.report.is_none()),
        }
        assert_eq!(backend.channel(), *channel);
    }
}

#[test]
fn only_text_backends_need_init() {
    assert!(LogBackend::Itm.needs_init());
    assert!(LogBackend::Semihosting.needs_init());
    assert!(!LogBackend::StructuredRtt.needs_init());
    assert!(!LogBackend::Fallback.needs_init());
}
