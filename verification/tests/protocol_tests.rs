use codecat::account::Identity;
use codecat::errors::RegistryError;
use codecat::protocol::{Action, Event, Session, State};

const NOW: u64 = 1_700_000_000;

fn session(name: &str, uri: &str) -> Session {
    let key = "ab".repeat(32);
    let identity = Identity::load(&key, String::from("0xsender")).unwrap();
    Session::new(identity, String::from("0xcafe"), String::from(name), String::from(uri))
}

fn expect_submit(action: Action) -> codecat::txn::SignableTransaction {
    match action {
        Action::SubmitTransaction { transaction } => transaction,
        other => panic!("expected a submission, got {:?}", variant_name(&other)),
    }
}

fn variant_name(action: &Action) -> &'static str {
    match action {
        Action::FetchSequenceNumber => "FetchSequenceNumber",
        Action::FetchResource { .. } => "FetchResource",
        Action::FetchChainId => "FetchChainId",
        Action::SubmitTransaction { .. } => "SubmitTransaction",
        Action::AwaitFinalization => "AwaitFinalization",
        Action::FetchTableItem { .. } => "FetchTableItem",
        Action::Report { .. } => "Report",
        Action::Fail { .. } => "Fail",
    }
}

#[test]
fn read_of_never_registered_account_registers_then_misses() {
    let mut s = session("foo", "");
    assert!(matches!(s.step(Event::Start), Action::FetchSequenceNumber));
    let a = s.step(Event::SequenceFetched { result: Ok(7) });
    match a {
        Action::FetchResource { resource_type } => {
            assert_eq!(resource_type, "0xcafe::codecat::CodeList");
        },
        _ => panic!("expected a resource fetch"),
    }
    // The storage resource is absent: the client first registers.
    assert!(matches!(s.step(Event::ResourceFetched { result: Ok(None) }), Action::FetchChainId));
    let t = expect_submit(s.step(Event::GotChainId { result: Ok(4), now_secs: NOW }));
    assert_eq!(t.payload.function_name, "register");
    assert_eq!(t.payload.module_address, "0xcafe");
    assert_eq!(t.sequence_number, 7);
    assert!(matches!(s.step(Event::Submitted { result: Ok(()) }), Action::AwaitFinalization));
    // After finalization the resource fetch is retried and now succeeds,
    // with an empty table behind the handle.
    assert!(matches!(
        s.step(Event::Finalized { result: Ok(()) }),
        Action::FetchResource { .. }
    ));
    let a = s.step(Event::ResourceFetched { result: Ok(Some(String::from("0xfeed"))) });
    match a {
        Action::FetchTableItem { handle, key_type, value_type, key } => {
            assert_eq!(handle, "feed");
            assert_eq!(key_type, "0x1::string::String");
            assert_eq!(value_type, "0xcafe::codecat::Code");
            assert_eq!(key, "foo");
        },
        _ => panic!("expected a table lookup"),
    }
    let a = s.step(Event::TableItemFetched { result: Ok(None) });
    assert!(matches!(a, Action::Fail { error: RegistryError::NotFoundError, .. }));
    assert!(s.is_terminal());
    assert!(matches!(s.state, State::Failed { error: RegistryError::NotFoundError }));
}

#[test]
fn first_write_submits_registration_then_add_code() {
    let mut s = session("foo", "https://x.io/foo");
    assert!(matches!(s.step(Event::Start), Action::FetchSequenceNumber));
    assert!(matches!(
        s.step(Event::SequenceFetched { result: Ok(7) }),
        Action::FetchResource { .. }
    ));
    assert!(matches!(s.step(Event::ResourceFetched { result: Ok(None) }), Action::FetchChainId));
    let register = expect_submit(s.step(Event::GotChainId { result: Ok(4), now_secs: NOW }));
    assert_eq!(register.payload.function_name, "register");
    assert!(register.payload.args.is_empty());
    assert_eq!(register.sequence_number, 7);
    assert!(matches!(s.step(Event::Submitted { result: Ok(()) }), Action::AwaitFinalization));
    // The write path proceeds directly once registration is finalized.
    assert!(matches!(s.step(Event::Finalized { result: Ok(()) }), Action::FetchChainId));
    let add = expect_submit(s.step(Event::GotChainId { result: Ok(4), now_secs: NOW + 30 }));
    assert_eq!(add.payload.function_name, "add_code");
    assert_eq!(add.payload.args.len(), 2);
    assert_eq!(add.payload.args[0], {
        let mut v = vec![3u8];
        v.extend_from_slice(b"foo");
        v
    });
    // Sequence numbers of the two transactions differ by exactly one and
    // never fall below the value fetched at session start.
    assert_eq!(add.sequence_number, register.sequence_number + 1);
    assert!(register.sequence_number >= 7 && add.sequence_number >= 7);
    assert!(matches!(s.step(Event::Submitted { result: Ok(()) }), Action::AwaitFinalization));
    let a = s.step(Event::Finalized { result: Ok(()) });
    assert!(matches!(a, Action::Report { output: None }));
    assert!(matches!(s.state, State::Done { output: None }));
}

#[test]
fn subsequent_write_skips_registration() {
    let mut s = session("bar", "https://x.io/bar");
    assert!(matches!(s.step(Event::Start), Action::FetchSequenceNumber));
    assert!(matches!(
        s.step(Event::SequenceFetched { result: Ok(12) }),
        Action::FetchResource { .. }
    ));
    // The storage resource exists: no registration call is built.
    let a = s.step(Event::ResourceFetched { result: Ok(Some(String::from("0xfeed"))) });
    assert!(matches!(a, Action::FetchChainId));
    let add = expect_submit(s.step(Event::GotChainId { result: Ok(4), now_secs: NOW }));
    assert_eq!(add.payload.function_name, "add_code");
    assert_eq!(add.sequence_number, 12);
    assert!(matches!(s.step(Event::Submitted { result: Ok(()) }), Action::AwaitFinalization));
    let a = s.step(Event::Finalized { result: Ok(()) });
    assert!(matches!(a, Action::Report { output: None }));
    assert!(matches!(s.state, State::Done { output: None }));
}

#[test]
fn read_returns_stored_uri() {
    let mut s = session("bar", "");
    assert!(matches!(s.step(Event::Start), Action::FetchSequenceNumber));
    assert!(matches!(
        s.step(Event::SequenceFetched { result: Ok(13) }),
        Action::FetchResource { .. }
    ));
    assert!(matches!(
        s.step(Event::ResourceFetched { result: Ok(Some(String::from("0xfeed"))) }),
        Action::FetchTableItem { .. }
    ));
    let a = s.step(Event::TableItemFetched { result: Ok(Some(String::from("https://x.io/bar"))) });
    match a {
        Action::Report { output } => assert_eq!(output.unwrap(), "https://x.io/bar"),
        _ => panic!("expected a success report"),
    }
    match &s.state {
        State::Done { output } => assert_eq!(output.as_deref().unwrap(), "https://x.io/bar"),
        _ => panic!("expected the run to be done"),
    }
}

#[test]
fn network_error_fails_the_run_before_any_output() {
    let mut s = session("foo", "");
    assert!(matches!(s.step(Event::Start), Action::FetchSequenceNumber));
    let a = s.step(Event::SequenceFetched { result: Err(RegistryError::NetworkError) });
    match a {
        Action::Fail { error, context } => {
            assert_eq!(error, RegistryError::NetworkError);
            assert_eq!(context, "fetching the sequence number");
        },
        _ => panic!("expected a failure report"),
    }
    assert!(s.is_terminal());
    assert!(matches!(s.state, State::Failed { error: RegistryError::NetworkError }));
}

#[test]
fn execution_failure_of_the_write_is_propagated() {
    let mut s = session("bar", "https://x.io/bar");
    s.step(Event::Start);
    s.step(Event::SequenceFetched { result: Ok(3) });
    s.step(Event::ResourceFetched { result: Ok(Some(String::from("0xfeed"))) });
    s.step(Event::GotChainId { result: Ok(4), now_secs: NOW });
    s.step(Event::Submitted { result: Ok(()) });
    let a = s.step(Event::Finalized { result: Err(RegistryError::ExecutionError) });
    assert!(matches!(a, Action::Fail { error: RegistryError::ExecutionError, .. }));
    assert!(matches!(s.state, State::Failed { error: RegistryError::ExecutionError }));
}

#[test]
fn execution_failure_of_the_registration_aborts_the_write() {
    let mut s = session("foo", "https://x.io/foo");
    s.step(Event::Start);
    s.step(Event::SequenceFetched { result: Ok(3) });
    s.step(Event::ResourceFetched { result: Ok(None) });
    s.step(Event::GotChainId { result: Ok(4), now_secs: NOW });
    s.step(Event::Submitted { result: Ok(()) });
    let a = s.step(Event::Finalized { result: Err(RegistryError::ExecutionError) });
    assert!(matches!(a, Action::Fail { error: RegistryError::ExecutionError, .. }));
    assert!(s.is_terminal());
}

#[test]
fn submission_rejection_is_propagated() {
    let mut s = session("bar", "https://x.io/bar");
    s.step(Event::Start);
    s.step(Event::SequenceFetched { result: Ok(3) });
    s.step(Event::ResourceFetched { result: Ok(Some(String::from("0xfeed"))) });
    s.step(Event::GotChainId { result: Ok(4), now_secs: NOW });
    let a = s.step(Event::Submitted { result: Err(RegistryError::SubmissionError) });
    assert!(matches!(a, Action::Fail { error: RegistryError::SubmissionError, .. }));
}

#[test]
fn timeout_while_waiting_is_propagated() {
    let mut s = session("bar", "https://x.io/bar");
    s.step(Event::Start);
    s.step(Event::SequenceFetched { result: Ok(3) });
    s.step(Event::ResourceFetched { result: Ok(Some(String::from("0xfeed"))) });
    s.step(Event::GotChainId { result: Ok(4), now_secs: NOW });
    s.step(Event::Submitted { result: Ok(()) });
    let a = s.step(Event::Finalized { result: Err(RegistryError::TimeoutError) });
    assert!(matches!(a, Action::Fail { error: RegistryError::TimeoutError, .. }));
}

#[test]
fn second_resource_miss_after_registration_fails() {
    let mut s = session("foo", "");
    s.step(Event::Start);
    s.step(Event::SequenceFetched { result: Ok(7) });
    s.step(Event::ResourceFetched { result: Ok(None) });
    s.step(Event::GotChainId { result: Ok(4), now_secs: NOW });
    s.step(Event::Submitted { result: Ok(()) });
    s.step(Event::Finalized { result: Ok(()) });
    // Still absent after a finalized registration: no second registration.
    let a = s.step(Event::ResourceFetched { result: Ok(None) });
    assert!(matches!(a, Action::Fail { error: RegistryError::NotFoundError, .. }));
}

#[test]
fn empty_uri_means_read_mode() {
    let s = session("foo", "");
    assert!(s.uri.is_none());
    let s = session("foo", "https://x.io/foo");
    assert_eq!(s.uri.as_deref().unwrap(), "https://x.io/foo");
}
