//! Laws of the protocol: what whole runs of the machine guarantee.
//!
//! A run is the fold of [`step_model`] over the events the application feeds
//! back, collected with the actions the machine hands out. The lemmas here
//! state the client's end-to-end guarantees over such runs: write-then-read
//! consistency, the not-found behaviour, the registration gate, failure
//! propagation, and the sequencing of the two transactions of a first write.

use vstd::prelude::*;

use crate::errors::RegistryError;
use crate::protocol::{
    add_code_call_model, fail_model, register_call_model, step_model, ActionModel, EventModel,
    SessionModel, StateModel,
};

verus! {

/// The machine folded over `events` from index `i` on: the final session and
/// the actions handed out, or `None` as soon as an event does not fit.
pub open spec fn run_from(
    s: SessionModel,
    events: Seq<EventModel>,
    i: int,
) -> Option<(SessionModel, Seq<ActionModel>)>
    decreases events.len() - i,
{
    if i < 0 || i >= events.len() {
        Some((s, Seq::empty()))
    } else {
        match step_model(s, events[i]) {
            Some(step) => match run_from(step.0, events, i + 1) {
                Some(rest) => Some((rest.0, seq![step.1] + rest.1)),
                None => None,
            },
            None => None,
        }
    }
}

/// The machine folded over all of `events`.
pub open spec fn run_model(s: SessionModel, events: Seq<EventModel>) -> Option<
    (SessionModel, Seq<ActionModel>),
> {
    run_from(s, events, 0)
}

/// What the chain's table answers for `key`.
pub open spec fn table_lookup(table: Map<Seq<char>, Seq<char>>, key: Seq<char>) -> Option<
    Seq<char>,
> {
    if table.contains_key(key) {
        Some(table[key])
    } else {
        None
    }
}

/// The events of a read against an account whose storage already exists:
/// the sequence number arrives, the resource arrives with its handle, and
/// the table lookup answers `lookup`.
pub open spec fn read_events(n0: nat, handle: Seq<char>, lookup: Option<Seq<char>>) -> Seq<
    EventModel,
> {
    seq![
        EventModel::Start,
        EventModel::SequenceFetched { result: Ok(n0) },
        EventModel::ResourceFetched { result: Ok(Some(handle)) },
        EventModel::TableItemFetched { result: Ok(lookup) },
    ]
}

/// The events of a write against an account whose storage already exists:
/// every round trip succeeds.
pub open spec fn registered_write_events(n0: nat, handle: Seq<char>, chain_id: u8, now: nat) -> Seq<
    EventModel,
> {
    seq![
        EventModel::Start,
        EventModel::SequenceFetched { result: Ok(n0) },
        EventModel::ResourceFetched { result: Ok(Some(handle)) },
        EventModel::GotChainId { result: Ok(chain_id), now_secs: now },
        EventModel::Submitted { result: Ok(()) },
        EventModel::Finalized { result: Ok(()) },
    ]
}

/// The events of a first-ever write: the storage resource is absent, the
/// registration is submitted and finalized, then the requested write is.
pub open spec fn first_write_events(
    n0: nat,
    chain_id1: u8,
    now1: nat,
    chain_id2: u8,
    now2: nat,
) -> Seq<EventModel> {
    seq![
        EventModel::Start,
        EventModel::SequenceFetched { result: Ok(n0) },
        EventModel::ResourceFetched { result: Ok(None) },
        EventModel::GotChainId { result: Ok(chain_id1), now_secs: now1 },
        EventModel::Submitted { result: Ok(()) },
        EventModel::Finalized { result: Ok(()) },
        EventModel::GotChainId { result: Ok(chain_id2), now_secs: now2 },
        EventModel::Submitted { result: Ok(()) },
        EventModel::Finalized { result: Ok(()) },
    ]
}

/// The events of a read against an account that has no storage yet: the
/// registration detour runs first, the retried resource fetch succeeds, and
/// the table lookup answers `lookup`.
pub open spec fn first_read_events(
    n0: nat,
    chain_id: u8,
    now: nat,
    handle: Seq<char>,
    lookup: Option<Seq<char>>,
) -> Seq<EventModel> {
    seq![
        EventModel::Start,
        EventModel::SequenceFetched { result: Ok(n0) },
        EventModel::ResourceFetched { result: Ok(None) },
        EventModel::GotChainId { result: Ok(chain_id), now_secs: now },
        EventModel::Submitted { result: Ok(()) },
        EventModel::Finalized { result: Ok(()) },
        EventModel::ResourceFetched { result: Ok(Some(handle)) },
        EventModel::TableItemFetched { result: Ok(lookup) },
    ]
}

/// A read against an account with no registry storage first brings that
/// storage into existence: it submits exactly one transaction, the
/// registration call, retries the resource fetch, and only then performs
/// the lookup — ending `Done` with the answered URI, or `Failed` with
/// `NotFoundError` when the fresh table does not hold the name.
pub proof fn lemma_read_auto_registers_absent_storage(
    r: SessionModel,
    n0: nat,
    chain_id: u8,
    now: nat,
    handle: Seq<char>,
    lookup: Option<Seq<char>>,
)
    requires
        r.state == StateModel::Idle,
        r.uri is None,
    ensures
        ({
            let read = run_model(r, first_read_events(n0, chain_id, now, handle, lookup));
            &&& read matches Some(end)
            &&& end.1.len() == 8
            &&& end.1[3] matches ActionModel::SubmitTransaction { transaction }
                && transaction.payload == register_call_model(r) && transaction.sequence_number
                == n0
            &&& end.1[6] matches ActionModel::FetchTableItem { key, .. } && key == r.name
            &&& forall|i: int|
                0 <= i < 8 && i != 3 ==> !(#[trigger] end.1[i] is SubmitTransaction)
            &&& end.0.state == (match lookup {
                Some(uri) => StateModel::Done { output: Some(uri) },
                None => StateModel::Failed { error: RegistryError::NotFoundError },
            })
        }),
{
    let events = first_read_events(n0, chain_id, now, handle, lookup);
    let step0 = step_model(r, events[0])->0;
    let step1 = step_model(step0.0, events[1])->0;
    let step2 = step_model(step1.0, events[2])->0;
    let step3 = step_model(step2.0, events[3])->0;
    let step4 = step_model(step3.0, events[4])->0;
    let step5 = step_model(step4.0, events[5])->0;
    let step6 = step_model(step5.0, events[6])->0;
    let step7 = step_model(step6.0, events[7])->0;
    assert(run_from(step7.0, events, 8) == Some((step7.0, Seq::<ActionModel>::empty())));
    assert(seq![step7.1] + Seq::<ActionModel>::empty() =~= seq![step7.1]);
    assert(run_from(step6.0, events, 7) == Some((step7.0, seq![step7.1])));
    assert(seq![step6.1] + seq![step7.1] =~= seq![step6.1, step7.1]);
    assert(run_from(step5.0, events, 6) == Some((step7.0, seq![step6.1, step7.1])));
    assert(seq![step5.1] + seq![step6.1, step7.1] =~= seq![step5.1, step6.1, step7.1]);
    assert(run_from(step4.0, events, 5) == Some((step7.0, seq![step5.1, step6.1, step7.1])));
    assert(seq![step4.1] + seq![step5.1, step6.1, step7.1] =~= seq![step4.1, step5.1, step6.1,
        step7.1]);
    assert(run_from(step3.0, events, 4) == Some((step7.0, seq![step4.1, step5.1, step6.1,
        step7.1])));
    assert(seq![step3.1] + seq![step4.1, step5.1, step6.1, step7.1] =~= seq![step3.1, step4.1,
        step5.1, step6.1, step7.1]);
    assert(run_from(step2.0, events, 3) == Some((step7.0, seq![step3.1, step4.1, step5.1, step6.1,
        step7.1])));
    assert(seq![step2.1] + seq![step3.1, step4.1, step5.1, step6.1, step7.1] =~= seq![step2.1,
        step3.1, step4.1, step5.1, step6.1, step7.1]);
    assert(run_from(step1.0, events, 2) == Some((step7.0, seq![step2.1, step3.1, step4.1, step5.1,
        step6.1, step7.1])));
    assert(seq![step1.1] + seq![step2.1, step3.1, step4.1, step5.1, step6.1, step7.1]
        =~= seq![step1.1, step2.1, step3.1, step4.1, step5.1, step6.1, step7.1]);
    assert(run_from(step0.0, events, 1) == Some((step7.0, seq![step1.1, step2.1, step3.1, step4.1,
        step5.1, step6.1, step7.1])));
    assert(seq![step0.1] + seq![step1.1, step2.1, step3.1, step4.1, step5.1, step6.1, step7.1]
        =~= seq![step0.1, step1.1, step2.1, step3.1, step4.1, step5.1, step6.1, step7.1]);
    assert(run_model(r, events) == Some((step7.0, seq![step0.1, step1.1, step2.1, step3.1, step4.1,
        step5.1, step6.1, step7.1])));
}

/// Write-then-read consistency. A write run of `(name, uri)` against an
/// already-registered account reports success only once finalization was
/// observed; and a read of `name` whose table lookup answers from any table
/// into which `(name, uri)` has been entered returns exactly `uri`. That a
/// finalized `add_code` enters the pair into the table is the deployed
/// contract's behaviour, which the client assumes.
pub proof fn lemma_write_then_read_returns_written(
    w: SessionModel,
    r: SessionModel,
    table: Map<Seq<char>, Seq<char>>,
    n0: nat,
    nr: nat,
    handle: Seq<char>,
    rhandle: Seq<char>,
    chain_id: u8,
    now: nat,
)
    requires
        w.state == StateModel::Idle,
        w.uri is Some,
        r.state == StateModel::Idle,
        r.uri is None,
        r.name == w.name,
    ensures
        ({
            let written = run_model(w, registered_write_events(n0, handle, chain_id, now));
            written matches Some(end) && end.0.state == (StateModel::Done {
                output: None::<Seq<char>>,
            })
        }),
        ({
            let lookup = table_lookup(table.insert(w.name, w.uri->0), r.name);
            let read = run_model(r, read_events(nr, rhandle, lookup));
            read matches Some(end) && end.0.state == (StateModel::Done { output: w.uri })
        }),
{
    lemma_registered_write_skips_registration(w, n0, handle, chain_id, now);
    let lookup = table_lookup(table.insert(w.name, w.uri->0), r.name);
    assert(table.insert(w.name, w.uri->0).contains_key(r.name));
    assert(lookup == Some(w.uri->0));
    lemma_read_run(r, nr, rhandle, lookup);
}

/// Reading a name that the table does not hold fails with `NotFoundError` —
/// an error value, not a crash and not an empty string.
pub proof fn lemma_read_of_never_written_name_fails(
    r: SessionModel,
    table: Map<Seq<char>, Seq<char>>,
    nr: nat,
    handle: Seq<char>,
)
    requires
        r.state == StateModel::Idle,
        r.uri is None,
        !table.contains_key(r.name),
    ensures
        ({
            let read = run_model(r, read_events(nr, handle, table_lookup(table, r.name)));
            read matches Some(end) && end.0.state == (StateModel::Failed {
                error: RegistryError::NotFoundError,
            }) && !(end.0.state is Done)
        }),
{
    assert(table_lookup(table, r.name) is None);
    lemma_read_run(r, nr, handle, table_lookup(table, r.name));
}

/// A read run against an existing resource: it performs exactly the lookup
/// of the requested name and ends `Done` with the answered URI, or `Failed`
/// with `NotFoundError` when the table does not hold the name.
pub proof fn lemma_read_run(r: SessionModel, n0: nat, handle: Seq<char>, lookup: Option<Seq<char>>)
    requires
        r.state == StateModel::Idle,
        r.uri is None,
    ensures
        ({
            let read = run_model(r, read_events(n0, handle, lookup));
            &&& read matches Some(end)
            &&& end.1.len() == 4
            &&& end.1[2] matches ActionModel::FetchTableItem { key, .. } && key == r.name
            &&& end.0.state == (match lookup {
                Some(uri) => StateModel::Done { output: Some(uri) },
                None => StateModel::Failed { error: RegistryError::NotFoundError },
            })
        }),
{
    let events = read_events(n0, handle, lookup);
    let step0 = step_model(r, events[0])->0;
    let step1 = step_model(step0.0, events[1])->0;
    let step2 = step_model(step1.0, events[2])->0;
    let step3 = step_model(step2.0, events[3])->0;
    assert(run_from(step3.0, events, 4) == Some((step3.0, Seq::<ActionModel>::empty())));
    assert(seq![step3.1] + Seq::<ActionModel>::empty() =~= seq![step3.1]);
    assert(run_from(step2.0, events, 3) == Some((step3.0, seq![step3.1])));
    assert(seq![step2.1] + seq![step3.1] =~= seq![step2.1, step3.1]);
    assert(run_from(step1.0, events, 2) == Some((step3.0, seq![step2.1, step3.1])));
    assert(seq![step1.1] + seq![step2.1, step3.1] =~= seq![step1.1, step2.1, step3.1]);
    assert(run_from(step0.0, events, 1) == Some((step3.0, seq![step1.1, step2.1, step3.1])));
    assert(seq![step0.1] + seq![step1.1, step2.1, step3.1] =~= seq![step0.1, step1.1, step2.1,
        step3.1]);
    assert(run_model(r, events) == Some((step3.0, seq![step0.1, step1.1, step2.1, step3.1])));
}

/// Writing to an account whose storage already exists submits exactly one
/// transaction: the `add_code` call, under the sequence number fetched at
/// session start; no registration call is submitted.
pub proof fn lemma_registered_write_skips_registration(
    w: SessionModel,
    n0: nat,
    handle: Seq<char>,
    chain_id: u8,
    now: nat,
)
    requires
        w.state == StateModel::Idle,
        w.uri is Some,
    ensures
        ({
            let written = run_model(w, registered_write_events(n0, handle, chain_id, now));
            &&& written matches Some(end)
            &&& end.0.state == (StateModel::Done { output: None::<Seq<char>> })
            &&& end.1.len() == 6
            &&& end.1[3] matches ActionModel::SubmitTransaction { transaction }
                && transaction.payload == add_code_call_model(w) && transaction.sequence_number
                == n0
            &&& forall|i: int|
                0 <= i < 6 && i != 3 ==> !(#[trigger] end.1[i] is SubmitTransaction)
        }),
{
    let events = registered_write_events(n0, handle, chain_id, now);
    let step0 = step_model(w, events[0])->0;
    let step1 = step_model(step0.0, events[1])->0;
    let step2 = step_model(step1.0, events[2])->0;
    let step3 = step_model(step2.0, events[3])->0;
    let step4 = step_model(step3.0, events[4])->0;
    let step5 = step_model(step4.0, events[5])->0;
    assert(run_from(step5.0, events, 6) == Some((step5.0, Seq::<ActionModel>::empty())));
    assert(seq![step5.1] + Seq::<ActionModel>::empty() =~= seq![step5.1]);
    assert(run_from(step4.0, events, 5) == Some((step5.0, seq![step5.1])));
    assert(seq![step4.1] + seq![step5.1] =~= seq![step4.1, step5.1]);
    assert(run_from(step3.0, events, 4) == Some((step5.0, seq![step4.1, step5.1])));
    assert(seq![step3.1] + seq![step4.1, step5.1] =~= seq![step3.1, step4.1, step5.1]);
    assert(run_from(step2.0, events, 3) == Some((step5.0, seq![step3.1, step4.1, step5.1])));
    assert(seq![step2.1] + seq![step3.1, step4.1, step5.1] =~= seq![step2.1, step3.1, step4.1,
        step5.1]);
    assert(run_from(step1.0, events, 2) == Some((step5.0, seq![step2.1, step3.1, step4.1,
        step5.1])));
    assert(seq![step1.1] + seq![step2.1, step3.1, step4.1, step5.1] =~= seq![step1.1, step2.1,
        step3.1, step4.1, step5.1]);
    assert(run_from(step0.0, events, 1) == Some((step5.0, seq![step1.1, step2.1, step3.1, step4.1,
        step5.1])));
    assert(seq![step0.1] + seq![step1.1, step2.1, step3.1, step4.1, step5.1] =~= seq![step0.1,
        step1.1, step2.1, step3.1, step4.1, step5.1]);
    assert(run_model(w, events) == Some((step5.0, seq![step0.1, step1.1, step2.1, step3.1, step4.1,
        step5.1])));
}

/// A first-ever write submits exactly two transactions: one registration
/// call, finalized before the `add_code` call is even built, and then the
/// `add_code` call. Their sequence numbers are the value fetched at session
/// start and that value plus one — they differ by exactly one and neither
/// falls below the fetched value.
pub proof fn lemma_first_write_registers_exactly_once(
    w: SessionModel,
    n0: nat,
    chain_id1: u8,
    now1: nat,
    chain_id2: u8,
    now2: nat,
)
    requires
        w.state == StateModel::Idle,
        w.uri is Some,
    ensures
        ({
            let written = run_model(w, first_write_events(n0, chain_id1, now1, chain_id2, now2));
            &&& written matches Some(end)
            &&& end.0.state == (StateModel::Done { output: None::<Seq<char>> })
            &&& end.1.len() == 9
            &&& end.1[3] matches ActionModel::SubmitTransaction { transaction }
                && transaction.payload == register_call_model(w) && transaction.sequence_number
                == n0
            &&& end.1[6] matches ActionModel::SubmitTransaction { transaction }
                && transaction.payload == add_code_call_model(w) && transaction.sequence_number
                == n0 + 1
            &&& forall|i: int|
                0 <= i < 9 && i != 3 && i != 6 ==> !(#[trigger] end.1[i] is SubmitTransaction)
        }),
{
    let events = first_write_events(n0, chain_id1, now1, chain_id2, now2);
    let step0 = step_model(w, events[0])->0;
    let step1 = step_model(step0.0, events[1])->0;
    let step2 = step_model(step1.0, events[2])->0;
    let step3 = step_model(step2.0, events[3])->0;
    let step4 = step_model(step3.0, events[4])->0;
    let step5 = step_model(step4.0, events[5])->0;
    let step6 = step_model(step5.0, events[6])->0;
    let step7 = step_model(step6.0, events[7])->0;
    let step8 = step_model(step7.0, events[8])->0;
    assert(run_from(step8.0, events, 9) == Some((step8.0, Seq::<ActionModel>::empty())));
    assert(seq![step8.1] + Seq::<ActionModel>::empty() =~= seq![step8.1]);
    assert(run_from(step7.0, events, 8) == Some((step8.0, seq![step8.1])));
    assert(seq![step7.1] + seq![step8.1] =~= seq![step7.1, step8.1]);
    assert(run_from(step6.0, events, 7) == Some((step8.0, seq![step7.1, step8.1])));
    assert(seq![step6.1] + seq![step7.1, step8.1] =~= seq![step6.1, step7.1, step8.1]);
    assert(run_from(step5.0, events, 6) == Some((step8.0, seq![step6.1, step7.1, step8.1])));
    assert(seq![step5.1] + seq![step6.1, step7.1, step8.1] =~= seq![step5.1, step6.1, step7.1,
        step8.1]);
    assert(run_from(step4.0, events, 5) == Some((step8.0, seq![step5.1, step6.1, step7.1,
        step8.1])));
    assert(seq![step4.1] + seq![step5.1, step6.1, step7.1, step8.1] =~= seq![step4.1, step5.1,
        step6.1, step7.1, step8.1]);
    assert(run_from(step3.0, events, 4) == Some((step8.0, seq![step4.1, step5.1, step6.1, step7.1,
        step8.1])));
    assert(seq![step3.1] + seq![step4.1, step5.1, step6.1, step7.1, step8.1] =~= seq![step3.1,
        step4.1, step5.1, step6.1, step7.1, step8.1]);
    assert(run_from(step2.0, events, 3) == Some((step8.0, seq![step3.1, step4.1, step5.1, step6.1,
        step7.1, step8.1])));
    assert(seq![step2.1] + seq![step3.1, step4.1, step5.1, step6.1, step7.1, step8.1]
        =~= seq![step2.1, step3.1, step4.1, step5.1, step6.1, step7.1, step8.1]);
    assert(run_from(step1.0, events, 2) == Some((step8.0, seq![step2.1, step3.1, step4.1, step5.1,
        step6.1, step7.1, step8.1])));
    assert(seq![step1.1] + seq![step2.1, step3.1, step4.1, step5.1, step6.1, step7.1, step8.1]
        =~= seq![step1.1, step2.1, step3.1, step4.1, step5.1, step6.1, step7.1, step8.1]);
    assert(run_from(step0.0, events, 1) == Some((step8.0, seq![step1.1, step2.1, step3.1, step4.1,
        step5.1, step6.1, step7.1, step8.1])));
    assert(seq![step0.1] + seq![step1.1, step2.1, step3.1, step4.1, step5.1, step6.1, step7.1,
        step8.1] =~= seq![step0.1, step1.1, step2.1, step3.1, step4.1, step5.1, step6.1, step7.1,
        step8.1]);
    assert(run_model(w, events) == Some((step8.0, seq![step0.1, step1.1, step2.1, step3.1, step4.1,
        step5.1, step6.1, step7.1, step8.1])));
}

/// A finalization verdict of failure — execution failure or timeout — on
/// either transaction of a run moves the machine to `Failed` with exactly
/// that error; it never reports success.
pub proof fn lemma_failed_finalization_fails_run(s: SessionModel, error: RegistryError)
    requires
        s.state == StateModel::AwaitingWrite || s.state == StateModel::AwaitingRegistration,
    ensures
        step_model(s, EventModel::Finalized { result: Err(error) }) == Some(fail_model(s, error)),
        fail_model(s, error).0.state == (StateModel::Failed { error }),
        !(fail_model(s, error).0.state is Done),
{
}

} // verus!
