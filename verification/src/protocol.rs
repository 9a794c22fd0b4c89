//! The registry protocol: a state machine that decides every step of a run.
//!
//! One [`Session`] performs one requested operation: a read (query the URI
//! under a name) or a write (register the account's storage if it does not
//! exist yet, then add or update the entry). The machine never performs a
//! network call itself; each transition returns an [`Action`] for the
//! surrounding application to perform, and the application feeds the outcome
//! back as the next [`Event`]. The whole transition relation is the spec
//! function [`step_model`]; the executable [`Session::step`] implements it
//! exactly.

use vstd::prelude::*;
use vstd::pervasive::unreached;
use vstd::string::StringExecFns;

use crate::account::{Identity, IdentityModel};
use crate::codec::bcs_string;
use crate::errors::RegistryError;
use crate::txn::{
    Call, CallModel, ChainContext, SignableTransaction, TransactionModel, EXPIRATION_WINDOW_SECS,
    GAS_UNIT_PRICE, MAX_GAS_AMOUNT, code_list_type_tag, code_type_tag, strip_hex_prefix,
    stripped_hex_prefix, table_key_type_tag,
};

verus! {

/// Where a run stands. A write runs the left column, a read the right one;
/// the registration detour is shared: a read against a never-registered
/// account first brings the storage into existence, a write needs it before
/// the entry can be added.
pub enum State {
    /// Nothing has happened yet.
    Idle,
    /// Waiting for the authoritative sequence number of the account.
    RefreshingSequence,
    /// Waiting for the registry storage resource; `registered` records
    /// whether a registration was already finalized in this run.
    FetchingResource { registered: bool },
    /// Storage was absent; waiting for the chain id of the register call.
    FetchingChainIdToRegister,
    /// The register call was handed out for submission.
    SubmittingRegistration,
    /// The register call was accepted; waiting for finalization.
    AwaitingRegistration,
    /// Waiting for the chain id of the add/update call.
    FetchingChainIdToWrite,
    /// The add/update call was handed out for submission.
    SubmittingWrite,
    /// The add/update call was accepted; waiting for finalization.
    AwaitingWrite,
    /// Waiting for the table lookup of the requested name.
    FetchingTableItem,
    /// Success: the resolved URI for a read, nothing for a write.
    Done { output: Option<String> },
    /// A step failed; no further event applies.
    Failed { error: RegistryError },
}

/// The mathematical content of a [`State`].
#[verifier::ext_equal]
pub enum StateModel {
    Idle,
    RefreshingSequence,
    FetchingResource { registered: bool },
    FetchingChainIdToRegister,
    SubmittingRegistration,
    AwaitingRegistration,
    FetchingChainIdToWrite,
    SubmittingWrite,
    AwaitingWrite,
    FetchingTableItem,
    Done { output: Option<Seq<char>> },
    Failed { error: RegistryError },
}

impl View for State {
    type V = StateModel;

    open spec fn view(&self) -> StateModel {
        match self {
            State::Idle => StateModel::Idle,
            State::RefreshingSequence => StateModel::RefreshingSequence,
            State::FetchingResource { registered } => StateModel::FetchingResource {
                registered: *registered,
            },
            State::FetchingChainIdToRegister => StateModel::FetchingChainIdToRegister,
            State::SubmittingRegistration => StateModel::SubmittingRegistration,
            State::AwaitingRegistration => StateModel::AwaitingRegistration,
            State::FetchingChainIdToWrite => StateModel::FetchingChainIdToWrite,
            State::SubmittingWrite => StateModel::SubmittingWrite,
            State::AwaitingWrite => StateModel::AwaitingWrite,
            State::FetchingTableItem => StateModel::FetchingTableItem,
            State::Done { output } => StateModel::Done {
                output: match output {
                    Some(u) => Some(u@),
                    None => None,
                },
            },
            State::Failed { error } => StateModel::Failed { error: *error },
        }
    }
}

/// The outcome of one network round trip, fed back into the machine.
/// `Err` carries the error class the transport failure maps to.
#[allow(inconsistent_fields)]
pub enum Event {
    /// Kick off the run.
    Start,
    /// Outcome of fetching the account's sequence number.
    SequenceFetched { result: Result<u64, RegistryError> },
    /// Outcome of fetching the registry storage resource: the storage handle
    /// when the resource exists, `None` when the account has no storage yet.
    ResourceFetched { result: Result<Option<String>, RegistryError> },
    /// Outcome of fetching the chain identifier, with the clock reading used
    /// for the expiration of the transaction about to be built.
    GotChainId { result: Result<u8, RegistryError>, now_secs: u64 },
    /// Outcome of signing and submitting the transaction last handed out.
    Submitted { result: Result<(), RegistryError> },
    /// Finalization verdict of the transaction last submitted.
    Finalized { result: Result<(), RegistryError> },
    /// Outcome of the table lookup: the stored URI, or `None` when the name
    /// was never registered.
    TableItemFetched { result: Result<Option<String>, RegistryError> },
}

/// The mathematical content of an [`Event`].
#[verifier::ext_equal]
#[allow(inconsistent_fields)]
pub enum EventModel {
    Start,
    SequenceFetched { result: Result<nat, RegistryError> },
    ResourceFetched { result: Result<Option<Seq<char>>, RegistryError> },
    GotChainId { result: Result<u8, RegistryError>, now_secs: nat },
    Submitted { result: Result<(), RegistryError> },
    Finalized { result: Result<(), RegistryError> },
    TableItemFetched { result: Result<Option<Seq<char>>, RegistryError> },
}

impl View for Event {
    type V = EventModel;

    open spec fn view(&self) -> EventModel {
        match self {
            Event::Start => EventModel::Start,
            Event::SequenceFetched { result } => EventModel::SequenceFetched {
                result: match result {
                    Ok(n) => Ok(*n as nat),
                    Err(e) => Err(*e),
                },
            },
            Event::ResourceFetched { result } => EventModel::ResourceFetched {
                result: match result {
                    Ok(Some(h)) => Ok(Some(h@)),
                    Ok(None) => Ok(None),
                    Err(e) => Err(*e),
                },
            },
            Event::GotChainId { result, now_secs } => EventModel::GotChainId {
                result: match result {
                    Ok(id) => Ok(*id),
                    Err(e) => Err(*e),
                },
                now_secs: *now_secs as nat,
            },
            Event::Submitted { result } => EventModel::Submitted {
                result: match result {
                    Ok(_) => Ok(()),
                    Err(e) => Err(*e),
                },
            },
            Event::Finalized { result } => EventModel::Finalized {
                result: match result {
                    Ok(_) => Ok(()),
                    Err(e) => Err(*e),
                },
            },
            Event::TableItemFetched { result } => EventModel::TableItemFetched {
                result: match result {
                    Ok(Some(u)) => Ok(Some(u@)),
                    Ok(None) => Ok(None),
                    Err(e) => Err(*e),
                },
            },
        }
    }
}

/// What the application must do next.
pub enum Action {
    /// Fetch the account's sequence number.
    FetchSequenceNumber,
    /// Fetch the account resource of the given fully qualified type.
    FetchResource { resource_type: String },
    /// Fetch the chain identifier and read the clock.
    FetchChainId,
    /// Sign the transaction with the session's key and submit it.
    SubmitTransaction { transaction: SignableTransaction },
    /// Wait for the finalization verdict of the transaction just submitted.
    AwaitFinalization,
    /// Look the key up in the storage table behind `handle`.
    FetchTableItem { handle: String, key_type: String, value_type: String, key: String },
    /// The run succeeded; print the output, if any, and exit cleanly.
    Report { output: Option<String> },
    /// The run failed; report the error, with the step it struck, and exit
    /// non-zero.
    Fail { error: RegistryError, context: String },
}

/// The mathematical content of an [`Action`].
#[verifier::ext_equal]
pub enum ActionModel {
    FetchSequenceNumber,
    FetchResource { resource_type: Seq<char> },
    FetchChainId,
    SubmitTransaction { transaction: TransactionModel },
    AwaitFinalization,
    FetchTableItem { handle: Seq<char>, key_type: Seq<char>, value_type: Seq<char>, key: Seq<char> },
    Report { output: Option<Seq<char>> },
    Fail { error: RegistryError, context: Seq<char> },
}

impl View for Action {
    type V = ActionModel;

    open spec fn view(&self) -> ActionModel {
        match self {
            Action::FetchSequenceNumber => ActionModel::FetchSequenceNumber,
            Action::FetchResource { resource_type } => ActionModel::FetchResource {
                resource_type: resource_type@,
            },
            Action::FetchChainId => ActionModel::FetchChainId,
            Action::SubmitTransaction { transaction } => ActionModel::SubmitTransaction {
                transaction: transaction@,
            },
            Action::AwaitFinalization => ActionModel::AwaitFinalization,
            Action::FetchTableItem { handle, key_type, value_type, key } => {
                ActionModel::FetchTableItem {
                    handle: handle@,
                    key_type: key_type@,
                    value_type: value_type@,
                    key: key@,
                }
            },
            Action::Report { output } => ActionModel::Report {
                output: match output {
                    Some(u) => Some(u@),
                    None => None,
                },
            },
            Action::Fail { error, context } => ActionModel::Fail {
                error: *error,
                context: context@,
            },
        }
    }
}

/// One run of the protocol: the signing identity, the configured contract
/// address, the request, and where the run stands.
pub struct Session {
    /// The signing identity; its sequence number is kept in step with the
    /// network by the machine itself.
    pub identity: Identity,
    /// Hex address of the deployed registry contract.
    pub module_address: String,
    /// The requested name.
    pub name: String,
    /// The URI to store; `None` makes the run a read.
    pub uri: Option<String>,
    /// Where the run stands.
    pub state: State,
}

/// The mathematical content of a [`Session`].
#[verifier::ext_equal]
pub struct SessionModel {
    pub identity: IdentityModel,
    pub module_address: Seq<char>,
    pub name: Seq<char>,
    pub uri: Option<Seq<char>>,
    pub state: StateModel,
}

impl View for Session {
    type V = SessionModel;

    open spec fn view(&self) -> SessionModel {
        SessionModel {
            identity: self.identity@,
            module_address: self.module_address@,
            name: self.name@,
            uri: match &self.uri {
                Some(u) => Some(u@),
                None => None,
            },
            state: self.state@,
        }
    }
}

/// The fully qualified type of the registry storage resource.
pub open spec fn code_list_tag_model(s: SessionModel) -> Seq<char> {
    s.module_address + "::codecat::CodeList"@
}

/// The register call of this session, as a model.
pub open spec fn register_call_model(s: SessionModel) -> CallModel {
    CallModel {
        module_address: s.module_address,
        module_name: "codecat"@,
        function_name: "register"@,
        args: Seq::empty(),
    }
}

/// The add/update call of this session, as a model: `(name, uri)` encoded as
/// two independent length-prefixed byte sequences.
pub open spec fn add_code_call_model(s: SessionModel) -> CallModel
    recommends
        s.uri is Some,
{
    CallModel {
        module_address: s.module_address,
        module_name: "codecat"@,
        function_name: "add_code"@,
        args: seq![bcs_string(s.name), bcs_string(s.uri->0)],
    }
}

/// The transaction the session builds for `payload` at this point: sender
/// and sequence number are the identity's current ones, gas policy is flat,
/// the expiration is the clock reading plus the fixed window.
pub open spec fn built_transaction(
    s: SessionModel,
    payload: CallModel,
    chain_id: u8,
    now_secs: nat,
) -> TransactionModel {
    TransactionModel {
        sender: s.identity.address,
        sequence_number: s.identity.sequence_number,
        payload,
        max_gas_amount: MAX_GAS_AMOUNT,
        gas_unit_price: GAS_UNIT_PRICE,
        expiration_timestamp_secs: (now_secs + EXPIRATION_WINDOW_SECS) as u64,
        chain_id,
    }
}

/// `s` with its state replaced.
pub open spec fn with_state(s: SessionModel, state: StateModel) -> SessionModel {
    SessionModel { state, ..s }
}

/// What the machine was doing while in `state`: the context attached to a
/// failure that strikes there.
pub open spec fn step_description(state: StateModel) -> Seq<char> {
    match state {
        StateModel::RefreshingSequence => "fetching the sequence number"@,
        StateModel::FetchingResource { .. } => "fetching the registry resource"@,
        StateModel::FetchingChainIdToRegister => "fetching the chain id"@,
        StateModel::FetchingChainIdToWrite => "fetching the chain id"@,
        StateModel::SubmittingRegistration => "submitting the transaction"@,
        StateModel::SubmittingWrite => "submitting the transaction"@,
        StateModel::AwaitingRegistration => "waiting for finalization"@,
        StateModel::AwaitingWrite => "waiting for finalization"@,
        StateModel::FetchingTableItem => "resolving the name"@,
        _ => "running"@,
    }
}

/// `s` moved to the failed state, with the action that reports the error and
/// the step it struck.
pub open spec fn fail_model(s: SessionModel, error: RegistryError) -> (SessionModel, ActionModel) {
    (
        with_state(s, StateModel::Failed { error }),
        ActionModel::Fail { error, context: step_description(s.state) },
    )
}

/// `s` with its sequence number advanced by one, as after an accepted
/// submission.
pub open spec fn advanced(s: SessionModel) -> SessionModel {
    SessionModel {
        identity: IdentityModel { sequence_number: s.identity.sequence_number + 1, ..s.identity },
        ..s
    }
}

/// The whole transition relation of the protocol. `None` means the event
/// does not fit the state; the application, which answers exactly the action
/// it was handed, never produces such a pair.
pub open spec fn step_model(s: SessionModel, e: EventModel) -> Option<(SessionModel, ActionModel)> {
    match (s.state, e) {
        (StateModel::Idle, EventModel::Start) => Some(
            (with_state(s, StateModel::RefreshingSequence), ActionModel::FetchSequenceNumber),
        ),
        (StateModel::RefreshingSequence, EventModel::SequenceFetched { result }) => match result {
            Ok(n) => {
                let refreshed = SessionModel {
                    identity: IdentityModel { sequence_number: n, ..s.identity },
                    state: StateModel::FetchingResource { registered: false },
                    ..s
                };
                Some((refreshed, ActionModel::FetchResource { resource_type: code_list_tag_model(s) }))
            },
            Err(error) => Some(fail_model(s, error)),
        },
        (StateModel::FetchingResource { registered }, EventModel::ResourceFetched { result }) => match result {
            Ok(Some(handle)) => match s.uri {
                None => Some(
                    (
                        with_state(s, StateModel::FetchingTableItem),
                        ActionModel::FetchTableItem {
                            handle: stripped_hex_prefix(handle),
                            key_type: "0x1::string::String"@,
                            value_type: s.module_address + "::codecat::Code"@,
                            key: s.name,
                        },
                    ),
                ),
                Some(_) => Some(
                    (with_state(s, StateModel::FetchingChainIdToWrite), ActionModel::FetchChainId),
                ),
            },
            Ok(None) => {
                if registered {
                    Some(fail_model(s, RegistryError::NotFoundError))
                } else {
                    Some(
                        (
                            with_state(s, StateModel::FetchingChainIdToRegister),
                            ActionModel::FetchChainId,
                        ),
                    )
                }
            },
            Err(error) => Some(fail_model(s, error)),
        },
        (StateModel::FetchingChainIdToRegister, EventModel::GotChainId { result, now_secs }) => match result {
            Ok(chain_id) => Some(
                (
                    with_state(s, StateModel::SubmittingRegistration),
                    ActionModel::SubmitTransaction {
                        transaction: built_transaction(s, register_call_model(s), chain_id, now_secs),
                    },
                ),
            ),
            Err(error) => Some(fail_model(s, error)),
        },
        (StateModel::FetchingChainIdToWrite, EventModel::GotChainId { result, now_secs }) => match result {
            Ok(chain_id) => match s.uri {
                Some(_) => Some(
                    (
                        with_state(s, StateModel::SubmittingWrite),
                        ActionModel::SubmitTransaction {
                            transaction: built_transaction(
                                s,
                                add_code_call_model(s),
                                chain_id,
                                now_secs,
                            ),
                        },
                    ),
                ),
                None => None,
            },
            Err(error) => Some(fail_model(s, error)),
        },
        (StateModel::SubmittingRegistration, EventModel::Submitted { result }) => match result {
            Ok(_) => Some(
                (
                    with_state(advanced(s), StateModel::AwaitingRegistration),
                    ActionModel::AwaitFinalization,
                ),
            ),
            Err(error) => Some(fail_model(s, error)),
        },
        (StateModel::SubmittingWrite, EventModel::Submitted { result }) => match result {
            Ok(_) => Some(
                (with_state(advanced(s), StateModel::AwaitingWrite), ActionModel::AwaitFinalization),
            ),
            Err(error) => Some(fail_model(s, error)),
        },
        (StateModel::AwaitingRegistration, EventModel::Finalized { result }) => match result {
            Ok(_) => match s.uri {
                None => Some(
                    (
                        with_state(s, StateModel::FetchingResource { registered: true }),
                        ActionModel::FetchResource { resource_type: code_list_tag_model(s) },
                    ),
                ),
                Some(_) => Some(
                    (with_state(s, StateModel::FetchingChainIdToWrite), ActionModel::FetchChainId),
                ),
            },
            Err(error) => Some(fail_model(s, error)),
        },
        (StateModel::AwaitingWrite, EventModel::Finalized { result }) => match result {
            Ok(_) => Some(
                (
                    with_state(s, StateModel::Done { output: None }),
                    ActionModel::Report { output: None },
                ),
            ),
            Err(error) => Some(fail_model(s, error)),
        },
        (StateModel::FetchingTableItem, EventModel::TableItemFetched { result }) => match result {
            Ok(Some(uri)) => Some(
                (
                    with_state(s, StateModel::Done { output: Some(uri) }),
                    ActionModel::Report { output: Some(uri) },
                ),
            ),
            Ok(None) => Some(fail_model(s, RegistryError::NotFoundError)),
            Err(error) => Some(fail_model(s, error)),
        },
        _ => None,
    }
}

/// Machine-width side conditions of one step: the expiration and the
/// sequence number must stay representable.
pub open spec fn step_bounds(s: SessionModel, e: EventModel) -> bool {
    match e {
        EventModel::GotChainId { now_secs, .. } => now_secs + EXPIRATION_WINDOW_SECS <= u64::MAX,
        EventModel::Submitted { result } => result is Ok ==> s.identity.sequence_number + 1
            <= u64::MAX,
        _ => true,
    }
}

impl Session {
    /// Opens a session for one request. An empty URI requests a read, a
    /// non-empty one a write, exactly as on the command line.
    pub fn new(identity: Identity, module_address: String, name: String, uri: String) -> (s:
        Session)
        ensures
            s@ == (SessionModel {
                identity: identity@,
                module_address: module_address@,
                name: name@,
                uri: if uri@.len() == 0 {
                    None
                } else {
                    Some(uri@)
                },
                state: StateModel::Idle,
            }),
    {
        let read_mode = uri.as_str().is_empty();
        Session {
            identity,
            module_address,
            name,
            uri: if read_mode {
                None
            } else {
                Some(uri)
            },
            state: State::Idle,
        }
    }

    /// True once the run has finished, in success or failure; no further
    /// event applies then.
    pub fn is_terminal(&self) -> (r: bool)
        ensures
            r == (self@.state is Done || self@.state is Failed),
    {
        match &self.state {
            State::Done { .. } => true,
            State::Failed { .. } => true,
            _ => false,
        }
    }

    /// Performs one transition: consumes the outcome of the previous action
    /// and returns the next one. Implements [`step_model`] exactly.
    pub fn step(&mut self, event: Event) -> (r: Action)
        requires
            step_model(old(self)@, event@) is Some,
            step_bounds(old(self)@, event@),
        ensures
            Some((final(self)@, r@)) == step_model(old(self)@, event@),
    {
        match event {
            Event::Start => {
                self.state = State::RefreshingSequence;
                Action::FetchSequenceNumber
            },
            Event::SequenceFetched { result } => match result {
                Ok(n) => {
                    let resource_type = code_list_type_tag(self.module_address.as_str());
                    self.identity.refresh_sequence_number(n);
                    self.state = State::FetchingResource { registered: false };
                    Action::FetchResource { resource_type }
                },
                Err(error) => self.fail(error),
            },
            Event::ResourceFetched { result } => match result {
                Ok(Some(handle)) => {
                    let read_mode = match &self.uri {
                        None => true,
                        Some(_) => false,
                    };
                    if read_mode {
                        let stripped = strip_hex_prefix(handle.as_str());
                        let key_type = table_key_type_tag();
                        let value_type = code_type_tag(self.module_address.as_str());
                        let key = self.name.clone();
                        self.state = State::FetchingTableItem;
                        Action::FetchTableItem { handle: stripped, key_type, value_type, key }
                    } else {
                        self.state = State::FetchingChainIdToWrite;
                        Action::FetchChainId
                    }
                },
                Ok(None) => {
                    let registered = match &self.state {
                        State::FetchingResource { registered } => *registered,
                        _ => unreached(),
                    };
                    if registered {
                        self.fail(RegistryError::NotFoundError)
                    } else {
                        self.state = State::FetchingChainIdToRegister;
                        Action::FetchChainId
                    }
                },
                Err(error) => self.fail(error),
            },
            Event::GotChainId { result, now_secs } => match result {
                Ok(chain_id) => {
                    let registering = match &self.state {
                        State::FetchingChainIdToRegister => true,
                        _ => false,
                    };
                    let context = ChainContext::derive(chain_id, now_secs);
                    if registering {
                        let call = Call::register(self.module_address.clone());
                        let transaction = SignableTransaction::build(&self.identity, call, &context);
                        self.state = State::SubmittingRegistration;
                        Action::SubmitTransaction { transaction }
                    } else {
                        let uri = match &self.uri {
                            Some(u) => u.clone(),
                            None => unreached(),
                        };
                        let call = Call::add_code(
                            self.module_address.clone(),
                            self.name.as_str(),
                            uri.as_str(),
                        );
                        let transaction = SignableTransaction::build(&self.identity, call, &context);
                        self.state = State::SubmittingWrite;
                        Action::SubmitTransaction { transaction }
                    }
                },
                Err(error) => self.fail(error),
            },
            Event::Submitted { result } => match result {
                Ok(_) => {
                    let registering = match &self.state {
                        State::SubmittingRegistration => true,
                        _ => false,
                    };
                    self.identity.advance_sequence_number();
                    if registering {
                        self.state = State::AwaitingRegistration;
                    } else {
                        self.state = State::AwaitingWrite;
                    }
                    Action::AwaitFinalization
                },
                Err(error) => self.fail(error),
            },
            Event::Finalized { result } => match result {
                Ok(_) => {
                    let registering = match &self.state {
                        State::AwaitingRegistration => true,
                        _ => false,
                    };
                    if registering {
                        let read_mode = match &self.uri {
                            None => true,
                            Some(_) => false,
                        };
                        if read_mode {
                            let resource_type = code_list_type_tag(self.module_address.as_str());
                            self.state = State::FetchingResource { registered: true };
                            Action::FetchResource { resource_type }
                        } else {
                            self.state = State::FetchingChainIdToWrite;
                            Action::FetchChainId
                        }
                    } else {
                        self.state = State::Done { output: None };
                        Action::Report { output: None }
                    }
                },
                Err(error) => self.fail(error),
            },
            Event::TableItemFetched { result } => match result {
                Ok(Some(uri)) => {
                    self.state = State::Done { output: Some(uri.clone()) };
                    Action::Report { output: Some(uri) }
                },
                Ok(None) => self.fail(RegistryError::NotFoundError),
                Err(error) => self.fail(error),
            },
        }
    }

    /// Moves the session to the failed state and returns the action that
    /// reports the error, together with the step it struck.
    fn fail(&mut self, error: RegistryError) -> (r: Action)
        ensures
            final(self)@ == with_state(old(self)@, StateModel::Failed { error }),
            r@ == (ActionModel::Fail { error, context: step_description(old(self)@.state) }),
    {
        let context = describe_step(&self.state);
        self.state = State::Failed { error };
        Action::Fail { error, context }
    }
}

/// What the machine was doing while in `state`, as text for an error report.
fn describe_step(state: &State) -> (r: String)
    ensures
        r@ == step_description(state@),
{
    match state {
        State::RefreshingSequence => String::from_str("fetching the sequence number"),
        State::FetchingResource { .. } => String::from_str("fetching the registry resource"),
        State::FetchingChainIdToRegister => String::from_str("fetching the chain id"),
        State::FetchingChainIdToWrite => String::from_str("fetching the chain id"),
        State::SubmittingRegistration => String::from_str("submitting the transaction"),
        State::SubmittingWrite => String::from_str("submitting the transaction"),
        State::AwaitingRegistration => String::from_str("waiting for finalization"),
        State::AwaitingWrite => String::from_str("waiting for finalization"),
        State::FetchingTableItem => String::from_str("resolving the name"),
        _ => String::from_str("running"),
    }
}

} // verus!
