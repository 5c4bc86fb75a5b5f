//! Linking with a server and connecting to it: which step follows which, what
//! is handed to each step, and what is stored at the end.
//!
//! A [`Session`] performs nothing itself. It is told what happened by a
//! [`SessionEvent`] and answers with the [`Action`] that comes next.

use vstd::prelude::*;

use crate::address;
use crate::chat;
use crate::chat::Capabilities;
use crate::config;
use crate::config::{ServerConfig, ServerEntry};
use crate::text;

verus! {

/// Said of a link code that is empty or blank.
pub const EMPTY_CODE: &'static str = "Link code cannot be empty";

/// Said when the client connects to a server that it is not linked with.
pub const NOT_LINKED: &'static str = "Server not linked. Use --link to link first.";

/// The word by which a failure is known to be about the certificate.
pub const CERTIFICATE: &'static str = "certificate";

/// What a session is for.
#[derive(Debug)]
pub enum Goal {
    /// To link this client with the account that the code stands for.
    Link { code: String },
    /// To connect as a client that was linked before.
    Connect,
}

/// The mathematical content of a [`Goal`].
pub enum GoalModel {
    Link { code: Seq<char> },
    Connect,
}

impl View for Goal {
    type V = GoalModel;

    open spec fn view(&self) -> GoalModel {
        match self {
            Goal::Link { code } => GoalModel::Link { code: code@ },
            Goal::Connect => GoalModel::Connect,
        }
    }
}

/// What the client shows the server in order to be let in.
#[derive(Debug)]
pub struct Login {
    /// The identity of a client that was linked before.
    pub client_uuid: Option<String>,
    pub link_code: String,
}

/// The mathematical content of a [`Login`].
pub struct LoginModel {
    pub client_uuid: Option<Seq<char>>,
    pub link_code: Seq<char>,
}

impl View for Login {
    type V = LoginModel;

    open spec fn view(&self) -> LoginModel {
        LoginModel { client_uuid: text::opt_text(self.client_uuid), link_code: self.link_code@ }
    }
}

/// The identities that the server gave out.
#[derive(Debug)]
pub struct Identity {
    pub client_uuid: String,
    pub minecraft_uuid: String,
}

/// The mathematical content of an [`Identity`].
pub struct IdentityModel {
    pub client_uuid: Seq<char>,
    pub minecraft_uuid: Seq<char>,
}

impl View for Identity {
    type V = IdentityModel;

    open spec fn view(&self) -> IdentityModel {
        IdentityModel { client_uuid: self.client_uuid@, minecraft_uuid: self.minecraft_uuid@ }
    }
}

/// Why a connection could not be opened.
#[derive(Debug)]
pub struct OpenFailure {
    /// The message of the failure, if it is one of configuration.
    pub config_message: Option<String>,
    /// The failure as it describes itself.
    pub description: String,
}

/// The mathematical content of an [`OpenFailure`].
pub struct OpenFailureModel {
    pub config_message: Option<Seq<char>>,
    pub description: Seq<char>,
}

impl View for OpenFailure {
    type V = OpenFailureModel;

    open spec fn view(&self) -> OpenFailureModel {
        OpenFailureModel {
            config_message: text::opt_text(self.config_message),
            description: self.description@,
        }
    }
}

/// What a session is told. `E` is an error with which an action can fail.
#[derive(Debug)]
pub enum SessionEvent<E> {
    /// The stored configuration was read.
    ConfigLoaded(ServerConfig),
    /// The connection is open.
    Opened,
    /// The connection could not be opened.
    OpenFailed(OpenFailure),
    /// The server let the client in.
    Authenticated(Identity),
    /// The server was told what the client supports.
    Announced,
    /// The server confirmed the client; this is the certificate that it showed.
    AuthOk { certificate: Option<String> },
    /// The configuration was written.
    ConfigSaved,
    /// The last action failed with this error.
    Failed(E),
}

/// The mathematical content of a [`SessionEvent`].
pub enum SessionEventModel<E> {
    ConfigLoaded(Seq<config::EntryModel>),
    Opened,
    OpenFailed(OpenFailureModel),
    Authenticated(IdentityModel),
    Announced,
    AuthOk { certificate: Option<Seq<char>> },
    ConfigSaved,
    Failed(E),
}

impl<E> View for SessionEvent<E> {
    type V = SessionEventModel<E>;

    open spec fn view(&self) -> SessionEventModel<E> {
        match self {
            SessionEvent::ConfigLoaded(stored) => SessionEventModel::ConfigLoaded(stored@),
            SessionEvent::Opened => SessionEventModel::Opened,
            SessionEvent::OpenFailed(failure) => SessionEventModel::OpenFailed(failure@),
            SessionEvent::Authenticated(identity) => SessionEventModel::Authenticated(identity@),
            SessionEvent::Announced => SessionEventModel::Announced,
            SessionEvent::AuthOk { certificate } => SessionEventModel::AuthOk {
                certificate: text::opt_text(*certificate),
            },
            SessionEvent::ConfigSaved => SessionEventModel::ConfigSaved,
            SessionEvent::Failed(error) => SessionEventModel::Failed(*error),
        }
    }
}

/// What a session asks for. `E` is an error with which an action can fail.
#[derive(Debug)]
pub enum Action<E> {
    /// Read the stored configuration.
    LoadConfig,
    /// Open a connection to the host at the address, and accept no other
    /// certificate than the pinned one, if there is one.
    Open { host: String, address: String, pinned_cert: Option<String> },
    /// Log in.
    Authenticate(Login),
    /// Tell the server what the client supports.
    Announce(Capabilities),
    /// Wait until the server confirms the client.
    AwaitAuthOk,
    /// Write the configuration.
    SaveConfig(ServerConfig),
    /// Start the conversation. This is the last action.
    StartRepl,
    /// Report success. This is the last action.
    Finish,
    /// Report this error. This is the last action.
    Fail(String),
    /// Report this error, with which an action failed. This is the last action.
    Abort(E),
}

/// The mathematical content of an [`Action`].
pub enum ActionModel<E> {
    LoadConfig,
    Open { host: Seq<char>, address: Seq<char>, pinned_cert: Option<Seq<char>> },
    Authenticate(LoginModel),
    Announce(chat::CapabilitiesModel),
    AwaitAuthOk,
    SaveConfig(Seq<config::EntryModel>),
    StartRepl,
    Finish,
    Fail(Seq<char>),
    Abort(E),
}

impl<E> View for Action<E> {
    type V = ActionModel<E>;

    open spec fn view(&self) -> ActionModel<E> {
        match self {
            Action::LoadConfig => ActionModel::LoadConfig,
            Action::Open { host, address, pinned_cert } => ActionModel::Open {
                host: host@,
                address: address@,
                pinned_cert: text::opt_text(*pinned_cert),
            },
            Action::Authenticate(login) => ActionModel::Authenticate(login@),
            Action::Announce(capabilities) => ActionModel::Announce(capabilities@),
            Action::AwaitAuthOk => ActionModel::AwaitAuthOk,
            Action::SaveConfig(stored) => ActionModel::SaveConfig(stored@),
            Action::StartRepl => ActionModel::StartRepl,
            Action::Finish => ActionModel::Finish,
            Action::Fail(message) => ActionModel::Fail(message@),
            Action::Abort(error) => ActionModel::Abort(*error),
        }
    }
}

/// The content of an optional action.
pub open spec fn opt_action<E>(a: Option<Action<E>>) -> Option<ActionModel<E>> {
    match a {
        Some(action) => Some(action@),
        None => None,
    }
}

/// How far a session has come, and what it needs to remember.
#[derive(Debug)]
enum Phase {
    Loading,
    Opening { stored: ServerConfig, login: Login },
    Authenticating { stored: ServerConfig },
    Announcing { stored: ServerConfig, identity: Identity },
    Confirming { stored: ServerConfig, identity: Identity },
    Reloading { entry: ServerEntry },
    Saving,
    Over,
}

/// How far a session has come, and what it remembers.
pub enum PhaseModel {
    /// It waits for the stored configuration.
    Loading,
    /// It waits for the connection.
    Opening { stored: Seq<config::EntryModel>, login: LoginModel },
    /// It waits to be let in.
    Authenticating { stored: Seq<config::EntryModel> },
    /// It waits until the server was told what the client supports.
    Announcing { stored: Seq<config::EntryModel>, identity: IdentityModel },
    /// It waits to be confirmed.
    Confirming { stored: Seq<config::EntryModel>, identity: IdentityModel },
    /// It is linked, and waits for the configuration that the entry goes into.
    Reloading { entry: config::EntryModel },
    /// It waits until the configuration is written.
    Saving,
    /// It waits for nothing.
    Over,
}

impl Phase {
    spec fn model(self) -> PhaseModel {
        match self {
            Phase::Loading => PhaseModel::Loading,
            Phase::Opening { stored, login } => PhaseModel::Opening {
                stored: stored@,
                login: login@,
            },
            Phase::Authenticating { stored } => PhaseModel::Authenticating { stored: stored@ },
            Phase::Announcing { stored, identity } => PhaseModel::Announcing {
                stored: stored@,
                identity: identity@,
            },
            Phase::Confirming { stored, identity } => PhaseModel::Confirming {
                stored: stored@,
                identity: identity@,
            },
            Phase::Reloading { entry } => PhaseModel::Reloading { entry: entry@ },
            Phase::Saving => PhaseModel::Saving,
            Phase::Over => PhaseModel::Over,
        }
    }
}

/// A link or a connection in progress.
#[derive(Debug)]
pub struct Session {
    goal: Goal,
    address: String,
    host: String,
    use_components: bool,
    phase: Phase,
}

/// The mathematical content of a [`Session`].
pub struct SessionModel {
    pub goal: GoalModel,
    pub address: Seq<char>,
    pub host: Seq<char>,
    pub use_components: bool,
    pub phase: PhaseModel,
}

impl View for Session {
    type V = SessionModel;

    closed spec fn view(&self) -> SessionModel {
        SessionModel {
            goal: self.goal@,
            address: self.address@,
            host: self.host@,
            use_components: self.use_components,
            phase: self.phase.model(),
        }
    }
}

/// What is reported of a connection that could not be opened: that the
/// certificate was not accepted, if the failure is one of configuration whose
/// message speaks of a certificate, and else only that opening failed.
pub open spec fn open_failure_text(failure: OpenFailureModel) -> Seq<char> {
    if failure.config_message is Some && text::occurs_in(CERTIFICATE@, failure.config_message->0) {
        "Certificate verification failed: "@ + failure.config_message->0
            + ". This may indicate a MITM attack or server certificate change."@
    } else {
        "TLS connection failed: "@ + failure.description
    }
}

/// A session that has just begun, provided that its address is accepted.
pub open spec fn begun(
    goal: GoalModel,
    address: Seq<char>,
    use_components: bool,
) -> Result<SessionModel, Seq<char>> {
    match address::host_of(address) {
        Ok(host) => Ok(
            SessionModel { goal, address, host, use_components, phase: PhaseModel::Loading },
        ),
        Err(message) => Err(message),
    }
}

/// How linking begins: a blank code is refused before the address is looked at.
pub open spec fn link_begun(
    address: Seq<char>,
    code: Seq<char>,
    use_components: bool,
) -> Result<SessionModel, Seq<char>> {
    if text::blank(code) {
        Err(EMPTY_CODE@)
    } else {
        begun(GoalModel::Link { code }, address, use_components)
    }
}

/// The login of a session: a client that links shows its code and no identity,
/// and one that connects shows the identity stored for the address and no code.
/// There is none for a server that the client should be linked with and is not.
pub open spec fn login_for(
    session: SessionModel,
    stored: Seq<config::EntryModel>,
) -> Option<LoginModel> {
    match session.goal {
        GoalModel::Link { code } => Some(LoginModel { client_uuid: None, link_code: code }),
        GoalModel::Connect => match config::entry_for(stored, session.address) {
            Some(entry) => Some(
                LoginModel { client_uuid: Some(entry.client_uuid), link_code: Seq::empty() },
            ),
            None => None,
        },
    }
}

/// The entry that linking stores.
pub open spec fn linked_entry(
    address: Seq<char>,
    identity: IdentityModel,
    certificate: Option<Seq<char>>,
) -> config::EntryModel {
    config::EntryModel {
        address,
        client_uuid: identity.client_uuid,
        minecraft_uuid: identity.minecraft_uuid,
        pinned_cert: certificate,
        supports_components: true,
    }
}

/// The session in another phase.
pub open spec fn at(session: SessionModel, phase: PhaseModel) -> SessionModel {
    SessionModel { phase, ..session }
}

/// What follows an event: the session as it then is, and what it asks for. An
/// event that the session does not wait for changes nothing and asks for
/// nothing.
pub open spec fn step<E>(session: SessionModel, event: SessionEventModel<E>) -> (
    SessionModel,
    Option<ActionModel<E>>,
) {
    let over = at(session, PhaseModel::Over);
    match (session.phase, event) {
        (PhaseModel::Over, _) => (session, None),
        (_, SessionEventModel::Failed(error)) => (over, Some(ActionModel::Abort(error))),
        (PhaseModel::Loading, SessionEventModel::ConfigLoaded(stored)) => match login_for(
            session,
            stored,
        ) {
            Some(login) => (
                at(session, PhaseModel::Opening { stored, login }),
                Some(
                    ActionModel::Open {
                        host: session.host,
                        address: session.address,
                        pinned_cert: config::pinned_for(stored, session.address),
                    },
                ),
            ),
            None => (over, Some(ActionModel::Fail(NOT_LINKED@))),
        },
        (PhaseModel::Opening { stored, login }, SessionEventModel::Opened) => (
            at(session, PhaseModel::Authenticating { stored }),
            Some(ActionModel::Authenticate(login)),
        ),
        (PhaseModel::Opening { .. }, SessionEventModel::OpenFailed(failure)) => (
            over,
            Some(ActionModel::Fail(open_failure_text(failure))),
        ),
        (
            PhaseModel::Authenticating { stored },
            SessionEventModel::Authenticated(identity),
        ) => (
            at(session, PhaseModel::Announcing { stored, identity }),
            Some(ActionModel::Announce(chat::announced(session.use_components))),
        ),
        (PhaseModel::Announcing { stored, identity }, SessionEventModel::Announced) => (
            at(session, PhaseModel::Confirming { stored, identity }),
            Some(ActionModel::AwaitAuthOk),
        ),
        (
            PhaseModel::Confirming { stored, identity },
            SessionEventModel::AuthOk { certificate },
        ) => match session.goal {
            GoalModel::Link { .. } => (
                at(
                    session,
                    PhaseModel::Reloading {
                        entry: linked_entry(session.address, identity, certificate),
                    },
                ),
                Some(ActionModel::LoadConfig),
            ),
            GoalModel::Connect => if config::position(stored, session.address) is Some {
                (
                    at(session, PhaseModel::Saving),
                    Some(ActionModel::SaveConfig(config::with_components(stored, session.address))),
                )
            } else {
                (over, Some(ActionModel::StartRepl))
            },
        },
        (PhaseModel::Reloading { entry }, SessionEventModel::ConfigLoaded(stored)) => (
            at(session, PhaseModel::Saving),
            Some(ActionModel::SaveConfig(config::linked(stored, entry))),
        ),
        (PhaseModel::Saving, SessionEventModel::ConfigSaved) => (
            over,
            match session.goal {
                GoalModel::Link { .. } => Some(ActionModel::Finish),
                GoalModel::Connect => Some(ActionModel::StartRepl),
            },
        ),
        _ => (session, None),
    }
}

/// The session after a row of events.
pub open spec fn after<E>(session: SessionModel, events: Seq<SessionEventModel<E>>) -> SessionModel
    decreases events.len(),
{
    if events.len() == 0 {
        session
    } else {
        step(after(session, events.drop_last()), events.last()).0
    }
}

/// What a session asks for in the course of a row of events, one answer for
/// each event.
pub open spec fn answers<E>(session: SessionModel, events: Seq<SessionEventModel<E>>) -> Seq<
    Option<ActionModel<E>>,
>
    decreases events.len(),
{
    if events.len() == 0 {
        Seq::empty()
    } else {
        answers(session, events.drop_last()).push(
            step(after(session, events.drop_last()), events.last()).1,
        )
    }
}

/// How many phases lie behind a session.
pub open spec fn progress(phase: PhaseModel) -> nat {
    match phase {
        PhaseModel::Loading => 0,
        PhaseModel::Opening { .. } => 1,
        PhaseModel::Authenticating { .. } => 2,
        PhaseModel::Announcing { .. } => 3,
        PhaseModel::Confirming { .. } => 4,
        PhaseModel::Reloading { .. } => 5,
        PhaseModel::Saving => 6,
        PhaseModel::Over => 7,
    }
}

/// Whether this is the last thing that a session asks for.
pub open spec fn is_final<E>(action: ActionModel<E>) -> bool {
    match action {
        ActionModel::StartRepl
        | ActionModel::Finish
        | ActionModel::Fail(_)
        | ActionModel::Abort(_) => true,
        _ => false,
    }
}

/// Every answer brings a session closer to its end, so no step is taken twice;
/// without an answer nothing changes. What the session is about never changes.
pub proof fn law_session_progresses<E>(session: SessionModel, event: SessionEventModel<E>)
    ensures
        ({
            let (next, answer) = step(session, event);
            &&& answer is Some ==> progress(next.phase) > progress(session.phase)
            &&& answer is None ==> next == session
            &&& next == at(session, next.phase)
        }),
{
}

/// A session is over exactly once it has asked for the last thing, and then
/// answers to nothing any more.
pub proof fn law_session_ends_once<E>(session: SessionModel, event: SessionEventModel<E>)
    ensures
        session.phase is Over ==> step(session, event) == (session, None::<ActionModel<E>>),
        session.phase !is Over ==> (step(session, event).0.phase is Over <==> (step(
            session,
            event,
        ).1 is Some && is_final(step(session, event).1->0))),
{
}

/// Any failure ends a session and is reported as it is.
pub proof fn law_failure_is_reported<E>(session: SessionModel, error: E)
    requires
        session.phase !is Over,
    ensures
        step(session, SessionEventModel::Failed(error)) == (
            at(session, PhaseModel::Over),
            Some(ActionModel::Abort(error)),
        ),
{
}

/// No error is reported but the one with which the last action failed.
pub proof fn law_only_failures_are_reported<E>(
    session: SessionModel,
    event: SessionEventModel<E>,
    error: E,
)
    requires
        step(session, event).1 == Some(ActionModel::Abort(error)),
    ensures
        event == SessionEventModel::Failed(error),
{
}

/// A blank code and an address that is not accepted are refused before
/// anything is loaded or opened.
pub proof fn law_bad_input_is_refused(address: Seq<char>, code: Seq<char>, use_components: bool)
    ensures
        text::blank(code) ==> link_begun(address, code, use_components) == Err::<
            SessionModel,
            Seq<char>,
        >(EMPTY_CODE@),
        link_begun(address, code, use_components) is Ok <==> !text::blank(code)
            && address::host_of(address) is Ok,
        begun(GoalModel::Connect, address, use_components) is Ok <==> address::host_of(
            address,
        ) is Ok,
{
}

/// A session can begin for every host and every port from 1 on, whatever the
/// host holds, and then opens its connection to that host.
pub proof fn law_every_host_and_port_is_accepted(
    goal: GoalModel,
    host: Seq<char>,
    port: u16,
    use_components: bool,
)
    requires
        port >= 1,
    ensures
        begun(goal, address::address_of(host, port), use_components) == Ok::<
            SessionModel,
            Seq<char>,
        >(
            SessionModel {
                goal,
                address: address::address_of(host, port),
                host,
                use_components,
                phase: PhaseModel::Loading,
            },
        ),
{
    address::law_address_gives_host_back(host, port);
}

/// A client that is not linked with a server does not open a connection to it.
pub proof fn law_unlinked_client_is_refused<E>(
    session: SessionModel,
    stored: Seq<config::EntryModel>,
)
    requires
        session.goal is Connect,
        session.phase is Loading,
        config::entry_for(stored, session.address) is None,
    ensures
        step(session, SessionEventModel::<E>::ConfigLoaded(stored)) == (
            at(session, PhaseModel::Over),
            Some(ActionModel::<E>::Fail(NOT_LINKED@)),
        ),
{
}

/// What the event after the first `n` adds to a course.
proof fn lemma_course_grows<E>(
    session: SessionModel,
    events: Seq<SessionEventModel<E>>,
    n: int,
)
    requires
        0 <= n < events.len(),
    ensures
        after(session, events.take(n + 1)) == step(after(session, events.take(n)), events[n]).0,
        answers(session, events.take(n + 1)) == answers(session, events.take(n)).push(
            step(after(session, events.take(n)), events[n]).1,
        ),
{
    assert(events.take(n + 1).drop_last() =~= events.take(n));
}

/// What a session is told in the course of linking, where nothing fails.
pub open spec fn link_events<E>(
    stored: Seq<config::EntryModel>,
    identity: IdentityModel,
    certificate: Option<Seq<char>>,
    stored_later: Seq<config::EntryModel>,
) -> Seq<SessionEventModel<E>> {
    seq![
        SessionEventModel::ConfigLoaded(stored),
        SessionEventModel::Opened,
        SessionEventModel::Authenticated(identity),
        SessionEventModel::Announced,
        SessionEventModel::AuthOk { certificate },
        SessionEventModel::ConfigLoaded(stored_later),
        SessionEventModel::ConfigSaved,
    ]
}

/// What a session is told in the course of connecting, where nothing fails.
pub open spec fn connect_events<E>(
    stored: Seq<config::EntryModel>,
    identity: IdentityModel,
    certificate: Option<Seq<char>>,
) -> Seq<SessionEventModel<E>> {
    seq![
        SessionEventModel::ConfigLoaded(stored),
        SessionEventModel::Opened,
        SessionEventModel::Authenticated(identity),
        SessionEventModel::Announced,
        SessionEventModel::AuthOk { certificate },
        SessionEventModel::ConfigSaved,
    ]
}

/// How linking goes where nothing fails: the client opens a connection with
/// the certificate that is pinned for the address, if there is one, shows the
/// code and no identity, announces its formats, waits to be confirmed, and
/// stores its new entry in the configuration as it then is.
pub proof fn law_link_course<E>(
    session: SessionModel,
    code: Seq<char>,
    stored: Seq<config::EntryModel>,
    identity: IdentityModel,
    certificate: Option<Seq<char>>,
    stored_later: Seq<config::EntryModel>,
)
    requires
        session.goal == (GoalModel::Link { code }),
        session.phase is Loading,
    ensures
        ({
            let events = link_events::<E>(stored, identity, certificate, stored_later);
            &&& after(session, events) == at(session, PhaseModel::Over)
            &&& answers(session, events) == seq![
                Some(
                    ActionModel::<E>::Open {
                        host: session.host,
                        address: session.address,
                        pinned_cert: config::pinned_for(stored, session.address),
                    },
                ),
                Some(
                    ActionModel::Authenticate(LoginModel { client_uuid: None, link_code: code }),
                ),
                Some(ActionModel::Announce(chat::announced(session.use_components))),
                Some(ActionModel::AwaitAuthOk),
                Some(ActionModel::LoadConfig),
                Some(
                    ActionModel::SaveConfig(
                        config::linked(
                            stored_later,
                            linked_entry(session.address, identity, certificate),
                        ),
                    ),
                ),
                Some(ActionModel::Finish),
            ]
        }),
{
    let events = link_events::<E>(stored, identity, certificate, stored_later);
    lemma_course_grows(session, events, 0);
    lemma_course_grows(session, events, 1);
    lemma_course_grows(session, events, 2);
    lemma_course_grows(session, events, 3);
    lemma_course_grows(session, events, 4);
    lemma_course_grows(session, events, 5);
    lemma_course_grows(session, events, 6);
    assert(events.take(7) =~= events);
}

/// How connecting goes where nothing fails: the client opens a connection with
/// the certificate that is pinned for the address, if there is one, shows the
/// identity that is stored for it and no code, announces its formats, waits to
/// be confirmed, notes that components are supported, and starts the
/// conversation.
pub proof fn law_connect_course<E>(
    session: SessionModel,
    stored: Seq<config::EntryModel>,
    entry: config::EntryModel,
    identity: IdentityModel,
    certificate: Option<Seq<char>>,
)
    requires
        session.goal is Connect,
        session.phase is Loading,
        config::entry_for(stored, session.address) == Some(entry),
    ensures
        ({
            let events = connect_events::<E>(stored, identity, certificate);
            &&& after(session, events) == at(session, PhaseModel::Over)
            &&& answers(session, events) == seq![
                Some(
                    ActionModel::<E>::Open {
                        host: session.host,
                        address: session.address,
                        pinned_cert: entry.pinned_cert,
                    },
                ),
                Some(
                    ActionModel::<E>::Authenticate(
                        LoginModel {
                            client_uuid: Some(entry.client_uuid),
                            link_code: Seq::empty(),
                        },
                    ),
                ),
                Some(ActionModel::Announce(chat::announced(session.use_components))),
                Some(ActionModel::AwaitAuthOk),
                Some(ActionModel::SaveConfig(config::with_components(stored, session.address))),
                Some(ActionModel::StartRepl),
            ]
        }),
{
    let events = connect_events::<E>(stored, identity, certificate);
    lemma_course_grows(session, events, 0);
    lemma_course_grows(session, events, 1);
    lemma_course_grows(session, events, 2);
    lemma_course_grows(session, events, 3);
    lemma_course_grows(session, events, 4);
    lemma_course_grows(session, events, 5);
    assert(events.take(6) =~= events);
}

/// What linking stores is what connecting uses: a client that connects with
/// the configuration that linking left accepts only the certificate that the
/// server showed then, if it showed one, and logs in with the identity that the
/// server gave out then.
pub proof fn law_connect_uses_what_link_stored<E>(
    session: SessionModel,
    stored: Seq<config::EntryModel>,
    identity: IdentityModel,
    certificate: Option<Seq<char>>,
)
    requires
        session.goal is Connect,
        session.phase is Loading,
    ensures
        ({
            let entry = linked_entry(session.address, identity, certificate);
            let loaded = SessionEventModel::<E>::ConfigLoaded(config::linked(stored, entry));
            let (opening, open) = step(session, loaded);
            let (_, login) = step(opening, SessionEventModel::<E>::Opened);
            &&& open == Some(
                ActionModel::<E>::Open {
                    host: session.host,
                    address: session.address,
                    pinned_cert: certificate,
                },
            )
            &&& login == Some(
                ActionModel::<E>::Authenticate(
                    LoginModel {
                        client_uuid: Some(identity.client_uuid),
                        link_code: Seq::empty(),
                    },
                ),
            )
        }),
{
    config::law_link_is_found(stored, linked_entry(session.address, identity, certificate));
}

/// Whether the server confirmed the client in the course of some events.
pub open spec fn confirmed<E>(events: Seq<SessionEventModel<E>>) -> bool {
    exists|i: int| 0 <= i < events.len() && (#[trigger] events[i]) is AuthOk
}

/// Whether the server let the client in in the course of some events.
pub open spec fn let_in<E>(events: Seq<SessionEventModel<E>>) -> bool {
    exists|i: int| 0 <= i < events.len() && (#[trigger] events[i]) is Authenticated
}

/// A longer row of events has seen what a shorter one has.
proof fn lemma_seen_stays<E>(events: Seq<SessionEventModel<E>>)
    requires
        events.len() > 0,
    ensures
        confirmed(events.drop_last()) ==> confirmed(events),
        let_in(events.drop_last()) ==> let_in(events),
        events.last() is AuthOk ==> confirmed(events),
        events.last() is Authenticated ==> let_in(events),
{
    let shorter = events.drop_last();
    if confirmed(shorter) {
        let i = choose|i: int| 0 <= i < shorter.len() && (#[trigger] shorter[i]) is AuthOk;
        assert(events[i] is AuthOk);
    }
    if let_in(shorter) {
        let i = choose|i: int|
            0 <= i < shorter.len() && (#[trigger] shorter[i]) is Authenticated;
        assert(events[i] is Authenticated);
    }
}

/// What the phases say about the events that led to them.
proof fn lemma_phase_tells_past<E>(session: SessionModel, events: Seq<SessionEventModel<E>>)
    requires
        session.phase is Loading,
    ensures
        ({
            let now = after(session, events);
            &&& now == at(session, now.phase)
            &&& (now.phase is Reloading || now.phase is Saving) ==> confirmed(events)
            &&& (now.phase is Announcing || now.phase is Confirming || now.phase is Reloading
                || now.phase is Saving) ==> let_in(events)
            &&& now.phase matches PhaseModel::Opening { stored, login } ==> login_for(
                session,
                stored,
            ) == Some(login)
        }),
    decreases events.len(),
{
    if events.len() > 0 {
        let shorter = events.drop_last();
        lemma_phase_tells_past(session, shorter);
        lemma_seen_stays(events);
        let before = after(session, shorter);
        law_session_progresses(before, events.last());
    }
}

/// Nothing is stored, no success is reported and no conversation starts before
/// the server let the client in and confirmed it.
pub proof fn law_only_confirmed_sessions_succeed<E>(
    session: SessionModel,
    events: Seq<SessionEventModel<E>>,
)
    requires
        session.phase is Loading,
        events.len() > 0,
    ensures
        answers(session, events).last() matches Some(action) ==> (action is SaveConfig
            || action is Finish || action is StartRepl) ==> confirmed(events) && let_in(events),
{
    lemma_phase_tells_past(session, events.drop_last());
    lemma_seen_stays(events);
}

/// A client that links never shows an identity, and one that connects never
/// shows a code.
pub proof fn law_login_fits_goal<E>(session: SessionModel, events: Seq<SessionEventModel<E>>)
    requires
        session.phase is Loading,
        events.len() > 0,
    ensures
        answers(session, events).last() matches Some(ActionModel::Authenticate(login))
            ==> match session.goal {
            GoalModel::Link { code } => login == (LoginModel {
                client_uuid: None,
                link_code: code,
            }),
            GoalModel::Connect => login.client_uuid is Some && login.link_code.len() == 0,
        },
{
    lemma_phase_tells_past(session, events.drop_last());
}

/// The content of a goal, a login, an identity and a failure is all that each
/// of them holds.
pub proof fn law_session_data_content(
    code: String,
    login: Login,
    identity: Identity,
    failure: OpenFailure,
)
    ensures
        (Goal::Link { code })@ == (GoalModel::Link { code: code@ }),
        Goal::Connect@ == GoalModel::Connect,
        match login.client_uuid {
            Some(client_uuid) => login@.client_uuid == Some(client_uuid@),
            None => login@.client_uuid is None,
        },
        login@.link_code == login.link_code@,
        identity@.client_uuid == identity.client_uuid@,
        identity@.minecraft_uuid == identity.minecraft_uuid@,
        match failure.config_message {
            Some(message) => failure@.config_message == Some(message@),
            None => failure@.config_message is None,
        },
        failure@.description == failure.description@,
{
}

/// The content of an event is what the session is told.
pub proof fn law_session_event_content<E>(
    stored: ServerConfig,
    failure: OpenFailure,
    identity: Identity,
    certificate: String,
    error: E,
)
    ensures
        SessionEvent::<E>::ConfigLoaded(stored)@ == SessionEventModel::<E>::ConfigLoaded(stored@),
        SessionEvent::<E>::Opened@ == SessionEventModel::<E>::Opened,
        SessionEvent::<E>::OpenFailed(failure)@ == SessionEventModel::<E>::OpenFailed(failure@),
        SessionEvent::<E>::Authenticated(identity)@ == SessionEventModel::<E>::Authenticated(
            identity@,
        ),
        SessionEvent::<E>::Announced@ == SessionEventModel::<E>::Announced,
        (SessionEvent::<E>::AuthOk { certificate: Some(certificate) })@ == (SessionEventModel::<
            E,
        >::AuthOk { certificate: Some(certificate@) }),
        (SessionEvent::<E>::AuthOk { certificate: None })@ == (SessionEventModel::<E>::AuthOk {
            certificate: None,
        }),
        SessionEvent::<E>::ConfigSaved@ == SessionEventModel::<E>::ConfigSaved,
        SessionEvent::<E>::Failed(error)@ == SessionEventModel::<E>::Failed(error),
{
}

/// The content of an action is what the session asks for.
pub proof fn law_action_content<E>(
    host: String,
    address: String,
    certificate: String,
    login: Login,
    capabilities: Capabilities,
    stored: ServerConfig,
    message: String,
    error: E,
)
    ensures
        Action::<E>::LoadConfig@ == ActionModel::<E>::LoadConfig,
        (Action::<E>::Open { host, address, pinned_cert: Some(certificate) })@ == (ActionModel::<
            E,
        >::Open { host: host@, address: address@, pinned_cert: Some(certificate@) }),
        (Action::<E>::Open { host, address, pinned_cert: None })@ == (ActionModel::<E>::Open {
            host: host@,
            address: address@,
            pinned_cert: None,
        }),
        Action::<E>::Authenticate(login)@ == ActionModel::<E>::Authenticate(login@),
        Action::<E>::Announce(capabilities)@ == ActionModel::<E>::Announce(capabilities@),
        Action::<E>::AwaitAuthOk@ == ActionModel::<E>::AwaitAuthOk,
        Action::<E>::SaveConfig(stored)@ == ActionModel::<E>::SaveConfig(stored@),
        Action::<E>::StartRepl@ == ActionModel::<E>::StartRepl,
        Action::<E>::Finish@ == ActionModel::<E>::Finish,
        Action::<E>::Fail(message)@ == ActionModel::<E>::Fail(message@),
        Action::<E>::Abort(error)@ == ActionModel::<E>::Abort(error),
{
}

/// An optional action asks for something exactly if there is an action, and
/// then for what that action asks for.
pub proof fn law_optional_action<E>(action: Action<E>)
    ensures
        opt_action(Some(action)) == Some(action@),
        opt_action::<E>(None) is None,
{
}

/// A failure of configuration whose message speaks of a certificate anywhere is
/// reported as one of the certificate, with the whole message.
pub proof fn law_certificate_failure_is_told(
    front: Seq<char>,
    back: Seq<char>,
    description: Seq<char>,
)
    ensures
        ({
            let message = front + "certificate"@ + back;
            open_failure_text(OpenFailureModel { config_message: Some(message), description })
                == "Certificate verification failed: "@ + message
                + ". This may indicate a MITM attack or server certificate change."@
        }),
{
    let message = front + "certificate"@ + back;
    text::law_occurrence_splits_text("certificate"@, message);
}

/// Any other failure is reported as it describes itself, in full: one that is
/// not of configuration, and one whose message does not speak of a certificate.
pub proof fn law_other_failures_describe_themselves(failure: OpenFailureModel)
    requires
        failure.config_message matches Some(message) ==> forall|front: Seq<char>, back: Seq<char>|
            message != #[trigger] (front + "certificate"@ + back),
    ensures
        open_failure_text(failure) == "TLS connection failed: "@ + failure.description,
{
    if let Some(message) = failure.config_message {
        text::law_occurrence_splits_text("certificate"@, message);
    }
}

/// A session begins with what was asked for, and knows the host of its address.
/// Where the address is not accepted, it is refused for the reason for which
/// the address is.
pub proof fn law_session_begins_as_asked(
    goal: GoalModel,
    address: Seq<char>,
    use_components: bool,
)
    ensures
        match address::host_of(address) {
            Ok(host) => {
                &&& begun(goal, address, use_components) is Ok
                &&& begun(goal, address, use_components)->Ok_0.goal == goal
                &&& begun(goal, address, use_components)->Ok_0.address == address
                &&& begun(goal, address, use_components)->Ok_0.host == host
                &&& begun(goal, address, use_components)->Ok_0.use_components == use_components
                &&& begun(goal, address, use_components)->Ok_0.phase is Loading
            },
            Err(message) => begun(goal, address, use_components) == Err::<SessionModel, Seq<char>>(
                message,
            ),
        },
{
}

/// Linking begins as any session does, with the code as it was given, unless
/// the code is blank: that is refused whatever the address is.
pub proof fn law_link_begins_with_code(address: Seq<char>, code: Seq<char>, use_components: bool)
    ensures
        text::blank(code) ==> link_begun(address, code, use_components) == Err::<
            SessionModel,
            Seq<char>,
        >("Link code cannot be empty"@),
        !text::blank(code) ==> link_begun(address, code, use_components) == begun(
            GoalModel::Link { code },
            address,
            use_components,
        ),
{
}

/// Whatever happens, a session keeps its goal, its address, its host and the
/// format that was chosen.
pub proof fn law_session_keeps_its_terms<E>(session: SessionModel, event: SessionEventModel<E>)
    ensures
        step(session, event).0.goal == session.goal,
        step(session, event).0.address == session.address,
        step(session, event).0.host == session.host,
        step(session, event).0.use_components == session.use_components,
{
}

/// A session that is told of a failure is over, whatever it waited for, and
/// reports exactly that error.
pub proof fn law_failure_ends_session<E>(session: SessionModel, error: E)
    requires
        session.phase !is Over,
    ensures
        step(session, SessionEventModel::Failed(error)).0.phase is Over,
        step(session, SessionEventModel::Failed(error)).1 == Some(ActionModel::Abort(error)),
{
}

/// A session is over exactly once it has started a conversation, finished or
/// reported an error, and it does none of these without being over.
pub proof fn law_last_actions<E>(session: SessionModel, event: SessionEventModel<E>)
    requires
        session.phase !is Over,
    ensures
        step(session, event).0.phase is Over <==> (step(session, event).1 matches Some(action) && (
        action is StartRepl || action is Finish || action is Fail || action is Abort)),
{
}

/// In another phase a session is otherwise the same.
pub proof fn law_only_phase_differs(session: SessionModel, phase: PhaseModel)
    ensures
        at(session, phase).phase == phase,
        at(session, phase).goal == session.goal,
        at(session, phase).address == session.address,
        at(session, phase).host == session.host,
        at(session, phase).use_components == session.use_components,
{
}

/// An event other than the one that a session waits for changes nothing and is
/// not answered.
pub proof fn law_unexpected_events_change_nothing<E>(
    session: SessionModel,
    event: SessionEventModel<E>,
)
    requires
        match session.phase {
            PhaseModel::Loading | PhaseModel::Reloading { .. } => event !is ConfigLoaded,
            PhaseModel::Opening { .. } => event !is Opened && event !is OpenFailed,
            PhaseModel::Authenticating { .. } => event !is Authenticated,
            PhaseModel::Announcing { .. } => event !is Announced,
            PhaseModel::Confirming { .. } => event !is AuthOk,
            PhaseModel::Saving => event !is ConfigSaved,
            PhaseModel::Over => true,
        },
        event is Failed ==> session.phase is Over,
    ensures
        step(session, event).0 == session,
        step(session, event).1 is None,
{
}

/// A connection is opened exactly once the configuration was read: to the host
/// and address of the session, with the certificate that is pinned for this
/// address, and by a client that connects only if there is an entry for it.
pub proof fn law_connection_is_opened_as_stored<E>(
    session: SessionModel,
    stored: Seq<config::EntryModel>,
)
    requires
        session.phase is Loading,
        session.goal is Link || exists|i: int|
            0 <= i < stored.len() && (#[trigger] stored[i]).address == session.address,
    ensures
        ({
            let (next, answer) = step(session, SessionEventModel::<E>::ConfigLoaded(stored));
            &&& answer == Some(
                ActionModel::<E>::Open {
                    host: session.host,
                    address: session.address,
                    pinned_cert: config::pinned_for(stored, session.address),
                },
            )
            &&& next.phase is Opening
            &&& next.phase->Opening_stored == stored
        }),
{
    config::law_position_is_first(stored, session.address);
}

/// A client that links goes without a pinned certificate where none is stored
/// for the address, whatever is stored for others.
pub proof fn law_new_server_has_no_pinned_certificate<E>(
    session: SessionModel,
    stored: Seq<config::EntryModel>,
)
    requires
        session.phase is Loading,
        session.goal is Link,
        forall|i: int|
            0 <= i < stored.len() ==> (#[trigger] stored[i]).address != session.address,
    ensures
        step(session, SessionEventModel::<E>::ConfigLoaded(stored)).1 == Some(
            ActionModel::<E>::Open {
                host: session.host,
                address: session.address,
                pinned_cert: None,
            },
        ),
{
    config::law_position_is_first(stored, session.address);
}

/// A client that connects is refused where no entry has the address, whatever
/// is stored for others.
pub proof fn law_unknown_server_is_refused<E>(
    session: SessionModel,
    stored: Seq<config::EntryModel>,
)
    requires
        session.phase is Loading,
        session.goal is Connect,
        forall|i: int|
            0 <= i < stored.len() ==> (#[trigger] stored[i]).address != session.address,
    ensures
        ({
            let (next, answer) = step(session, SessionEventModel::<E>::ConfigLoaded(stored));
            &&& answer == Some(
                ActionModel::<E>::Fail("Server not linked. Use --link to link first."@),
            )
            &&& next.phase is Over
        }),
{
    config::law_position_is_first(stored, session.address);
}

/// A client that links shows its code, unaltered, and no identity. One that
/// connects shows no code, and the identity of the first entry for its address.
pub proof fn law_login_is_that_of_goal<E>(
    session: SessionModel,
    stored: Seq<config::EntryModel>,
    first: int,
)
    requires
        session.phase is Loading,
        session.goal is Connect ==> {
            &&& 0 <= first < stored.len()
            &&& stored[first].address == session.address
            &&& forall|j: int|
                0 <= j < first ==> (#[trigger] stored[j]).address != session.address
        },
    ensures
        ({
            let opening = step(session, SessionEventModel::<E>::ConfigLoaded(stored)).0;
            let (next, answer) = step(opening, SessionEventModel::<E>::Opened);
            let login = answer->0->Authenticate_0;
            &&& answer is Some
            &&& answer->0 is Authenticate
            &&& session.goal matches GoalModel::Link { code } ==> {
                &&& login.client_uuid is None
                &&& login.link_code == code
            }
            &&& session.goal is Connect ==> {
                &&& login.client_uuid == Some(stored[first].client_uuid)
                &&& login.link_code.len() == 0
            }
            &&& next.phase == (PhaseModel::Authenticating { stored })
        }),
{
    if session.goal is Connect {
        config::law_first_entry_is_found(stored, session.address, stored[first]);
    }
}

/// A session asks to log in exactly when it waits for its connection and is
/// told that it is open, and then with the login that it has ready.
pub proof fn law_login_follows_open_connection<E>(
    session: SessionModel,
    event: SessionEventModel<E>,
    login: LoginModel,
)
    ensures
        step(session, event).1 == Some(ActionModel::<E>::Authenticate(login)) <==> {
            &&& event is Opened
            &&& session.phase is Opening
            &&& session.phase->login == login
        },
        (event is Opened && session.phase is Opening) ==> step(session, event).0.phase == (
        PhaseModel::Authenticating { stored: session.phase->Opening_stored }),
{
}

/// A session that waits for its connection and is told that it could not be
/// opened is over and reports that failure, whatever the session is for.
pub proof fn law_open_failure_ends_session<E>(session: SessionModel, failure: OpenFailureModel)
    requires
        session.phase is Opening,
    ensures
        step(session, SessionEventModel::<E>::OpenFailed(failure)).1 == Some(
            ActionModel::<E>::Fail(open_failure_text(failure)),
        ),
        step(session, SessionEventModel::<E>::OpenFailed(failure)).0.phase is Over,
{
}

/// The only things that a session itself finds wrong are a connection that
/// could not be opened and a server that the client is not linked with.
pub proof fn law_what_a_session_finds_wrong<E>(
    session: SessionModel,
    event: SessionEventModel<E>,
)
    requires
        step(session, event).1 is Some,
        step(session, event).1->0 is Fail,
    ensures
        (event is OpenFailed && session.phase is Opening) || (event is ConfigLoaded
            && session.phase is Loading && session.goal is Connect),
{
}

/// Formats are announced exactly when the server let the client in, and the
/// preferred one is that which was chosen. The identities that the server gave
/// out are kept.
pub proof fn law_formats_are_announced_once_let_in<E>(
    session: SessionModel,
    event: SessionEventModel<E>,
)
    ensures
        (step(session, event).1 is Some && step(session, event).1->0 is Announce) <==> event
            is Authenticated && session.phase is Authenticating,
        (event is Authenticated && session.phase is Authenticating) ==> {
            let (next, answer) = step(session, event);
            &&& answer == Some(
                ActionModel::<E>::Announce(chat::announced(session.use_components)),
            )
            &&& next.phase == (PhaseModel::Announcing {
                stored: session.phase->Authenticating_stored,
                identity: event->Authenticated_0,
            })
        },
{
}

/// Confirmation is awaited exactly when the formats were announced, and nothing
/// that the session remembers is lost.
pub proof fn law_confirmation_is_awaited_once_announced<E>(
    session: SessionModel,
    event: SessionEventModel<E>,
)
    ensures
        (step(session, event).1 is Some && step(session, event).1->0 is AwaitAuthOk) <==> event
            is Announced && session.phase is Announcing,
        (event is Announced && session.phase is Announcing) ==> step(session, event).0.phase == (
        PhaseModel::Confirming {
            stored: session.phase->Announcing_stored,
            identity: session.phase->Announcing_identity,
        }),
{
}

/// Once confirmed, a client that links asks for the configuration again and
/// has an entry ready: for its address, with the identities that the server
/// gave out and the certificate that it showed, and with components supported.
pub proof fn law_linked_client_has_its_entry_ready<E>(
    session: SessionModel,
    identity: IdentityModel,
    stored: Seq<config::EntryModel>,
    certificate: Option<Seq<char>>,
)
    requires
        session.goal is Link,
        session.phase == (PhaseModel::Confirming { stored, identity }),
    ensures
        ({
            let (next, answer) = step(session, SessionEventModel::<E>::AuthOk { certificate });
            let entry = next.phase->entry;
            &&& answer == Some(ActionModel::<E>::LoadConfig)
            &&& next.phase is Reloading
            &&& entry.address == session.address
            &&& entry.client_uuid == identity.client_uuid
            &&& entry.minecraft_uuid == identity.minecraft_uuid
            &&& entry.pinned_cert == certificate
            &&& entry.supports_components
            &&& linked_entry(session.address, identity, certificate) == entry
        }),
{
}

/// A client that links stores the entry that it has ready in the configuration
/// as it is read then.
pub proof fn law_ready_entry_is_stored<E>(
    session: SessionModel,
    entry: config::EntryModel,
    stored: Seq<config::EntryModel>,
)
    requires
        session.phase == (PhaseModel::Reloading { entry }),
    ensures
        ({
            let (next, answer) = step(session, SessionEventModel::<E>::ConfigLoaded(stored));
            &&& answer == Some(ActionModel::<E>::SaveConfig(config::linked(stored, entry)))
            &&& next.phase is Saving
        }),
{
}

/// Once confirmed, a client that connects has the configuration that it read
/// written back, and nothing in it changed but that the first entry for its
/// address says that components are supported. Without such an entry nothing is
/// written and the conversation starts. The certificate that the server shows
/// and the identities that it gives out are not stored.
pub proof fn law_connected_client_notes_components<E>(
    session: SessionModel,
    identity: IdentityModel,
    stored: Seq<config::EntryModel>,
    certificate: Option<Seq<char>>,
)
    requires
        session.goal is Connect,
        session.phase == (PhaseModel::Confirming { stored, identity }),
    ensures
        ({
            let (next, answer) = step(session, SessionEventModel::<E>::AuthOk { certificate });
            if exists|i: int|
                0 <= i < stored.len() && (#[trigger] stored[i]).address == session.address {
                let saved = answer->0->SaveConfig_0;
                &&& answer is Some
                &&& answer->0 is SaveConfig
                &&& next.phase is Saving
                &&& saved == config::with_components(stored, session.address)
                &&& saved.len() == stored.len()
                &&& forall|i: int|
                    0 <= i < stored.len() ==> {
                        &&& (#[trigger] saved[i]).address == stored[i].address
                        &&& saved[i].client_uuid == stored[i].client_uuid
                        &&& saved[i].minecraft_uuid == stored[i].minecraft_uuid
                        &&& saved[i].pinned_cert == stored[i].pinned_cert
                    }
            } else {
                &&& answer == Some(ActionModel::<E>::StartRepl)
                &&& next.phase is Over
            }
        }),
{
    config::law_position_is_first(stored, session.address);
    config::law_components_keep_entries(stored, session.address);
}

/// Once the configuration is written, a client that links is done and one that
/// connects starts the conversation.
pub proof fn law_written_configuration_ends_session<E>(session: SessionModel)
    requires
        session.phase is Saving,
    ensures
        ({
            let (next, answer) = step(session, SessionEventModel::<E>::ConfigSaved);
            &&& session.goal is Link ==> answer == Some(ActionModel::<E>::Finish)
            &&& session.goal is Connect ==> answer == Some(ActionModel::<E>::StartRepl)
            &&& next.phase is Over
        }),
{
}

/// A session that links never starts a conversation, and one that connects
/// never links: it neither finishes without one nor reads the configuration
/// again.
pub proof fn law_goals_are_not_mixed_up<E>(session: SessionModel, event: SessionEventModel<E>)
    ensures
        session.goal is Link ==> (step(session, event).1 matches Some(action) ==> action
            !is StartRepl),
        session.goal is Connect ==> (step(session, event).1 matches Some(action) ==> action
            !is Finish && action !is LoadConfig),
{
}

/// What is reported of a connection that could not be opened.
pub fn open_failure_message(failure: &OpenFailure) -> (s: String)
    ensures
        s@ == open_failure_text(failure@),
{
    match &failure.config_message {
        Some(message) => {
            if text::contains_text(message.as_str(), CERTIFICATE) {
                return "Certificate verification failed: ".to_string().concat(
                    message.as_str(),
                ).concat(". This may indicate a MITM attack or server certificate change.");
            }
        },
        None => {},
    }
    "TLS connection failed: ".to_string().concat(failure.description.as_str())
}

impl Session {
    /// Begins a session whose address is accepted.
    fn begin(goal: Goal, address: &str, use_components: bool) -> (r: Result<Session, String>)
        ensures
            match r {
                Ok(session) => begun(goal@, address@, use_components) == Ok::<
                    SessionModel,
                    Seq<char>,
                >(session@),
                Err(message) => begun(goal@, address@, use_components) == Err::<
                    SessionModel,
                    Seq<char>,
                >(message@),
            },
    {
        match address::parse_server_addr(address) {
            Ok(host) => Ok(
                Session {
                    goal,
                    address: address.to_string(),
                    host: host.to_string(),
                    use_components,
                    phase: Phase::Loading,
                },
            ),
            Err(message) => Err(message),
        }
    }

    /// Begins to link with a server, and returns the first action.
    pub fn start_link<E>(address: &str, code: &str, use_components: bool) -> (r: Result<
        (Session, Action<E>),
        String,
    >)
        ensures
            match r {
                Ok((session, first)) => {
                    &&& link_begun(address@, code@, use_components) == Ok::<
                        SessionModel,
                        Seq<char>,
                    >(session@)
                    &&& first@ == ActionModel::<E>::LoadConfig
                },
                Err(message) => link_begun(address@, code@, use_components) == Err::<
                    SessionModel,
                    Seq<char>,
                >(message@),
            },
    {
        if text::is_blank(code) {
            return Err(EMPTY_CODE.to_string());
        }
        match Session::begin(Goal::Link { code: code.to_string() }, address, use_components) {
            Ok(session) => Ok((session, Action::LoadConfig)),
            Err(message) => Err(message),
        }
    }

    /// Begins to connect to a server, and returns the first action.
    pub fn start_connect<E>(address: &str, use_components: bool) -> (r: Result<
        (Session, Action<E>),
        String,
    >)
        ensures
            match r {
                Ok((session, first)) => {
                    &&& begun(GoalModel::Connect, address@, use_components) == Ok::<
                        SessionModel,
                        Seq<char>,
                    >(session@)
                    &&& first@ == ActionModel::<E>::LoadConfig
                },
                Err(message) => begun(GoalModel::Connect, address@, use_components) == Err::<
                    SessionModel,
                    Seq<char>,
                >(message@),
            },
    {
        match Session::begin(Goal::Connect, address, use_components) {
            Ok(session) => Ok((session, Action::LoadConfig)),
            Err(message) => Err(message),
        }
    }

    /// The login of this session, given the stored configuration.
    fn login(&self, stored: &ServerConfig) -> (r: Option<Login>)
        ensures
            match r {
                Some(login) => login_for(self@, stored@) == Some(login@),
                None => login_for(self@, stored@) is None,
            },
    {
        match &self.goal {
            Goal::Link { code } => Some(Login { client_uuid: None, link_code: code.clone() }),
            Goal::Connect => match stored.find(self.address.as_str()) {
                Some(entry) => {
                    let login = Login {
                        client_uuid: Some(entry.client_uuid.clone()),
                        link_code: String::new(),
                    };
                    Some(login)
                },
                None => None,
            },
        }
    }

    /// Tells the session what happened, and returns what comes next.
    pub fn advance<E>(&mut self, event: SessionEvent<E>) -> (action: Option<Action<E>>)
        ensures
            (final(self)@, opt_action(action)) == step(old(self)@, event@),
    {
        let mut phase = Phase::Over;
        core::mem::swap(&mut phase, &mut self.phase);
        match (phase, event) {
            (Phase::Over, _) => None,
            (_, SessionEvent::Failed(error)) => Some(Action::Abort(error)),
            (Phase::Loading, SessionEvent::ConfigLoaded(stored)) => match self.login(&stored) {
                Some(login) => {
                    let pinned_cert = stored.pinned_cert(self.address.as_str());
                    self.phase = Phase::Opening { stored, login };
                    Some(
                        Action::Open {
                            host: self.host.clone(),
                            address: self.address.clone(),
                            pinned_cert,
                        },
                    )
                },
                None => Some(Action::Fail(NOT_LINKED.to_string())),
            },
            (Phase::Opening { stored, login }, SessionEvent::Opened) => {
                self.phase = Phase::Authenticating { stored };
                Some(Action::Authenticate(login))
            },
            (Phase::Opening { .. }, SessionEvent::OpenFailed(failure)) => Some(
                Action::Fail(open_failure_message(&failure)),
            ),
            (Phase::Authenticating { stored }, SessionEvent::Authenticated(identity)) => {
                self.phase = Phase::Announcing { stored, identity };
                Some(Action::Announce(chat::capabilities(self.use_components)))
            },
            (Phase::Announcing { stored, identity }, SessionEvent::Announced) => {
                self.phase = Phase::Confirming { stored, identity };
                Some(Action::AwaitAuthOk)
            },
            (
                Phase::Confirming { stored, identity },
                SessionEvent::AuthOk { certificate },
            ) => match &self.goal {
                Goal::Link { .. } => {
                    let entry = ServerEntry {
                        address: self.address.clone(),
                        client_uuid: identity.client_uuid,
                        minecraft_uuid: identity.minecraft_uuid,
                        pinned_cert: certificate,
                        supports_components: true,
                    };
                    self.phase = Phase::Reloading { entry };
                    Some(Action::LoadConfig)
                },
                Goal::Connect => {
                    let mut updated = stored;
                    if updated.note_components(self.address.as_str()) {
                        self.phase = Phase::Saving;
                        Some(Action::SaveConfig(updated))
                    } else {
                        Some(Action::StartRepl)
                    }
                },
            },
            (Phase::Reloading { entry }, SessionEvent::ConfigLoaded(stored)) => {
                let mut updated = stored;
                updated.record_link(entry);
                self.phase = Phase::Saving;
                Some(Action::SaveConfig(updated))
            },
            (Phase::Saving, SessionEvent::ConfigSaved) => match &self.goal {
                Goal::Link { .. } => Some(Action::Finish),
                Goal::Connect => Some(Action::StartRepl),
            },
            (waiting, _) => {
                self.phase = waiting;
                None
            },
        }
    }
}

} // verus!
