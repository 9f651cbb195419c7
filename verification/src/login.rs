//! The decisions of the backend's start: whether the user is already logged
//! in, and, while not, what each login request and each answer of the
//! server's login endpoint lead to.

use vstd::prelude::*;
use crate::datatypes::{ClientMessage, ClientPayload, FrontEndPayload, FrontendReponse, ServerMessage, ServerPayload};

verus! {

/// What the backend does once the database is open.
#[derive(Debug, PartialEq, Eq, Structural)]
pub enum StartupAction {
    /// Tell the frontend the user is logged in, then connect to the server.
    AnnounceLoggedIn,
    /// Wait for login requests from the frontend.
    AwaitLogin,
}

/// A stored refresh token means the user is logged in.
pub fn on_startup(refresh_token: Option<[u8; 32]>) -> (action: StartupAction)
    ensures
        refresh_token is Some ==> action == StartupAction::AnnounceLoggedIn,
        refresh_token is None ==> action == StartupAction::AwaitLogin,
{
    match refresh_token {
        Some(_) => StartupAction::AnnounceLoggedIn,
        None => StartupAction::AwaitLogin,
    }
}

/// What a request of the frontend leads to while the user is logged out.
pub enum LoginRequestAction {
    /// Post `message` to the login endpoint, on behalf of the user `name`.
    SendLogin { name: String, message: ClientMessage },
    /// Drop the request.
    Ignore,
}

/// A login request is posted to the server as a login message with id 0 and
/// no access token; every other request is dropped.
pub fn on_login_request(payload: FrontEndPayload) -> (action: LoginRequestAction)
    ensures
        payload matches FrontEndPayload::Login { name, password } ==> {
            &&& action matches LoginRequestAction::SendLogin { name: n, message }
            &&& n == name
            &&& message.id == 0
            &&& message.access_token is None
            &&& message.payload is Login
            &&& message.payload->Login_name@ == name@
            &&& message.payload->Login_password == password
        },
        !(payload is Login) ==> action is Ignore,
{
    match payload {
        FrontEndPayload::Login { name, password } => {
            let message = ClientMessage {
                id: 0,
                access_token: None,
                payload: ClientPayload::Login { name: name.clone(), password },
            };
            LoginRequestAction::SendLogin { name, message }
        },
        _ => LoginRequestAction::Ignore,
    }
}

/// What an answer of the login endpoint leads to.
pub struct LoginOutcome {
    /// A refresh token to store.
    pub save_refresh: Option<[u8; 32]>,
    /// An access token to store, after the refresh token.
    pub save_access: Option<[u8; 32]>,
    /// The answer for the frontend's request, if it gets one.
    pub response: Option<FrontendReponse>,
    /// Whether the user is now logged in: stop waiting and connect.
    pub logged_in: bool,
}

/// Whether the login endpoint's `reply` confirms a successful login.
pub open spec fn login_confirmed(reply: Option<ServerMessage>) -> bool {
    reply matches Some(ServerMessage { payload: ServerPayload::ConfirmLogin { success, .. }, .. })
        && success
}

/// `outcome` is what the answer `reply` to the login of `name` leads to: a
/// confirmed login stores the tokens it carries, confirms the login to the
/// frontend and logs in; a refused one is reported to the frontend; anything
/// else, or no answer, is dropped.
pub open spec fn answers_login(name: String, reply: Option<ServerMessage>, outcome: LoginOutcome) -> bool {
    &&& reply matches Some(ServerMessage {
        payload: ServerPayload::ConfirmLogin { success, refresh_token, access_token },
        ..
    }) ==> {
        &&& success ==> outcome.save_refresh == refresh_token
        &&& success ==> outcome.save_access == access_token
        &&& !success ==> outcome.save_refresh is None && outcome.save_access is None
        &&& outcome.response == Some(FrontendReponse::ConfirmLogin { success, name })
        &&& outcome.logged_in == success
    }
    &&& !(reply matches Some(ServerMessage { payload: ServerPayload::ConfirmLogin { .. }, .. }))
        ==> {
        &&& outcome.save_refresh is None
        &&& outcome.save_access is None
        &&& outcome.response is None
        &&& !outcome.logged_in
    }
}

/// The answer to the login of `name`, or `None` when the request failed or
/// its answer could not be read or decoded. A confirmed login stores the
/// tokens it carries, confirms the login to the frontend and connects; a
/// refused one is reported to the frontend; anything else is dropped.
pub fn on_login_reply(name: String, reply: Option<ServerMessage>) -> (outcome: LoginOutcome)
    ensures
        answers_login(name, reply, outcome),
{
    match reply {
        Some(ServerMessage {
            payload: ServerPayload::ConfirmLogin { success, refresh_token, access_token },
            ..
        }) => {
            if success {
                LoginOutcome {
                    save_refresh: refresh_token,
                    save_access: access_token,
                    response: Some(FrontendReponse::ConfirmLogin { success, name }),
                    logged_in: true,
                }
            } else {
                LoginOutcome {
                    save_refresh: None,
                    save_access: None,
                    response: Some(FrontendReponse::ConfirmLogin { success, name }),
                    logged_in: false,
                }
            }
        },
        _ => LoginOutcome { save_refresh: None, save_access: None, response: None, logged_in: false },
    }
}

/// Where the backend's start stands.
#[derive(Debug, PartialEq, Eq, Structural)]
pub enum LoginPhase {
    /// The database is not open yet.
    Starting,
    /// No user is logged in: login requests are awaited.
    LoggedOut,
    /// The backend has connected to the server.
    Connected,
}

/// What happens to the backend's start.
pub enum LoginEvent {
    /// The database was opened, holding this refresh token, if any.
    Opened(Option<[u8; 32]>),
    /// The login endpoint answered the login of `name` (`None`: no answer
    /// could be read).
    Answered { name: String, reply: Option<ServerMessage> },
}

/// Whether `event` makes the backend connect, in `phase`: a stored refresh
/// token at the start, or a confirmed login while logged out.
pub open spec fn connects_on(phase: LoginPhase, event: LoginEvent) -> bool {
    match event {
        LoginEvent::Opened(token) => phase == LoginPhase::Starting && token is Some,
        LoginEvent::Answered { reply, .. } => phase == LoginPhase::LoggedOut && login_confirmed(reply),
    }
}

/// The phase after `event`, from `phase`. An event out of its phase
/// changes nothing.
pub open spec fn next_phase(phase: LoginPhase, event: LoginEvent) -> LoginPhase {
    if connects_on(phase, event) {
        LoginPhase::Connected
    } else if phase == LoginPhase::Starting && event is Opened {
        LoginPhase::LoggedOut
    } else {
        phase
    }
}

/// The phase after `events`, from the start.
pub open spec fn phase_after(events: Seq<LoginEvent>) -> LoginPhase
    decreases events.len(),
{
    if events.len() == 0 {
        LoginPhase::Starting
    } else {
        next_phase(phase_after(events.drop_last()), events.last())
    }
}

/// How many times `events`, from the start, make the backend connect.
pub open spec fn connections(events: Seq<LoginEvent>) -> nat
    decreases events.len(),
{
    if events.len() == 0 {
        0
    } else {
        connections(events.drop_last()) + if connects_on(phase_after(events.drop_last()), events.last()) {
            1nat
        } else {
            0nat
        }
    }
}

/// What the backend does on an event of its start.
pub enum LoginStep {
    /// Tell the frontend the user is logged in, then connect to the server.
    AnnounceAndConnect,
    /// Wait for login requests from the frontend.
    AwaitLogin,
    /// Act on the answer of the login endpoint; connect when it logs in.
    Reply(LoginOutcome),
    /// The event does not belong to the current phase: do nothing.
    Ignore,
}

/// Whether the backend connects to the server on `step`.
pub open spec fn step_connects(step: LoginStep) -> bool {
    step is AnnounceAndConnect || (step matches LoginStep::Reply(o) && o.logged_in)
}

/// The backend's start: opening the database, then logging in until the
/// backend connects.
pub struct LoginFlow {
    pub phase: LoginPhase,
}

impl LoginFlow {
    /// A start before the database is open.
    pub fn new() -> (flow: LoginFlow)
        ensures
            flow.phase == LoginPhase::Starting,
    {
        LoginFlow { phase: LoginPhase::Starting }
    }

    /// Takes one event: at the start, a stored refresh token announces the
    /// login and connects, else login requests are awaited; while logged
    /// out, an answer of the login endpoint is acted on as `on_login_reply`
    /// says, and connects when it confirms the login. Any other event is
    /// ignored.
    pub fn step(&mut self, event: LoginEvent) -> (step: LoginStep)
        ensures
            final(self).phase == next_phase(old(self).phase, event),
            step_connects(step) == connects_on(old(self).phase, event),
            old(self).phase == LoginPhase::Starting && event is Opened ==> (if event->Opened_0 is Some {
                step is AnnounceAndConnect
            } else {
                step is AwaitLogin
            }),
            old(self).phase == LoginPhase::LoggedOut ==> (event matches LoginEvent::Answered { name, reply }
                ==> (step matches LoginStep::Reply(o) && answers_login(name, reply, o))),
            !(old(self).phase == LoginPhase::Starting && event is Opened) && !(old(self).phase
                == LoginPhase::LoggedOut && event is Answered) ==> step is Ignore,
            step_connects(step) ==> (event matches LoginEvent::Opened(Some(_))) || (
            event matches LoginEvent::Answered { reply, .. } && login_confirmed(reply)),
            step matches LoginStep::Reply(o) ==> (o.response matches Some(
                FrontendReponse::ConfirmLogin { success, .. },
            ) && success ==> (event matches LoginEvent::Answered { reply, .. } && login_confirmed(reply)
                && step_connects(step))),
    {
        match event {
            LoginEvent::Opened(token) => {
                if self.phase == LoginPhase::Starting {
                    match on_startup(token) {
                        StartupAction::AnnounceLoggedIn => {
                            self.phase = LoginPhase::Connected;
                            LoginStep::AnnounceAndConnect
                        },
                        StartupAction::AwaitLogin => {
                            self.phase = LoginPhase::LoggedOut;
                            LoginStep::AwaitLogin
                        },
                    }
                } else {
                    LoginStep::Ignore
                }
            },
            LoginEvent::Answered { name, reply } => {
                if self.phase == LoginPhase::LoggedOut {
                    let outcome = on_login_reply(name, reply);
                    if outcome.logged_in {
                        self.phase = LoginPhase::Connected;
                    }
                    LoginStep::Reply(outcome)
                } else {
                    LoginStep::Ignore
                }
            },
        }
    }
}

/// Whatever events the backend's start takes, it connects at most once; it
/// has connected exactly when it is in the connected phase; and each event
/// on which it connects is a stored refresh token at the start or an answer
/// that confirms a successful login.
pub proof fn lemma_connects_at_most_once(events: Seq<LoginEvent>)
    ensures
        connections(events) <= 1,
        connections(events) == 1 <==> phase_after(events) == LoginPhase::Connected,
        forall|i: int|
            0 <= i < events.len() && #[trigger] connects_on(phase_after(events.take(i)), events[i])
                ==> (events[i] matches LoginEvent::Opened(Some(_))) || (
            events[i] matches LoginEvent::Answered { reply, .. } && login_confirmed(reply)),
    decreases events.len(),
{
    if events.len() > 0 {
        lemma_connects_at_most_once(events.drop_last());
    }
}

/// The start only moves forward: it never returns to `Starting`; while
/// logged out, an answer that is not a confirmed successful login leaves it
/// logged out (so a later confirmed login still connects), and a confirmed
/// one connects; once connected, it stays connected.
pub proof fn lemma_login_phase_moves_forward(phase: LoginPhase, event: LoginEvent)
    ensures
        next_phase(phase, event) == LoginPhase::Starting ==> phase == LoginPhase::Starting,
        phase == LoginPhase::LoggedOut ==> (event matches LoginEvent::Answered { reply, .. } ==> (
        if reply matches Some(ServerMessage {
            payload: ServerPayload::ConfirmLogin { success: true, .. },
            ..
        }) {
            next_phase(phase, event) == LoginPhase::Connected
        } else {
            next_phase(phase, event) == LoginPhase::LoggedOut
        })),
        phase == LoginPhase::Starting ==> (event matches LoginEvent::Opened(token) ==> next_phase(
            phase,
            event,
        ) == if token is Some {
            LoginPhase::Connected
        } else {
            LoginPhase::LoggedOut
        }),
        phase == LoginPhase::Connected ==> next_phase(phase, event) == LoginPhase::Connected,
{
}

/// What an answer of the login endpoint does: a confirmed successful
/// login stores its refresh and access tokens (not swapped), confirms the
/// login of that user to the frontend and logs in; a refused login stores
/// nothing, reports the refusal and stays logged out; any other answer, or
/// none, does nothing at all.
pub proof fn lemma_login_answer_effects(name: String, reply: Option<ServerMessage>, o: LoginOutcome)
    requires
        answers_login(name, reply, o),
    ensures
        reply matches Some(ServerMessage {
            payload: ServerPayload::ConfirmLogin { success: true, refresh_token, access_token },
            ..
        }) ==> {
            &&& o.save_refresh == refresh_token
            &&& o.save_access == access_token
            &&& o.logged_in
            &&& o.response == Some(FrontendReponse::ConfirmLogin { success: true, name })
        },
        reply matches Some(ServerMessage {
            payload: ServerPayload::ConfirmLogin { success: false, .. },
            ..
        }) ==> {
            &&& o.save_refresh is None && o.save_access is None
            &&& !o.logged_in
            &&& o.response == Some(FrontendReponse::ConfirmLogin { success: false, name })
        },
        !(reply matches Some(ServerMessage { payload: ServerPayload::ConfirmLogin { .. }, .. })) ==> (
        o.save_refresh is None && o.save_access is None && !o.logged_in && o.response is None),
        o.logged_in <==> (reply matches Some(ServerMessage {
            payload: ServerPayload::ConfirmLogin { success: true, .. },
            ..
        })),
{
}

} // verus!
