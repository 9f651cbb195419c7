//! The decisions of the connection to the server: obtaining an access token
//! before a message may be sent, numbering the requests forwarded from the
//! frontend, and routing what the server sends back.

use vstd::prelude::*;
use std::collections::HashSet;
use crate::datatypes::{
    AddressDetails, ClientMessage, ClientPayload, DbError, FrontEndPayload, FrontendReponse,
    MapDetails, MapDisplayDetails, ServerMessage, ServerPayload, StreetDetails,
};

verus! {

// ------------------------------ SENDING WITH AN ACCESS TOKEN ----------

/// The message that asks the server for an access token.
pub open spec fn token_request(refresh_token: [u8; 32]) -> ClientMessage {
    ClientMessage {
        id: 0,
        access_token: None,
        payload: ClientPayload::RequestAccessToken(refresh_token),
    }
}

fn make_token_request(refresh_token: [u8; 32]) -> (m: ClientMessage)
    ensures
        m == token_request(refresh_token),
{
    ClientMessage { id: 0, access_token: None, payload: ClientPayload::RequestAccessToken(refresh_token) }
}

/// What a send that lacks an access token waits for.
#[derive(Debug)]
pub enum TokenStage {
    /// The server's answer to a token request.
    AwaitingReply,
    /// Whether this new access token was stored.
    AwaitingSave([u8; 32]),
}

/// A message waiting for an access token.
pub struct TokenSend {
    pub pending: ClientMessage,
    pub refresh_token: [u8; 32],
    pub stage: TokenStage,
}

/// Work for the caller while a message waits for an access token.
pub enum TokenAction {
    /// Send this token request, then read the server's next message.
    RequestToken(ClientMessage),
    /// Store this access token, then report whether that succeeded.
    SaveToken([u8; 32]),
}

/// Where a send stands.
pub enum TokenStep {
    /// Send `message`; the send is over and reports `token`.
    Deliver { message: ClientMessage, token: Option<[u8; 32]> },
    /// Do `action`, then hand its outcome to `state`.
    Continue { state: TokenSend, action: TokenAction },
}

/// The outcome of a `TokenAction`.
pub enum TokenEvent {
    /// The server's next message, or `None` when there was none, it could
    /// not be read, was not binary or could not be decoded.
    Reply(Option<ServerMessage>),
    /// Whether the new access token was stored.
    Saved(bool),
}

impl TokenSend {
    pub open spec fn wf(&self) -> bool {
        self.pending.access_token is None
    }

    /// Begins sending `message`: a message that carries an access token is
    /// sent at once; any other first waits for a token, asked for with the
    /// refresh token.
    pub fn start(message: ClientMessage, refresh_token: [u8; 32]) -> (step: TokenStep)
        ensures
            message.access_token is Some ==> step == (TokenStep::Deliver {
                message,
                token: message.access_token,
            }),
            message.access_token is None ==> step == (TokenStep::Continue {
                state: TokenSend { pending: message, refresh_token, stage: TokenStage::AwaitingReply },
                action: TokenAction::RequestToken(token_request(refresh_token)),
            }),
            step matches TokenStep::Deliver { message: m, token } ==> token is Some && token
                == m.access_token,
            step matches TokenStep::Continue { state, .. } ==> state.wf(),
    {
        if message.access_token.is_some() {
            let token = message.access_token;
            TokenStep::Deliver { message, token }
        } else {
            let request = make_token_request(refresh_token);
            TokenStep::Continue {
                state: TokenSend { pending: message, refresh_token, stage: TokenStage::AwaitingReply },
                action: TokenAction::RequestToken(request),
            }
        }
    }

    /// Takes the outcome of the last action. A new access token from the
    /// server is stored; once stored, the message is sent with it. Any other
    /// answer, and a token that could not be stored, lead to a new request.
    pub fn step(self, event: TokenEvent) -> (step: TokenStep)
        requires
            self.wf(),
            event is Reply ==> self.stage is AwaitingReply,
            event is Saved ==> self.stage is AwaitingSave,
        ensures
            event matches TokenEvent::Reply(Some(
                ServerMessage { payload: ServerPayload::NewAccessToken(t), .. },
            )) ==> step == (TokenStep::Continue {
                state: TokenSend {
                    pending: self.pending,
                    refresh_token: self.refresh_token,
                    stage: TokenStage::AwaitingSave(t),
                },
                action: TokenAction::SaveToken(t),
            }),
            (event is Reply && !(event matches TokenEvent::Reply(Some(
                ServerMessage { payload: ServerPayload::NewAccessToken(_), .. },
            )))) ==> step == (TokenStep::Continue {
                state: self,
                action: TokenAction::RequestToken(token_request(self.refresh_token)),
            }),
            event matches TokenEvent::Saved(true) ==> (self.stage matches TokenStage::AwaitingSave(t)
                ==> step == (TokenStep::Deliver {
                message: ClientMessage {
                    id: self.pending.id,
                    access_token: Some(t),
                    payload: self.pending.payload,
                },
                token: Some(t),
            })),
            event matches TokenEvent::Saved(false) ==> step == (TokenStep::Continue {
                state: TokenSend {
                    pending: self.pending,
                    refresh_token: self.refresh_token,
                    stage: TokenStage::AwaitingReply,
                },
                action: TokenAction::RequestToken(token_request(self.refresh_token)),
            }),
            step matches TokenStep::Deliver { message: m, token } ==> token is Some && token
                == m.access_token,
            step matches TokenStep::Continue { state, .. } ==> state.wf(),
    {
        let TokenSend { pending, refresh_token, stage } = self;
        match event {
            TokenEvent::Reply(Some(ServerMessage { payload: ServerPayload::NewAccessToken(t), .. })) => {
                TokenStep::Continue {
                    state: TokenSend { pending, refresh_token, stage: TokenStage::AwaitingSave(t) },
                    action: TokenAction::SaveToken(t),
                }
            },
            TokenEvent::Reply(_) => {
                let request = make_token_request(refresh_token);
                TokenStep::Continue {
                    state: TokenSend { pending, refresh_token, stage },
                    action: TokenAction::RequestToken(request),
                }
            },
            TokenEvent::Saved(saved) => {
                let t = match stage {
                    TokenStage::AwaitingSave(t) => t,
                    TokenStage::AwaitingReply => [0u8; 32],
                };
                if saved {
                    let ClientMessage { id, access_token: _, payload } = pending;
                    TokenStep::Deliver {
                        message: ClientMessage { id, access_token: Some(t), payload },
                        token: Some(t),
                    }
                } else {
                    let request = make_token_request(refresh_token);
                    TokenStep::Continue {
                        state: TokenSend { pending, refresh_token, stage: TokenStage::AwaitingReply },
                        action: TokenAction::RequestToken(request),
                    }
                }
            },
        }
    }
}

// ------------------------------ THE OPEN CONNECTION ----------

/// The state of an open connection: the access token that outgoing messages
/// carry, the id the next forwarded request gets, and the ids of the
/// requests still waiting for the server's answer.
pub struct Connection {
    pub access_token: Option<[u8; 32]>,
    pub next_id: u32,
    pub pending: HashSet<u32>,
}

pub struct ConnectionView {
    pub access_token: Option<[u8; 32]>,
    pub next_id: u32,
    pub pending: Set<u32>,
}

impl View for Connection {
    type V = ConnectionView;

    open spec fn view(&self) -> ConnectionView {
        ConnectionView { access_token: self.access_token, next_id: self.next_id, pending: self.pending@ }
    }
}

/// What a request of the frontend leads to on an open connection.
#[derive(Debug)]
pub enum RequestAction {
    /// Drop the request.
    Ignore,
    /// Send this message to the server (with the access token sender) and
    /// keep the request's answer channel under the message's id.
    Send(ClientMessage),
    /// Answer with the list of maps read from the database.
    LoadMaps,
    /// Answer with the map, its streets and their addresses, read from the
    /// database.
    LoadMapDetails(u32),
}

/// What a decoded message from the server asks to be stored first.
#[derive(Debug)]
pub enum Store {
    /// Store the tokens that are present, the refresh token first.
    Tokens { refresh: Option<[u8; 32]>, access: Option<[u8; 32]> },
    /// Synchronise the database with the message's information.
    Sync,
    /// Nothing to store: the message is not expected, and goes nowhere.
    Skip,
}

/// Who a decoded message from the server goes to, once stored.
#[derive(Debug, PartialEq, Eq, Structural)]
pub enum Delivery {
    /// Nobody: the message was skipped.
    Nobody,
    /// A message with id 0, which answers no request.
    Unsolicited,
    /// The request that was sent with this id, which is no longer waiting.
    Respond(u32),
    /// No request waits for this id.
    Unclaimed(u32),
}

/// What to do with a decoded message from the server.
#[derive(Debug)]
pub struct IncomingPlan {
    pub store: Store,
    pub delivery: Delivery,
}

/// Messages from the server that were not a decodable binary message.
#[derive(Debug, PartialEq, Eq, Structural)]
pub enum IncomingFailure {
    /// The message could not be read.
    Corrupt,
    /// The message was not binary.
    NotBinary,
    /// The binary message could not be decoded.
    Undecodable,
}

/// What a decoded message asks to be stored.
pub open spec fn store_for(payload: ServerPayload) -> Store {
    match payload {
        ServerPayload::ConfirmLogin { refresh_token, access_token, .. } => Store::Tokens {
            refresh: refresh_token,
            access: access_token,
        },
        ServerPayload::SyncInformation(_) => Store::Sync,
        _ => Store::Skip,
    }
}

impl ConnectionView {
    /// Ids of waiting requests are never 0 and are below the next id.
    pub open spec fn wf(self) -> bool {
        &&& 1 <= self.next_id
        &&& forall|id: u32| #[trigger] self.pending.contains(id) ==> 1 <= id < self.next_id
    }

    /// The state and action after a request of the frontend. Login requests
    /// are not forwarded on an open connection; other messages for the
    /// server are numbered and sent with the current access token.
    pub open spec fn on_request(self, payload: FrontEndPayload) -> (ConnectionView, RequestAction) {
        match payload {
            FrontEndPayload::MessageForServer(q) => if q is Login {
                (self, RequestAction::Ignore)
            } else {
                (
                    ConnectionView {
                        access_token: self.access_token,
                        next_id: (self.next_id + 1) as u32,
                        pending: self.pending.insert(self.next_id),
                    },
                    RequestAction::Send(
                        ClientMessage { id: self.next_id, access_token: self.access_token, payload: q },
                    ),
                )
            },
            FrontEndPayload::Login { .. } => (self, RequestAction::Ignore),
            FrontEndPayload::GetMaps => (self, RequestAction::LoadMaps),
            FrontEndPayload::GetMapDetails(id) => (self, RequestAction::LoadMapDetails(id)),
        }
    }

    /// The state and plan after a decoded message from the server. Skipped
    /// messages go nowhere; a message with id 0 answers nobody; any other id
    /// answers the request waiting under it, which then no longer waits.
    pub open spec fn on_message(self, msg: ServerMessage) -> (ConnectionView, IncomingPlan) {
        let store = store_for(msg.payload);
        if store is Skip {
            (self, IncomingPlan { store, delivery: Delivery::Nobody })
        } else if msg.id == 0 {
            (self, IncomingPlan { store, delivery: Delivery::Unsolicited })
        } else if self.pending.contains(msg.id) {
            (
                ConnectionView {
                    access_token: self.access_token,
                    next_id: self.next_id,
                    pending: self.pending.remove(msg.id),
                },
                IncomingPlan { store, delivery: Delivery::Respond(msg.id) },
            )
        } else {
            (self, IncomingPlan { store, delivery: Delivery::Unclaimed(msg.id) })
        }
    }
}

fn store_of(payload: &ServerPayload) -> (store: Store)
    ensures
        store == store_for(*payload),
{
    match payload {
        ServerPayload::ConfirmLogin { refresh_token, access_token, .. } => Store::Tokens {
            refresh: *refresh_token,
            access: *access_token,
        },
        ServerPayload::SyncInformation(_) => Store::Sync,
        _ => Store::Skip,
    }
}

impl Connection {
    /// Opens a connection: the first request id is 1, nothing waits, and the
    /// first message asks, with id 0 and the stored access token, for a sync
    /// from the start.
    pub fn open(access_token: Option<[u8; 32]>) -> (r: (Connection, ClientMessage))
        ensures
            r.0@ == (ConnectionView { access_token, next_id: 1, pending: Set::empty() }),
            r.0@.wf(),
            r.1 == (ClientMessage { id: 0, access_token, payload: ClientPayload::RequestSync(0) }),
    {
        let c = Connection { access_token, next_id: 1, pending: HashSet::new() };
        (c, ClientMessage { id: 0, access_token, payload: ClientPayload::RequestSync(0) })
    }

    /// Records the access token that the last send reported.
    pub fn record_send(&mut self, token: Option<[u8; 32]>)
        ensures
            final(self)@ == (ConnectionView {
                access_token: token,
                next_id: old(self)@.next_id,
                pending: old(self)@.pending,
            }),
    {
        self.access_token = token;
    }

    /// Takes a request of the frontend (see `ConnectionView::on_request`).
    pub fn handle_request(&mut self, payload: FrontEndPayload) -> (action: RequestAction)
        requires
            old(self)@.wf(),
            payload matches FrontEndPayload::MessageForServer(q) ==> (!(q is Login) ==> old(self).next_id
                < u32::MAX),
        ensures
            (final(self)@, action) == old(self)@.on_request(payload),
            final(self)@.wf(),
    {
        match payload {
            FrontEndPayload::MessageForServer(q) => {
                if matches!(q, ClientPayload::Login { .. }) {
                    RequestAction::Ignore
                } else {
                    let id = self.next_id;
                    self.pending.insert(id);
                    self.next_id = id + 1;
                    proof {
                        assert forall|k: u32| #[trigger] self@.pending.contains(k) implies 1 <= k
                            < self.next_id by {
                            if k != id {
                                assert(old(self)@.pending.contains(k));
                            }
                        }
                    }
                    RequestAction::Send(ClientMessage { id, access_token: self.access_token, payload: q })
                }
            },
            FrontEndPayload::Login { .. } => RequestAction::Ignore,
            FrontEndPayload::GetMaps => RequestAction::LoadMaps,
            FrontEndPayload::GetMapDetails(id) => RequestAction::LoadMapDetails(id),
        }
    }

    /// Takes a decoded message from the server (see
    /// `ConnectionView::on_message`).
    pub fn handle_message(&mut self, msg: &ServerMessage) -> (plan: IncomingPlan)
        requires
            old(self)@.wf(),
        ensures
            (final(self)@, plan) == old(self)@.on_message(*msg),
            final(self)@.wf(),
    {
        let store = store_of(&msg.payload);
        if matches!(store, Store::Skip) {
            return IncomingPlan { store, delivery: Delivery::Nobody };
        }
        if msg.id == 0 {
            return IncomingPlan { store, delivery: Delivery::Unsolicited };
        }
        if self.pending.remove(&msg.id) {
            return IncomingPlan { store, delivery: Delivery::Respond(msg.id) };
        }
        assert(self@.pending =~= old(self)@.pending);
        IncomingPlan { store, delivery: Delivery::Unclaimed(msg.id) }
    }
}

/// The log entry that a failed message from the server leaves: code 0 and a
/// description for unreadable and non-binary messages, none for messages
/// that could not be decoded.
pub fn failure_log(failure: IncomingFailure) -> (entry: Option<(u32, &'static str)>)
    ensures
        failure is Corrupt ==> (entry matches Some((code, text)) && code == 0 && text@
            == "Message recieved from the server was corrupt"@),
        failure is NotBinary ==> (entry matches Some((code, text)) && code == 0 && text@
            == "Message recieved from the server was not binary"@),
        failure is Undecodable ==> entry is None,
{
    match failure {
        IncomingFailure::Corrupt => Some((0, "Message recieved from the server was corrupt")),
        IncomingFailure::NotBinary => Some((0, "Message recieved from the server was not binary")),
        IncomingFailure::Undecodable => None,
    }
}

/// The answer to a request for the list of maps: the maps read, or no
/// answer when the read failed.
pub fn maps_answer(read: Result<Vec<MapDisplayDetails>, DbError>) -> (answer: Option<FrontendReponse>)
    ensures
        read matches Ok(maps) ==> answer == Some(FrontendReponse::Maps(maps)),
        read is Err ==> answer is None,
{
    match read {
        Ok(maps) => Some(FrontendReponse::Maps(maps)),
        Err(_) => None,
    }
}

/// The answer to a request for a map's details: the map, its streets and
/// their addresses, or no answer when any of the three reads failed.
pub fn map_details_answer(
    map: Result<MapDetails, DbError>,
    streets: Result<Vec<StreetDetails>, DbError>,
    addresses: Result<Vec<AddressDetails>, DbError>,
) -> (answer: Option<FrontendReponse>)
    ensures
        map matches Ok(details) ==> (streets matches Ok(s) ==> (addresses matches Ok(a) ==> answer
            == Some(FrontendReponse::MapDetails { details, streets: s, addresses: a }))),
        (map is Err || streets is Err || addresses is Err) ==> answer is None,
{
    match (map, streets, addresses) {
        (Ok(details), Ok(streets), Ok(addresses)) => Some(
            FrontendReponse::MapDetails { details, streets, addresses },
        ),
        _ => None,
    }
}

// ------------------------------ LAWS ----------

/// A forwarded request gets an id that is not 0 and that no waiting
/// request has.
pub proof fn lemma_request_ids_are_fresh(c: ConnectionView, q: ClientPayload)
    requires
        c.wf(),
        c.next_id < u32::MAX,
        !(q is Login),
    ensures
        c.on_request(FrontEndPayload::MessageForServer(q)).1 matches RequestAction::Send(m) && m.id
            != 0 && !c.pending.contains(m.id) && c.on_request(
            FrontEndPayload::MessageForServer(q),
        ).0.pending.contains(m.id),
{
}

/// The server's answer to a forwarded request, carrying the request's id,
/// goes to that request, and leaves the same requests waiting as before the
/// request.
pub proof fn lemma_answer_goes_to_its_request(c: ConnectionView, q: ClientPayload, reply: ServerMessage)
    requires
        c.wf(),
        c.next_id < u32::MAX,
        !(q is Login),
        reply.id == c.next_id,
        !(store_for(reply.payload) is Skip),
    ensures
        c.on_request(FrontEndPayload::MessageForServer(q)).1 == RequestAction::Send(
            ClientMessage { id: reply.id, access_token: c.access_token, payload: q },
        ),
        c.on_request(FrontEndPayload::MessageForServer(q)).0.on_message(reply).1.delivery
            == Delivery::Respond(reply.id),
        c.on_request(FrontEndPayload::MessageForServer(q)).0.on_message(reply).0.pending
            == c.pending,
{
    let c1 = c.on_request(FrontEndPayload::MessageForServer(q)).0;
    assert(!c.pending.contains(reply.id));
    assert(c1.pending.remove(reply.id) =~= c.pending);
}

/// An answer is delivered at most once: once an id has been answered, a
/// second message with it finds no request waiting.
pub proof fn lemma_answer_delivered_once(c: ConnectionView, reply: ServerMessage)
    requires
        c.wf(),
        c.on_message(reply).1.delivery == Delivery::Respond(reply.id),
    ensures
        c.on_message(reply).0.wf(),
        !c.on_message(reply).0.pending.contains(reply.id),
        c.on_message(reply).0.on_message(reply).1.delivery == Delivery::Unclaimed(reply.id),
{
}

/// Whatever request a message from the server answers: a message with a
/// non-zero id that carries tokens or sync data goes to the request waiting
/// under that id, whether it is the latest request or an older one, and
/// exactly that request stops waiting. A message never adds a waiting
/// request, and a message for no waiting id leaves the waiting ones as
/// they are.
pub proof fn lemma_waiting_request_gets_its_answer(c: ConnectionView, msg: ServerMessage)
    requires
        c.wf(),
    ensures
        msg.id != 0 && c.pending.contains(msg.id) && (msg.payload is ConfirmLogin
            || msg.payload is SyncInformation) ==> {
            &&& c.on_message(msg).1.delivery == Delivery::Respond(msg.id)
            &&& c.on_message(msg).0.pending == c.pending.remove(msg.id)
        },
        c.on_message(msg).0.pending.subset_of(c.pending),
        !c.pending.contains(msg.id) ==> c.on_message(msg).0.pending == c.pending,
        c.on_message(msg).0.next_id == c.next_id,
        c.on_message(msg).0.access_token == c.access_token,
{
}

/// A message for the server from the frontend is sent, unless it is a
/// login, with the next id in turn and the current access token; the id
/// then waits for its answer and the following request gets the id after
/// it. Login requests, and the frontend's own login, change nothing; maps
/// and map details are read from the database.
pub proof fn lemma_requests_numbered_in_turn(c: ConnectionView, payload: FrontEndPayload)
    requires
        c.wf(),
    ensures
        payload matches FrontEndPayload::MessageForServer(q) ==> (!(q is Login) && c.next_id < u32::MAX ==> {
            &&& c.on_request(payload).1 == RequestAction::Send(
                ClientMessage { id: c.next_id, access_token: c.access_token, payload: q },
            )
            &&& c.on_request(payload).0.next_id == c.next_id + 1
            &&& c.on_request(payload).0.pending == c.pending.insert(c.next_id)
            &&& c.on_request(payload).0.access_token == c.access_token
        }),
        (payload matches FrontEndPayload::MessageForServer(q) && q is Login) || payload is Login
            ==> c.on_request(payload) == (c, RequestAction::Ignore),
        payload is GetMaps ==> c.on_request(payload) == (c, RequestAction::LoadMaps),
        payload matches FrontEndPayload::GetMapDetails(id) ==> c.on_request(payload) == (
            c,
            RequestAction::LoadMapDetails(id),
        ),
{
}

/// What a message from the server asks to store, and who gets it: a login
/// confirmation stores its refresh and access tokens, sync information is
/// synchronised, and anything else is stored nowhere and goes to nobody; a
/// stored message with id 0 answers no request and leaves the waiting
/// requests as they are; one whose id no request waits for is unclaimed.
pub proof fn lemma_message_store_and_recipient(c: ConnectionView, msg: ServerMessage)
    requires
        c.wf(),
    ensures
        msg.payload matches ServerPayload::ConfirmLogin { refresh_token, access_token, .. }
            ==> c.on_message(msg).1.store == (Store::Tokens { refresh: refresh_token, access: access_token }),
        msg.payload is SyncInformation ==> c.on_message(msg).1.store == Store::Sync,
        !(msg.payload is ConfirmLogin || msg.payload is SyncInformation) ==> {
            &&& c.on_message(msg).1.store == Store::Skip
            &&& c.on_message(msg).1.delivery == Delivery::Nobody
            &&& c.on_message(msg).0 == c
        },
        (msg.payload is ConfirmLogin || msg.payload is SyncInformation) && msg.id == 0 ==> {
            &&& c.on_message(msg).1.delivery == Delivery::Unsolicited
            &&& c.on_message(msg).0 == c
        },
        (msg.payload is ConfirmLogin || msg.payload is SyncInformation) && msg.id != 0
            && !c.pending.contains(msg.id) ==> c.on_message(msg).1.delivery == Delivery::Unclaimed(msg.id),
{
}

} // verus!
