use std::collections::HashSet;

use preaching_partner::commands::{login_succeeded, maps_outcome, MapsRequestError};
use preaching_partner::connection::{
    failure_log, map_details_answer, maps_answer, Connection, Delivery, IncomingFailure, RequestAction,
    Store, TokenAction, TokenEvent, TokenSend, TokenStage, TokenStep,
};
use preaching_partner::conversation::{Conversation, ConversationMessage};
use preaching_partner::datatypes::{
    ClientMessage, ClientPayload, DbError, FrontEndPayload, FrontendReponse, MapDetails,
    MapDisplayDetails, ServerMessage, ServerPayload, SyncInformation,
};
use preaching_partner::login::{on_login_reply, on_login_request, on_startup, LoginRequestAction, StartupAction};
use preaching_partner::services::{get_access_token, is_logged_in};

fn server(id: u32, payload: ServerPayload) -> ServerMessage {
    ServerMessage { id, timestamp: 10, payload }
}

fn empty_sync() -> SyncInformation {
    SyncInformation {
        congregations: vec![],
        categories: vec![],
        service_groups: vec![],
        users: vec![],
        maps: vec![],
        streets: vec![],
        addresses: vec![],
    }
}

#[test]
fn stored_tokens_decide_login_state() {
    assert_eq!(is_logged_in(Ok([3; 32])), Some([3; 32]));
    assert_eq!(is_logged_in(Err(DbError::InvalidToken(0))), None);
    assert_eq!(get_access_token(Err(DbError::QueryFailure("x".to_string()))), None);
    assert_eq!(on_startup(Some([1; 32])), StartupAction::AnnounceLoggedIn);
    assert_eq!(on_startup(None), StartupAction::AwaitLogin);
}

#[test]
fn commands_read_answers() {
    assert!(login_succeeded(Some(FrontendReponse::ConfirmLogin { success: true, name: "a".to_string() })));
    assert!(!login_succeeded(Some(FrontendReponse::ConfirmLogin { success: false, name: "a".to_string() })));
    assert!(!login_succeeded(Some(FrontendReponse::Maps(vec![]))));
    assert!(!login_succeeded(None));
    let map = MapDisplayDetails { id: 1, display_name: "A".to_string(), file_name: "a".to_string(), category: 2 };
    assert_eq!(maps_outcome(Some(FrontendReponse::Maps(vec![map]))).unwrap().len(), 1);
    assert_eq!(maps_outcome(None).unwrap_err(), MapsRequestError::NoAnswer);
    let odd = maps_outcome(Some(FrontendReponse::ConfirmLogin { success: true, name: String::new() }));
    assert_eq!(odd.unwrap_err(), MapsRequestError::UnexpectedAnswer);
    assert_eq!(MapsRequestError::UnexpectedAnswer.to_message(), "Unexpected message from server");
    assert_eq!(MapsRequestError::NoAnswer.to_message(), "the networking did not answer");
}

#[test]
fn login_requests_are_posted_with_id_zero() {
    match on_login_request(FrontEndPayload::Login { name: "Ethan".to_string(), password: "pw".to_string() }) {
        LoginRequestAction::SendLogin { name, message } => {
            assert_eq!(name, "Ethan");
            assert_eq!(message.id, 0);
            assert!(message.access_token.is_none());
            assert!(matches!(message.payload, ClientPayload::Login { ref name, ref password } if name == "Ethan" && password == "pw"));
        }
        LoginRequestAction::Ignore => panic!("a login must be sent"),
    }
    assert!(matches!(on_login_request(FrontEndPayload::GetMaps), LoginRequestAction::Ignore));
}

#[test]
fn login_replies() {
    let ok = on_login_reply(
        "Ethan".to_string(),
        Some(server(0, ServerPayload::ConfirmLogin { success: true, refresh_token: Some([1; 32]), access_token: None })),
    );
    assert_eq!(ok.save_refresh, Some([1; 32]));
    assert_eq!(ok.save_access, None);
    assert!(ok.logged_in);
    assert!(matches!(ok.response, Some(FrontendReponse::ConfirmLogin { success: true, ref name }) if name == "Ethan"));
    let refused = on_login_reply(
        "Ethan".to_string(),
        Some(server(0, ServerPayload::ConfirmLogin { success: false, refresh_token: Some([1; 32]), access_token: Some([2; 32]) })),
    );
    assert!(!refused.logged_in);
    assert_eq!(refused.save_refresh, None);
    assert!(matches!(refused.response, Some(FrontendReponse::ConfirmLogin { success: false, .. })));
    let odd = on_login_reply("Ethan".to_string(), Some(server(0, ServerPayload::UnknownError)));
    assert!(odd.response.is_none() && !odd.logged_in);
    assert!(on_login_reply("Ethan".to_string(), None).response.is_none());
}

fn message(token: Option<[u8; 32]>) -> ClientMessage {
    ClientMessage { id: 4, access_token: token, payload: ClientPayload::RequestSync(0) }
}

#[test]
fn token_send_with_token_goes_at_once() {
    match TokenSend::start(message(Some([9; 32])), [1; 32]) {
        TokenStep::Deliver { message, token } => {
            assert_eq!(token, Some([9; 32]));
            assert_eq!(message.id, 4);
        }
        TokenStep::Continue { .. } => panic!("should deliver"),
    }
}

#[test]
fn token_send_obtains_a_token_first() {
    let step = TokenSend::start(message(None), [1; 32]);
    let state = match step {
        TokenStep::Continue { state, action: TokenAction::RequestToken(req) } => {
            assert_eq!(req.id, 0);
            assert!(req.access_token.is_none());
            assert!(matches!(req.payload, ClientPayload::RequestAccessToken(t) if t == [1; 32]));
            state
        }
        _ => panic!("should ask for a token"),
    };
    // An unrelated answer leads to a new request.
    let state = match state.step(TokenEvent::Reply(Some(server(0, ServerPayload::UnknownError)))) {
        TokenStep::Continue { state, action: TokenAction::RequestToken(_) } => state,
        _ => panic!("should ask again"),
    };
    let state = match state.step(TokenEvent::Reply(None)) {
        TokenStep::Continue { state, action: TokenAction::RequestToken(_) } => state,
        _ => panic!("should ask again"),
    };
    let state = match state.step(TokenEvent::Reply(Some(server(0, ServerPayload::NewAccessToken([7; 32]))))) {
        TokenStep::Continue { state, action: TokenAction::SaveToken(t) } => {
            assert_eq!(t, [7; 32]);
            assert!(matches!(state.stage, TokenStage::AwaitingSave(_)));
            state
        }
        _ => panic!("should save"),
    };
    // A token that could not be stored is asked for again.
    let state = match state.step(TokenEvent::Saved(false)) {
        TokenStep::Continue { state, action: TokenAction::RequestToken(_) } => state,
        _ => panic!("should ask again"),
    };
    let state = match state.step(TokenEvent::Reply(Some(server(0, ServerPayload::NewAccessToken([8; 32]))))) {
        TokenStep::Continue { state, .. } => state,
        _ => panic!("should save"),
    };
    match state.step(TokenEvent::Saved(true)) {
        TokenStep::Deliver { message, token } => {
            assert_eq!(token, Some([8; 32]));
            assert_eq!(message.access_token, Some([8; 32]));
            assert_eq!(message.id, 4);
        }
        _ => panic!("should deliver"),
    }
}

#[test]
fn connection_numbers_and_routes_requests() {
    let (mut c, first) = Connection::open(Some([5; 32]));
    assert_eq!(first.id, 0);
    assert!(matches!(first.payload, ClientPayload::RequestSync(0)));
    assert_eq!(first.access_token, Some([5; 32]));
    let a = c.handle_request(FrontEndPayload::MessageForServer(ClientPayload::RequestSync(3)));
    let b = c.handle_request(FrontEndPayload::MessageForServer(ClientPayload::UpdateCheckbox { map: 1, id: 2, checked: true }));
    let (id_a, id_b) = match (a, b) {
        (RequestAction::Send(ma), RequestAction::Send(mb)) => {
            assert_eq!(ma.access_token, Some([5; 32]));
            (ma.id, mb.id)
        }
        _ => panic!("both must be sent"),
    };
    assert_eq!((id_a, id_b), (1, 2));
    assert_eq!(c.pending, HashSet::from([1, 2]));
    assert!(matches!(
        c.handle_request(FrontEndPayload::MessageForServer(ClientPayload::Login { name: String::new(), password: String::new() })),
        RequestAction::Ignore
    ));
    assert!(matches!(c.handle_request(FrontEndPayload::Login { name: String::new(), password: String::new() }), RequestAction::Ignore));
    assert!(matches!(c.handle_request(FrontEndPayload::GetMaps), RequestAction::LoadMaps));
    assert!(matches!(c.handle_request(FrontEndPayload::GetMapDetails(9)), RequestAction::LoadMapDetails(9)));
    assert_eq!(c.next_id, 3);

    let reply = server(2, ServerPayload::SyncInformation(empty_sync()));
    let plan = c.handle_message(&reply);
    assert!(matches!(plan.store, Store::Sync));
    assert_eq!(plan.delivery, Delivery::Respond(2));
    assert_eq!(c.pending, HashSet::from([1]));
    // The same id again finds nobody waiting.
    assert_eq!(c.handle_message(&reply).delivery, Delivery::Unclaimed(2));

    let login = server(0, ServerPayload::ConfirmLogin { success: true, refresh_token: Some([1; 32]), access_token: None });
    let plan = c.handle_message(&login);
    assert!(matches!(plan.store, Store::Tokens { refresh: Some(_), access: None }));
    assert_eq!(plan.delivery, Delivery::Unsolicited);
    // An unexpected message is skipped even when a request waits for its id.
    let plan = c.handle_message(&server(1, ServerPayload::NewAccessToken([0; 32])));
    assert!(matches!(plan.store, Store::Skip));
    assert_eq!(plan.delivery, Delivery::Nobody);
    assert_eq!(c.pending, HashSet::from([1]));
    c.record_send(None);
    assert_eq!(c.access_token, None);
}

#[test]
fn failed_messages_are_logged() {
    assert_eq!(failure_log(IncomingFailure::Corrupt), Some((0, "Message recieved from the server was corrupt")));
    assert_eq!(failure_log(IncomingFailure::NotBinary), Some((0, "Message recieved from the server was not binary")));
    assert_eq!(failure_log(IncomingFailure::Undecodable), None);
}

#[test]
fn map_answers() {
    assert!(matches!(maps_answer(Ok(vec![])), Some(FrontendReponse::Maps(_))));
    assert!(maps_answer(Err(DbError::Error)).is_none());
    let map = MapDetails {
        id: 1,
        name: "M".to_string(),
        image_name: "m".to_string(),
        assignee: 0,
        assigner: 0,
        image: None,
        category: 0,
        deleted: false,
    };
    assert!(matches!(map_details_answer(Ok(map.clone()), Ok(vec![]), Ok(vec![])), Some(FrontendReponse::MapDetails { .. })));
    assert!(map_details_answer(Ok(map), Ok(vec![]), Err(DbError::Error)).is_none());
}

#[test]
fn conversation_keeps_the_last_messages() {
    let mut c = Conversation::default();
    assert_eq!(c.get(3).unwrap().len(), 0);
    for (i, text) in ["a", "b", "c"].iter().enumerate() {
        c.add(ConversationMessage::new(text.to_string(), format!("user{}", i)));
    }
    let last_two: Vec<&str> = c.get(2).unwrap().iter().map(|m| m.message.as_str()).collect();
    assert_eq!(last_two, vec!["b", "c"]);
    assert_eq!(c.get(10).unwrap().len(), 3);
    assert_eq!(c.get(0).unwrap().len(), 0);
    assert_eq!(c.get(1).unwrap()[0].author, "user2");
}
