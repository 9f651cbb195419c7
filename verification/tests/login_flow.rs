use preaching_partner::datatypes::{FrontendReponse, ServerMessage, ServerPayload};
use preaching_partner::login::{LoginEvent, LoginFlow, LoginPhase, LoginStep};

fn answer(success: bool) -> Option<ServerMessage> {
    Some(ServerMessage {
        id: 0,
        timestamp: 10,
        payload: ServerPayload::ConfirmLogin {
            success,
            refresh_token: if success { Some([1; 32]) } else { None },
            access_token: if success { Some([2; 32]) } else { None },
        },
    })
}

fn answered(success: bool) -> LoginEvent {
    LoginEvent::Answered { name: "Ethan".to_string(), reply: answer(success) }
}

#[test]
fn stored_refresh_token_connects_at_once() {
    let mut flow = LoginFlow::new();
    assert!(matches!(flow.step(LoginEvent::Opened(Some([3; 32]))), LoginStep::AnnounceAndConnect));
    assert_eq!(flow.phase, LoginPhase::Connected);
    // Nothing after connecting connects again.
    assert!(matches!(flow.step(answered(true)), LoginStep::Ignore));
    assert!(matches!(flow.step(LoginEvent::Opened(Some([3; 32]))), LoginStep::Ignore));
    assert_eq!(flow.phase, LoginPhase::Connected);
}

#[test]
fn refused_login_keeps_waiting_then_success_connects_once() {
    let mut flow = LoginFlow::new();
    assert!(matches!(flow.step(LoginEvent::Opened(None)), LoginStep::AwaitLogin));
    assert_eq!(flow.phase, LoginPhase::LoggedOut);
    match flow.step(answered(false)) {
        LoginStep::Reply(o) => {
            assert!(!o.logged_in);
            assert!(o.save_refresh.is_none() && o.save_access.is_none());
            assert!(matches!(o.response, Some(FrontendReponse::ConfirmLogin { success: false, .. })));
        }
        _ => panic!("a refused login is answered"),
    }
    assert_eq!(flow.phase, LoginPhase::LoggedOut);
    match flow.step(LoginEvent::Answered { name: "Ethan".to_string(), reply: None }) {
        LoginStep::Reply(o) => assert!(!o.logged_in && o.response.is_none()),
        _ => panic!("a missing answer is still a reply step"),
    }
    match flow.step(answered(true)) {
        LoginStep::Reply(o) => {
            assert!(o.logged_in);
            assert_eq!(o.save_refresh, Some([1; 32]));
            assert_eq!(o.save_access, Some([2; 32]));
        }
        _ => panic!("a confirmed login is answered"),
    }
    assert_eq!(flow.phase, LoginPhase::Connected);
    assert!(matches!(flow.step(answered(true)), LoginStep::Ignore));
}

#[test]
fn answer_before_start_is_ignored() {
    let mut flow = LoginFlow::new();
    assert!(matches!(flow.step(answered(true)), LoginStep::Ignore));
    assert_eq!(flow.phase, LoginPhase::Starting);
}
