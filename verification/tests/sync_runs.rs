use preaching_partner::datatypes::{
    CongDetails, DbError, MapDetails, StreetDetails, SyncInformation, UserPublicDetails,
};
use preaching_partner::sync::{SyncAction, SyncEvent, SyncKind, SyncRun};

fn map(id: u32, image: Option<Vec<u8>>) -> MapDetails {
    MapDetails {
        id,
        name: "M".to_string(),
        image_name: "m.png".to_string(),
        assignee: 0,
        assigner: 0,
        image,
        category: 0,
        deleted: false,
    }
}

fn info() -> SyncInformation {
    SyncInformation {
        congregations: vec![CongDetails { cong_id: 1, cong_name: "C".to_string(), remove: false, updated: 0 }],
        categories: vec![],
        service_groups: vec![],
        users: vec![
            UserPublicDetails { id: 1, name: "a".to_string(), deleted: false },
            UserPublicDetails { id: 2, name: "b".to_string(), deleted: false },
        ],
        maps: vec![map(1, Some(vec![1])), map(2, None)],
        streets: vec![StreetDetails { id: 1, map_id: 1, name: "S".to_string(), deleted: false }],
        addresses: vec![],
    }
}

fn describe(a: &SyncAction) -> String {
    match a {
        SyncAction::Lookup(k, i) => format!("lookup {:?} {}", k, i),
        SyncAction::Update(k, i) => format!("update {:?} {}", k, i),
        SyncAction::Add(k, i) => format!("add {:?} {}", k, i),
        SyncAction::SaveImage(i) => format!("image {}", i),
        SyncAction::Report(k, e) => format!("report {:?} {}", k, e.to_message()),
        SyncAction::Finished => "finished".to_string(),
    }
}

#[test]
fn a_run_visits_every_item_in_order() {
    let (mut run, mut action) = SyncRun::new(&info());
    let mut trace = vec![describe(&action)];
    // Congregation 0 is found; user 0 is missing; user 1 fails to update (which ends the users);
    // map 0 is found and has an image; map 1 is missing; the street lookup fails.
    let events = vec![
        SyncEvent::LookedUp(Ok(())),
        SyncEvent::Written(Err(DbError::QueryFailure("ignored".to_string()))),
        SyncEvent::LookedUp(Err(DbError::InvalidToken(0))),
        SyncEvent::Written(Ok(())),
        SyncEvent::LookedUp(Ok(())),
        SyncEvent::Written(Err(DbError::QueryFailure("users".to_string()))),
        SyncEvent::Reported,
        SyncEvent::LookedUp(Ok(())),
        SyncEvent::Written(Ok(())),
        SyncEvent::ImageSaved,
        SyncEvent::LookedUp(Err(DbError::InvalidToken(0))),
        SyncEvent::Written(Ok(())),
        SyncEvent::LookedUp(Err(DbError::ConnectionFailure("gone".to_string()))),
        SyncEvent::Reported,
    ];
    for event in events {
        action = run.step(event);
        trace.push(describe(&action));
    }
    assert_eq!(
        trace,
        vec![
            "lookup Congregations 0",
            "update Congregations 0",
            "lookup Users 0",
            "add Users 0",
            "lookup Users 1",
            "update Users 1",
            "report Users a query failed to run: users",
            "lookup Maps 0",
            "update Maps 0",
            "image 0",
            "lookup Maps 1",
            "add Maps 1",
            "lookup Streets 0",
            "report Streets connection to db failed: gone",
            "finished",
        ]
    );
}

#[test]
fn an_empty_sync_is_finished_at_once() {
    let empty = SyncInformation {
        congregations: vec![],
        categories: vec![],
        service_groups: vec![],
        users: vec![],
        maps: vec![],
        streets: vec![],
        addresses: vec![],
    };
    let (_run, action) = SyncRun::new(&empty);
    assert!(matches!(action, SyncAction::Finished));
}

#[test]
fn failed_insertions_end_any_kind() {
    let mut i = info();
    i.users.clear();
    i.maps.clear();
    i.streets.clear();
    let (mut run, action) = SyncRun::new(&i);
    assert!(matches!(action, SyncAction::Lookup(SyncKind::Congregations, 0)));
    assert!(matches!(run.step(SyncEvent::LookedUp(Err(DbError::InvalidToken(0)))), SyncAction::Add(SyncKind::Congregations, 0)));
    assert!(matches!(
        run.step(SyncEvent::Written(Err(DbError::QueryFailure("x".to_string())))),
        SyncAction::Report(SyncKind::Congregations, DbError::QueryFailure(_))
    ));
    assert!(matches!(run.step(SyncEvent::Reported), SyncAction::Finished));
}
