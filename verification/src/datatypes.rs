use vstd::prelude::*;

verus! {

/// A map as listed for the frontend.
#[derive(Debug, Clone)]
pub struct MapDisplayDetails {
    pub id: u32,
    pub display_name: String,
    pub file_name: String,
    pub category: u32,
}

/// Responses handed back to the frontend.
#[derive(Debug)]
pub enum FrontendReponse {
    ConfirmLogin { success: bool, name: String },
    Maps(Vec<MapDisplayDetails>),
    MapDetails { details: MapDetails, streets: Vec<StreetDetails>, addresses: Vec<AddressDetails> },
}

/// Requests coming from the frontend.
#[derive(Debug)]
pub enum FrontEndPayload {
    Login { name: String, password: String },
    MessageForServer(ClientPayload),
    GetMapDetails(u32),
    GetMaps,
}

/// A message the server sent without being asked.
#[derive(Debug, Clone)]
pub struct WsEvent {
    pub payload: ServerMessage,
}

/// A message from this client to the server.
#[derive(Debug)]
pub struct ClientMessage {
    pub id: u32,
    pub access_token: Option<[u8; 32]>,
    pub payload: ClientPayload,
}

#[derive(Debug, Clone)]
pub enum ClientPayload {
    Login { name: String, password: String },
    UpdateCheckbox { map: i32, id: i32, checked: bool },
    UpdateCheckboxDetails { map: i32, id: i32, name: String },
    RequestAccessToken([u8; 32]),
    RequestSync(u32),
}

/// A message from the server to this client.
#[derive(Debug, Clone)]
pub struct ServerMessage {
    pub id: u32,
    pub timestamp: u32,
    pub payload: ServerPayload,
}

#[derive(Debug, Clone)]
pub enum ServerPayload {
    ConfirmLogin {
        success: bool,
        refresh_token: Option<[u8; 32]>,
        access_token: Option<[u8; 32]>,
    },
    SyncInformation(SyncInformation),
    NewAccessToken([u8; 32]),
    UnknownError,
}

#[derive(Debug, Clone)]
pub struct SyncInformation {
    pub congregations: Vec<CongDetails>,
    pub categories: Vec<CategoryDetails>,
    pub service_groups: Vec<GroupDetails>,
    pub users: Vec<UserPublicDetails>,
    pub maps: Vec<MapDetails>,
    pub streets: Vec<StreetDetails>,
    pub addresses: Vec<AddressDetails>,
}

#[derive(Debug, Clone)]
pub struct CongDetails {
    pub cong_id: u32,
    pub cong_name: String,
    pub remove: bool,
    pub updated: u32,
}

#[derive(Debug, Clone)]
pub struct GroupDetails {
    pub id: u32,
    pub name: String,
    pub cong: u32,
    pub elder: u32,
    pub updated: u32,
    pub group_deleted: bool,
    pub pair_deleted: bool,
}

#[derive(Debug, Clone)]
pub struct MapDetails {
    pub id: u32,
    pub name: String,
    pub image_name: String,
    pub assignee: u32,
    pub assigner: u32,
    pub image: Option<Vec<u8>>,
    pub category: u32,
    pub deleted: bool,
}

#[derive(Debug, Clone)]
pub struct CategoryDetails {
    pub id: u32,
    pub name: String,
    pub prefix: String,
    pub congregation: u32,
    pub updated: u32,
    pub remove: bool,
}

#[derive(Debug, Clone)]
pub struct StreetDetails {
    pub id: u32,
    pub map_id: u32,
    pub name: String,
    pub deleted: bool,
}

#[derive(Debug, Clone)]
pub enum AddressTags {
    DoNotCall,
    NoJunkMail,
    Custom(String),
}

#[derive(Debug, Clone)]
pub struct AddressDetails {
    pub id: u32,
    pub street_id: u32,
    pub number: String,
    pub tags: Vec<AddressTags>,
    pub visited: bool,
    pub deleted: bool,
}

#[derive(Debug, Clone)]
pub struct UserPublicDetails {
    pub id: u32,
    pub name: String,
    pub deleted: bool,
}


/// The decimal digits of `n`, most significant first.
pub open spec fn decimal_text(n: nat) -> Seq<char>
    decreases n,
{
    if n < 10 {
        seq![(48 + n) as char]
    } else {
        decimal_text(n / 10) + seq![(48 + n % 10) as char]
    }
}

/// The text of the decimal digit `d`.
fn digit_text(d: u32) -> (text: &'static str)
    requires
        d < 10,
    ensures
        text@ == seq![(48 + d) as char],
{
    proof {
        reveal_strlit("0");
        reveal_strlit("1");
        reveal_strlit("2");
        reveal_strlit("3");
        reveal_strlit("4");
        reveal_strlit("5");
        reveal_strlit("6");
        reveal_strlit("7");
        reveal_strlit("8");
        reveal_strlit("9");
    }
    match d {
        0 => "0",
        1 => "1",
        2 => "2",
        3 => "3",
        4 => "4",
        5 => "5",
        6 => "6",
        7 => "7",
        8 => "8",
        _ => "9",
    }
}

/// The decimal text of `n`, as `Display` writes an integer: its digits,
/// most significant first, with no sign or padding.
pub(crate) fn decimal_string(n: u32) -> (text: String)
    ensures
        text@ == decimal_text(n as nat),
    decreases n,
{
    if n < 10 {
        String::from_str(digit_text(n))
    } else {
        let mut text = decimal_string(n / 10);
        text.append(digit_text(n % 10));
        text
    }
}

/// Failures of the address rows. The payloads are the texts of the
/// underlying `sqlx` and `rmp_serde` errors.
#[derive(Debug)]
pub enum AddressError {
    SqlxError(String),
    DeserialiseError(String),
}

impl AddressError {
    /// What the error says when displayed.
    pub open spec fn text(self) -> Seq<char> {
        match self {
            AddressError::DeserialiseError(e) => "something went wrong deserialising the tags: "@ + e@,
            AddressError::SqlxError(e) => "something went wrong with sqlx: "@ + e@,
        }
    }

    /// The displayed text of the error.
    pub fn to_message(&self) -> (text: String)
        ensures
            text@ == self.text(),
    {
        match self {
            AddressError::DeserialiseError(e) => {
                let mut s = String::from_str("something went wrong deserialising the tags: ");
                s.append(e.as_str());
                s
            },
            AddressError::SqlxError(e) => {
                let mut s = String::from_str("something went wrong with sqlx: ");
                s.append(e.as_str());
                s
            },
        }
    }
}

/// Failures of the database layer. The `String` payloads are the texts of
/// the underlying `sqlx` (or, for `SerialiseError`, `rmp_serde`) errors.
#[derive(Debug)]
pub enum DbError {
    InvalidLocation(String),
    InvalidToken(u32),
    InvalidRow(String),
    ConnectionFailure(String),
    QueryFailure(String),
    SerialiseError(String),
    AddressFailure(AddressError),
    UnknownError(String),
    Error,
}

impl DbError {
    /// What the error says when displayed.
    pub open spec fn text(self) -> Seq<char> {
        match self {
            DbError::InvalidLocation(e) => "db not found: "@ + e@,
            DbError::InvalidToken(n) => "token returned an invalid number of users: "@
                + decimal_text(n as nat),
            DbError::InvalidRow(e) => "an invalid row was passed to a parsing function: "@ + e@,
            DbError::ConnectionFailure(e) => "connection to db failed: "@ + e@,
            DbError::QueryFailure(e) => "a query failed to run: "@ + e@,
            DbError::SerialiseError(e) => "failed to serialise data: "@ + e@,
            DbError::AddressFailure(a) => "something went wrong with the addresses: "@ + a.text(),
            DbError::UnknownError(e) => "an unknown error occured: "@ + e@,
            DbError::Error => "a dberror::error error occured"@,
        }
    }

    /// The displayed text of the error.
    pub fn to_message(&self) -> (text: String)
        ensures
            text@ == self.text(),
    {
        let (prefix, rest): (&str, String) = match self {
            DbError::InvalidLocation(e) => ("db not found: ", e.clone()),
            DbError::InvalidToken(n) => (
                "token returned an invalid number of users: ",
                decimal_string(*n),
            ),
            DbError::InvalidRow(e) => ("an invalid row was passed to a parsing function: ", e.clone()),
            DbError::ConnectionFailure(e) => ("connection to db failed: ", e.clone()),
            DbError::QueryFailure(e) => ("a query failed to run: ", e.clone()),
            DbError::SerialiseError(e) => ("failed to serialise data: ", e.clone()),
            DbError::AddressFailure(a) => ("something went wrong with the addresses: ", a.to_message()),
            DbError::UnknownError(e) => ("an unknown error occured: ", e.clone()),
            DbError::Error => ("a dberror::error error occured", String::new()),
        };
        let mut s = String::from_str(prefix);
        s.append(rest.as_str());
        s
    }
}

} // verus!
