//! Wire records of the metering service, the requests the engine sends, and
//! the interpretation of the response envelope.

use vstd::prelude::*;

verus! {

/// Base address of the metering service.
pub const API_URI: &'static str = "https://api.flumewater.com";

#[verifier::external_type_specification]
#[verifier::external_body]
pub struct ExValue(serde_json::Value);

/// The decimal numeral of `n`, most significant digit first.
pub open spec fn natural_text(n: nat) -> Seq<char>
    decreases n,
{
    if n < 10 {
        seq![((n + 48) as u8) as char]
    } else {
        natural_text(n / 10) + seq![((n % 10 + 48) as u8) as char]
    }
}

/// The decimal numeral of `i`, with a leading `-` when negative.
pub open spec fn decimal_text(i: int) -> Seq<char> {
    if i < 0 {
        seq!['-'] + natural_text((-i) as nat)
    } else {
        natural_text(i as nat)
    }
}

/// Relies on `i64`'s `Display` (through `ToString`): the plain decimal numeral.
#[verifier::external_body]
fn decimal(i: i64) -> (r: String)
    ensures
        r@ == decimal_text(i as int),
{
    i.to_string()
}


/// Body of the password grant that opens a session.
#[derive(Clone, Debug)]
pub struct AccessToken {
    pub grant_type: String,
    pub client_id: String,
    pub client_secret: String,
    pub username: String,
    pub password: String,
}

/// Body of the refresh grant that renews a session.
#[derive(Clone, Debug)]
pub struct RefreshToken {
    pub grant_type: String,
    pub refresh_token: String,
    pub client_id: String,
    pub client_secret: String,
}

/// A credential as the service hands it out; `expires_in` is in seconds.
#[derive(Clone, Debug)]
pub struct Token {
    pub token_type: String,
    pub access_token: String,
    pub expires_in: u64,
    pub refresh_token: String,
}

#[derive(Clone, Debug)]
pub struct User {
    pub id: i64,
    pub email_address: String,
    pub first_name: String,
    pub phone: String,
    pub status: String,
    pub user_type: String,
}

#[derive(Clone, Debug)]
pub struct UsageProfile {
    pub id: u64,
    pub score: u64,
    pub residents: String,
    pub bathrooms: String,
    pub irrigation: String,
    pub irrigation_freq: String,
    pub irrigation_max_cycle: u64,
    pub has_pool: bool,
}

#[derive(Clone, Debug)]
pub struct Location {
    pub id: u64,
    pub name: String,
    pub primary_location: bool,
    pub address: String,
    pub address_2: String,
    pub city: String,
    pub state: String,
    pub postal_code: String,
    pub country: String,
    pub tz: String,
    pub installation: String,
    pub away_mode: bool,
    pub usage_profile: UsageProfile,
    pub user: Option<User>,
}

#[derive(Clone, Debug)]
pub struct Bridge {
    pub id: String,
    pub last_seen: String,
    pub connected: bool,
    pub supports_ap: bool,
    pub product: String,
    pub user: Option<User>,
    pub location: Option<Location>,
}

#[derive(Clone, Debug)]
pub struct Sensor {
    pub id: String,
    pub bridge_id: String,
    pub oriented: bool,
    pub last_seen: String,
    pub connected: bool,
    pub battery_level: String,
    pub product: String,
    pub user: Option<User>,
    pub location: Option<Location>,
}

#[derive(Clone, Copy, Debug, PartialEq, Eq, Structural)]
pub enum BudgetPeriod {
    DAILY,
    WEEKLY,
    MONTHLY,
}

/// The label under which a budget period is published.
pub open spec fn period_text(p: BudgetPeriod) -> Seq<char> {
    match p {
        BudgetPeriod::DAILY => "daily"@,
        BudgetPeriod::WEEKLY => "weekly"@,
        BudgetPeriod::MONTHLY => "monthly"@,
    }
}

impl BudgetPeriod {
    pub fn to_string(&self) -> (r: String)
        ensures
            r@ == period_text(*self),
    {
        match self {
            BudgetPeriod::DAILY => String::from_str("daily"),
            BudgetPeriod::WEEKLY => String::from_str("weekly"),
            BudgetPeriod::MONTHLY => String::from_str("monthly"),
        }
    }
}

/// A budget of a sensor. `value` and `thresholds` are in gallons; `actual` is
/// the volume used in the period, in whatever numeric form the caller reads it.
#[derive(Clone, Debug)]
pub struct Budget<V> {
    pub id: u64,
    pub name: String,
    pub period: BudgetPeriod,
    pub value: u64,
    pub thresholds: Vec<u64>,
    pub actual: V,
}

/// One bucket of a usage query's answer.
#[derive(Clone, Debug)]
pub struct QueryResult<V> {
    pub value: V,
}

#[derive(Clone, Copy, Debug, PartialEq, Eq, Structural)]
pub enum QueryBucket {
    MIN,
    HR,
    DAY,
    MON,
    YR,
}

#[derive(Clone, Copy, Debug, PartialEq, Eq, Structural)]
pub enum QueryOperation {
    SUM,
    AVG,
    MIN,
    MAX,
    CNT,
}

#[derive(Clone, Copy, Debug, PartialEq, Eq, Structural)]
pub enum QuerySortDirection {
    ASC,
    DESC,
}

#[allow(non_camel_case_types)]
#[derive(Clone, Copy, Debug, PartialEq, Eq, Structural)]
pub enum QueryUnits {
    GALLONS,
    LITERS,
    CUBIC_FEET,
    CUBIC_METERS,
}

/// `q` asks for the usage summed per minute, in the sensor's own unit, from
/// wall-clock time `since` to `until`, under request id `request_id`.
pub open spec fn is_usage_query(q: Query, request_id: Seq<char>, since: Seq<char>, until: Seq<char>) -> bool {
    &&& q.request_id@ == request_id
    &&& q.bucket == QueryBucket::MIN
    &&& q.since_datetime@ == since
    &&& q.until_datetime matches Some(u) && u@ == until
    &&& q.group_multiplier is None
    &&& q.operation == Some(QueryOperation::SUM)
    &&& q.sort_direction is None
    &&& q.units is None
}

/// A usage query; the datetimes are local wall-clock times `YYYY-MM-DD hh:mm:ss`.
#[derive(Clone, Debug)]
pub struct Query {
    pub request_id: String,
    pub bucket: QueryBucket,
    pub since_datetime: String,
    pub until_datetime: Option<String>,
    pub group_multiplier: Option<u64>,
    pub operation: Option<QueryOperation>,
    pub sort_direction: Option<QuerySortDirection>,
    pub units: Option<QueryUnits>,
}

impl Default for Query {
    fn default() -> (r: Query)
        ensures
            r.request_id@ == Seq::<char>::empty(),
            r.bucket == QueryBucket::MIN,
            r.since_datetime@ == Seq::<char>::empty(),
            r.until_datetime is None,
            r.group_multiplier is None,
            r.operation is None,
            r.sort_direction is None,
            r.units is None,
    {
        Query {
            request_id: String::new(),
            bucket: QueryBucket::MIN,
            since_datetime: String::new(),
            until_datetime: None,
            group_multiplier: None,
            operation: None,
            sort_direction: None,
            units: None,
        }
    }
}

/// Body of a usage query request.
#[derive(Clone, Debug)]
pub struct Queries {
    pub queries: Vec<Query>,
}

/// One payload record of the response envelope. Query results map a request
/// id to its buckets; each id stands at most once.
#[derive(Clone, Debug)]
pub enum Data<V> {
    Bridge(Bridge),
    Budget(Budget<V>),
    Sensor(Sensor),
    Token(Token),
    User(User),
    QueryResults(Vec<(String, Vec<QueryResult<V>>)>),
}

#[derive(Clone, Debug)]
pub enum Device {
    Bridge(Bridge),
    Sensor(Sensor),
}

/// The envelope every answer of the service comes in.
#[derive(Debug)]
pub struct Response<V> {
    pub success: bool,
    pub code: u64,
    pub message: String,
    pub http_code: u64,
    pub http_message: String,
    pub detailed: serde_json::Value,
    pub data: Vec<Data<V>>,
    pub count: u64,
    pub pagination: Option<bool>,
}

/// How a call to the service failed.
#[derive(Clone, Debug)]
pub enum ApiError {
    /// The network exchange itself failed; the flags say whether it timed
    /// out, could not connect, or failed while sending the request.
    Transport { timeout: bool, connect: bool, request: bool, message: String },
    /// The answer could not be read as an envelope.
    Protocol(String),
    /// The envelope reports `success = false`.
    Application(String),
    /// The envelope does not hold the payload the call expects.
    Shape(String),
    /// A record cannot be turned into the domain model.
    Domain(String),
    /// The engine was driven out of order.
    Internal(String),
}

#[derive(Clone, Copy, Debug, PartialEq, Eq, Structural)]
pub enum Method {
    Get,
    Post,
}

/// What goes in a request body, to be encoded as JSON.
#[derive(Debug)]
pub enum Body {
    Authenticate(AccessToken),
    Refresh(RefreshToken),
    Query(Queries),
}

/// A request to the service: `name` labels it in the request metrics, and
/// `access_token` is sent as a bearer credential when present.
#[derive(Debug)]
pub struct Request {
    pub name: String,
    pub method: Method,
    pub uri: String,
    pub access_token: Option<String>,
    pub body: Option<Body>,
}


/// Path of the device listing of a user, locations included.
pub open spec fn devices_path(user_id: int) -> Seq<char> {
    "/users/"@ + decimal_text(user_id) + "/devices?location=true"@
}

/// Path of `leaf` under one device of a user.
pub open spec fn device_path(user_id: int, sensor_id: Seq<char>, leaf: Seq<char>) -> Seq<char> {
    "/users/"@ + decimal_text(user_id) + "/devices/"@ + sensor_id + leaf
}

impl Request {
    /// A GET of `path`, labelled `name`, that carries `access_token`.
    pub open spec fn is_get(self, name: Seq<char>, path: Seq<char>, access_token: Seq<char>) -> bool {
        &&& self.name@ == name
        &&& self.method is Get
        &&& self.uri@ == API_URI@ + path
        &&& self.access_token matches Some(t) && t@ == access_token
        &&& self.body is None
    }

    /// The usage query of sensor `sensor_id` from wall-clock time `since` to
    /// `until`, made with `access_token` for user `user_id`.
    pub open spec fn is_usage_request(
        self,
        access_token: Seq<char>,
        user_id: int,
        sensor_id: Seq<char>,
        since: Seq<char>,
        until: Seq<char>,
    ) -> bool {
        &&& self.is_post("query"@, device_path(user_id, sensor_id, "/query"@), Some(access_token))
        &&& self.body matches Some(Body::Query(b)) && {
            &&& b.queries@.len() == 1
            &&& is_usage_query(b.queries@[0], sensor_id, since, until)
        }
    }

    /// A POST of `path`, labelled `name`, with a body and an optional bearer credential.
    pub open spec fn is_post(self, name: Seq<char>, path: Seq<char>, access_token: Option<Seq<char>>) -> bool {
        &&& self.name@ == name
        &&& self.method is Post
        &&& self.uri@ == API_URI@ + path
        &&& match (self.access_token, access_token) {
            (Some(t), Some(a)) => t@ == a,
            (None, None) => true,
            _ => false,
        }
        &&& self.body is Some
    }
}

fn uri(path: String) -> (r: String)
    ensures
        r@ == API_URI@ + path@,
{
    String::from_str(API_URI).concat(path.as_str())
}

/// The password grant that opens a session.
pub fn authenticate_request(
    client_id: &String,
    client_secret: &String,
    username: &String,
    password: &String,
) -> (r: Request)
    ensures
        r.is_post("authenticate"@, "/oauth/token"@, None),
        r.body matches Some(Body::Authenticate(b)) && {
            &&& b.grant_type@ == "password"@
            &&& b.client_id@ == client_id@
            &&& b.client_secret@ == client_secret@
            &&& b.username@ == username@
            &&& b.password@ == password@
        },
{
    let body = AccessToken {
        grant_type: String::from_str("password"),
        client_id: client_id.clone(),
        client_secret: client_secret.clone(),
        username: username.clone(),
        password: password.clone(),
    };
    Request {
        name: String::from_str("authenticate"),
        method: Method::Post,
        uri: uri(String::from_str("/oauth/token")),
        access_token: None,
        body: Some(Body::Authenticate(body)),
    }
}

/// The refresh grant that trades `refresh_token` for a new credential.
pub fn refresh_request(client_id: &String, client_secret: &String, refresh_token: &String) -> (r:
    Request)
    ensures
        r.is_post("refresh token"@, "/oauth/token"@, None),
        r.body matches Some(Body::Refresh(b)) && {
            &&& b.grant_type@ == "refresh_token"@
            &&& b.refresh_token@ == refresh_token@
            &&& b.client_id@ == client_id@
            &&& b.client_secret@ == client_secret@
        },
{
    let body = RefreshToken {
        grant_type: String::from_str("refresh_token"),
        refresh_token: refresh_token.clone(),
        client_id: client_id.clone(),
        client_secret: client_secret.clone(),
    };
    Request {
        name: String::from_str("refresh token"),
        method: Method::Post,
        uri: uri(String::from_str("/oauth/token")),
        access_token: None,
        body: Some(Body::Refresh(body)),
    }
}

/// Resolves the user the credential belongs to.
pub fn identity_request(access_token: &String) -> (r: Request)
    ensures
        r.is_get("user id"@, "/me"@, access_token@),
{
    Request {
        name: String::from_str("user id"),
        method: Method::Get,
        uri: uri(String::from_str("/me")),
        access_token: Some(access_token.clone()),
        body: None,
    }
}

/// Lists the devices of a user, with their locations.
pub fn devices_request(access_token: &String, user_id: i64) -> (r: Request)
    ensures
        r.is_get("devices"@, devices_path(user_id as int), access_token@),
{
    let path = String::from_str("/users/").concat(decimal(user_id).as_str()).concat(
        "/devices?location=true",
    );
    Request {
        name: String::from_str("devices"),
        method: Method::Get,
        uri: uri(path),
        access_token: Some(access_token.clone()),
        body: None,
    }
}

fn device_path_of(user_id: i64, sensor_id: &String, leaf: &str) -> (r: String)
    ensures
        r@ == device_path(user_id as int, sensor_id@, leaf@),
{
    String::from_str("/users/").concat(decimal(user_id).as_str()).concat("/devices/").concat(
        sensor_id.as_str(),
    ).concat(leaf)
}

/// Lists the budgets of one sensor.
pub fn budgets_request(access_token: &String, user_id: i64, sensor_id: &String) -> (r: Request)
    ensures
        r.is_get("budgets"@, device_path(user_id as int, sensor_id@, "/budgets"@), access_token@),
{
    Request {
        name: String::from_str("budgets"),
        method: Method::Get,
        uri: uri(device_path_of(user_id, sensor_id, "/budgets")),
        access_token: Some(access_token.clone()),
        body: None,
    }
}

/// Runs `query` against one sensor.
pub fn query_request(access_token: &String, user_id: i64, sensor_id: &String, query: Query) -> (r:
    Request)
    ensures
        r.is_post(
            "query"@,
            device_path(user_id as int, sensor_id@, "/query"@),
            Some(access_token@),
        ),
        r.body matches Some(Body::Query(b)) && b.queries@ == seq![query],
{
    Request {
        name: String::from_str("query"),
        method: Method::Post,
        uri: uri(device_path_of(user_id, sensor_id, "/query")),
        access_token: Some(access_token.clone()),
        body: Some(Body::Query(Queries { queries: vec![query] })),
    }
}

/// The envelope as the engine accepts it: a failed exchange stays a
/// failure, and an envelope with `success = false` becomes an application
/// error carrying its message.
pub open spec fn accepted<V>(outcome: Result<Response<V>, ApiError>) -> Result<Response<V>, ApiError> {
    match outcome {
        Err(e) => Err(e),
        Ok(r) => if r.success {
            Ok(r)
        } else {
            Err(ApiError::Application(r.message))
        },
    }
}

/// The first payload record, which single-record answers are read from.
pub open spec fn first_datum<V>(r: Response<V>) -> Option<Data<V>> {
    if r.data@.len() > 0 {
        Some(r.data@[0])
    } else {
        None
    }
}

pub open spec fn device_of<V>(d: Data<V>) -> Option<Device> {
    match d {
        Data::Bridge(b) => Some(Device::Bridge(b)),
        Data::Sensor(s) => Some(Device::Sensor(s)),
        _ => None,
    }
}

pub open spec fn budget_of<V>(d: Data<V>) -> Option<Budget<V>> {
    match d {
        Data::Budget(b) => Some(b),
        _ => None,
    }
}

fn accept<V>(outcome: Result<Response<V>, ApiError>) -> (r: Result<Response<V>, ApiError>)
    ensures
        r == accepted(outcome),
{
    match outcome {
        Err(e) => Err(e),
        Ok(resp) => if resp.success {
            Ok(resp)
        } else {
            Err(ApiError::Application(resp.message))
        },
    }
}

fn take_first<V>(data: Vec<Data<V>>) -> (r: Option<Data<V>>)
    ensures
        r == (if data@.len() > 0 {
            Some(data@[0])
        } else {
            None::<Data<V>>
        }),
{
    let mut data = data;
    if data.len() > 0 {
        Some(data.remove(0))
    } else {
        None
    }
}

fn shape(message: &str) -> (r: ApiError)
    ensures
        r is Shape,
{
    ApiError::Shape(String::from_str(message))
}

/// How a call that did not yield what it asked for is reported: the
/// exchange's own failure is handed on unchanged; a well-formed envelope
/// without the expected payload is a shape error, and a record that cannot
/// enter the domain model a domain error.
pub open spec fn reported<V>(outcome: Result<Response<V>, ApiError>, e: ApiError) -> bool {
    match accepted(outcome) {
        Err(x) => e == x,
        Ok(_) => e is Shape || e is Domain,
    }
}

/// The user id an answer to an identity request carries, if it carries one.
pub open spec fn identified<V>(outcome: Result<Response<V>, ApiError>) -> Option<i64> {
    match accepted(outcome) {
        Ok(resp) => match first_datum(resp) {
            Some(Data::User(u)) => Some(u.id),
            _ => None,
        },
        Err(_) => None,
    }
}

/// The devices an answer to a device listing carries, if every record is one.
pub open spec fn listed<V>(outcome: Result<Response<V>, ApiError>) -> Option<Seq<Device>> {
    match accepted(outcome) {
        Ok(resp) => if forall|i: int|
            0 <= i < resp.data@.len() ==> (#[trigger] device_of(resp.data@[i])) is Some {
            Some(resp.data@.map_values(|d: Data<V>| device_of(d)->Some_0))
        } else {
            None
        },
        Err(_) => None,
    }
}

/// The budgets an answer to a budget listing carries, if every record is one.
pub open spec fn budget_list<V>(outcome: Result<Response<V>, ApiError>) -> Option<Seq<Budget<V>>> {
    match accepted(outcome) {
        Ok(resp) => if forall|i: int|
            0 <= i < resp.data@.len() ==> (#[trigger] budget_of(resp.data@[i])) is Some {
            Some(resp.data@.map_values(|d: Data<V>| budget_of(d)->Some_0))
        } else {
            None
        },
        Err(_) => None,
    }
}

/// The usage an answer to query `request_id` reports, if it reports one.
pub open spec fn usage_found<V>(outcome: Result<Response<V>, ApiError>, request_id: Seq<char>) -> Option<Option<V>> {
    match accepted(outcome) {
        Ok(resp) => match first_datum(resp) {
            Some(Data::QueryResults(entries)) => usage_in(entries@, request_id),
            _ => None,
        },
        Err(_) => None,
    }
}

/// The credential an answer to a grant carries, if it carries one.
pub open spec fn granted<V>(outcome: Result<Response<V>, ApiError>) -> Option<Token> {
    match accepted(outcome) {
        Ok(resp) => match first_datum(resp) {
            Some(Data::Token(t)) => Some(t),
            _ => None,
        },
        Err(_) => None,
    }
}

/// The failure an answer without a credential is reported as: the
/// exchange's own failure, else a shape error.
pub open spec fn grant_failure<V>(outcome: Result<Response<V>, ApiError>, r: ApiError) -> bool {
    match accepted(outcome) {
        Err(e) => r == e,
        Ok(_) => r is Shape,
    }
}

/// The credential in an answer to a grant.
pub fn token_from<V>(outcome: Result<Response<V>, ApiError>) -> (r: Result<Token, ApiError>)
    ensures
        match accepted(outcome) {
            Err(e) => r == Err::<Token, ApiError>(e),
            Ok(resp) => match first_datum(resp) {
                Some(Data::Token(t)) => r == Ok::<Token, ApiError>(t),
                _ => r matches Err(ApiError::Shape(_)),
            },
        },
{
    match accept(outcome) {
        Err(e) => Err(e),
        Ok(resp) => match take_first(resp.data) {
            Some(Data::Token(t)) => Ok(t),
            _ => Err(shape("unexpected response type while requesting a token")),
        },
    }
}

/// The user id in an answer to an identity request.
pub fn user_id_from<V>(outcome: Result<Response<V>, ApiError>) -> (r: Result<i64, ApiError>)
    ensures
        match accepted(outcome) {
            Err(e) => r == Err::<i64, ApiError>(e),
            Ok(resp) => match first_datum(resp) {
                Some(Data::User(u)) => r == Ok::<i64, ApiError>(u.id),
                _ => r matches Err(ApiError::Shape(_)),
            },
        },
        match identified(outcome) {
            Some(id) => r == Ok::<i64, ApiError>(id),
            None => r matches Err(e) && reported(outcome, e),
        },
{
    match accept(outcome) {
        Err(e) => Err(e),
        Ok(resp) => match take_first(resp.data) {
            Some(Data::User(u)) => Ok(u.id),
            _ => Err(shape("could not find user in response")),
        },
    }
}

/// The devices in an answer to a device listing; every record must be a
/// bridge or a sensor.
pub fn devices_from<V>(outcome: Result<Response<V>, ApiError>) -> (r: Result<Vec<Device>, ApiError>)
    ensures
        match accepted(outcome) {
            Err(e) => r == Err::<Vec<Device>, ApiError>(e),
            Ok(resp) => if forall|i: int|
                0 <= i < resp.data@.len() ==> (#[trigger] device_of(resp.data@[i])) is Some {
                &&& r matches Ok(ds)
                &&& ds@.len() == resp.data@.len()
                &&& forall|i: int| 0 <= i < ds@.len() ==> Some(ds@[i]) == device_of(resp.data@[i])
            } else {
                r matches Err(ApiError::Shape(_))
            },
        },
        match listed(outcome) {
            Some(ws) => r matches Ok(ds) && ds@ == ws,
            None => r matches Err(e) && reported(outcome, e),
        },
{
    let resp = match accept(outcome) {
        Err(e) => return Err(e),
        Ok(resp) => resp,
    };
    let ghost orig = resp.data@;
    let mut data = resp.data;
    let mut out: Vec<Device> = Vec::new();
    while data.len() > 0
        invariant
            accepted(outcome) matches Ok(rr) && rr.data@ == orig,
            out@.len() + data@.len() == orig.len(),
            data@ == orig.subrange(out@.len() as int, orig.len() as int),
            forall|i: int| 0 <= i < out@.len() ==> Some(out@[i]) == device_of(orig[i]),
        decreases data@.len(),
    {
        let ghost k = out@.len() as int;
        let d = data.remove(0);
        assert(d == orig[k]);
        assert(data@ =~= orig.subrange(k + 1, orig.len() as int));
        match d {
            Data::Bridge(b) => out.push(Device::Bridge(b)),
            Data::Sensor(s) => out.push(Device::Sensor(s)),
            _ => {
                assert(device_of(orig[k]) is None);
                assert(!(forall|i: int| 0 <= i < orig.len() ==> (#[trigger] device_of(orig[i])) is Some));
                return Err(shape("unable to find device in response"));
            },
        }
    }
    assert(out@ =~= orig.map_values(|d: Data<V>| device_of(d)->Some_0));
    Ok(out)
}

/// The budgets in an answer to a budget listing; every record must be a budget.
pub fn budgets_from<V>(outcome: Result<Response<V>, ApiError>) -> (r: Result<Vec<Budget<V>>, ApiError>)
    ensures
        match accepted(outcome) {
            Err(e) => r == Err::<Vec<Budget<V>>, ApiError>(e),
            Ok(resp) => if forall|i: int|
                0 <= i < resp.data@.len() ==> (#[trigger] budget_of(resp.data@[i])) is Some {
                &&& r matches Ok(bs)
                &&& bs@.len() == resp.data@.len()
                &&& forall|i: int| 0 <= i < bs@.len() ==> Some(bs@[i]) == budget_of(resp.data@[i])
            } else {
                r matches Err(ApiError::Shape(_))
            },
        },
        match budget_list(outcome) {
            Some(bs) => r matches Ok(v) && v@ == bs,
            None => r matches Err(e) && reported(outcome, e),
        },
{
    let resp = match accept(outcome) {
        Err(e) => return Err(e),
        Ok(resp) => resp,
    };
    let ghost orig = resp.data@;
    let mut data = resp.data;
    let mut out: Vec<Budget<V>> = Vec::new();
    while data.len() > 0
        invariant
            accepted(outcome) matches Ok(rr) && rr.data@ == orig,
            out@.len() + data@.len() == orig.len(),
            data@ == orig.subrange(out@.len() as int, orig.len() as int),
            forall|i: int| 0 <= i < out@.len() ==> Some(out@[i]) == budget_of(orig[i]),
        decreases data@.len(),
    {
        let ghost k = out@.len() as int;
        let d = data.remove(0);
        assert(d == orig[k]);
        assert(data@ =~= orig.subrange(k + 1, orig.len() as int));
        match d {
            Data::Budget(b) => out.push(b),
            _ => {
                assert(budget_of(orig[k]) is None);
                assert(!(forall|i: int| 0 <= i < orig.len() ==> (#[trigger] budget_of(orig[i])) is Some));
                return Err(shape("unable to find budget in response"));
            },
        }
    }
    assert(out@ =~= orig.map_values(|d: Data<V>| budget_of(d)->Some_0));
    Ok(out)
}


/// The volume the answer to usage query `request_id` reports: the first
/// bucket's value, or `None` when the query matched no samples (zero usage).
/// An answer without results for `request_id` is a shape error.
pub open spec fn usage_in<V>(entries: Seq<(String, Vec<QueryResult<V>>)>, request_id: Seq<char>) -> Option<Option<V>> {
    if exists|j: int| 0 <= j < entries.len() && (#[trigger] entries[j]).0@ == request_id {
        let j = choose|j: int|
            0 <= j < entries.len() && (#[trigger] entries[j]).0@ == request_id && forall|k: int|
                0 <= k < j ==> (#[trigger] entries[k]).0@ != request_id;
        let buckets = entries[j].1@;
        Some(
            if buckets.len() > 0 {
                Some(buckets[0].value)
            } else {
                None
            },
        )
    } else {
        None
    }
}

/// Reads the usage reported for query `request_id`.
pub fn query_value_from<V>(outcome: Result<Response<V>, ApiError>, request_id: &String) -> (r: Result<
    Option<V>,
    ApiError,
>)
    ensures
        match accepted(outcome) {
            Err(e) => r == Err::<Option<V>, ApiError>(e),
            Ok(resp) => match first_datum(resp) {
                Some(Data::QueryResults(entries)) => match usage_in(entries@, request_id@) {
                    Some(v) => r == Ok::<Option<V>, ApiError>(v),
                    None => r matches Err(ApiError::Shape(_)),
                },
                _ => r matches Err(ApiError::Shape(_)),
            },
        },
        match usage_found(outcome, request_id@) {
            Some(v) => r == Ok::<Option<V>, ApiError>(v),
            None => r matches Err(e) && reported(outcome, e),
        },
{
    let resp = match accept(outcome) {
        Err(e) => return Err(e),
        Ok(resp) => resp,
    };
    let mut entries = match take_first(resp.data) {
        Some(Data::QueryResults(entries)) => entries,
        _ => return Err(shape("unexpected response type querying sensor")),
    };
    let ghost orig = entries@;
    let mut j: usize = 0;
    while j < entries.len()
        invariant
            accepted(outcome) matches Ok(rr) && first_datum(rr) matches Some(
                Data::QueryResults(es),
            ) && es@ == orig,
            entries@ == orig,
            j <= orig.len(),
            forall|k: int| 0 <= k < j ==> (#[trigger] orig[k]).0@ != request_id@,
        decreases orig.len() - j,
    {
        if entries[j].0 == *request_id {
            let (_, mut buckets) = entries.remove(j);
            let ghost chosen = choose|i: int|
                0 <= i < orig.len() && (#[trigger] orig[i]).0@ == request_id@ && forall|k: int|
                    0 <= k < i ==> (#[trigger] orig[k]).0@ != request_id@;
            assert(0 <= j < orig.len() && orig[j as int].0@ == request_id@);
            assert(chosen == j as int) by {
                if chosen < j {
                    assert(orig[chosen].0@ != request_id@);
                } else if chosen > j {
                    assert(orig[j as int].0@ != request_id@);
                }
            }
            if buckets.len() > 0 {
                return Ok(Some(buckets.remove(0).value));
            } else {
                return Ok(None);
            }
        }
        j = j + 1;
    }
    Err(shape("missing query result"))
}

} // verus!
