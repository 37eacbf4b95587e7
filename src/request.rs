use vstd::prelude::*;
use vstd::string::StringExecFns;

use crate::payload::DecodeError;
use crate::publish::PublishError;
use crate::time::{format_rfc3339_seconds, utc_rfc3339_of};
use crate::window::Window;

verus! {

/// The process configuration, read once at start-up.
#[derive(Clone, Debug)]
pub struct Config {
    pub api_key: String,
    pub device_type: String,
    pub device_id: String,
    pub influx_db_url: String,
    pub influx_db_username: Option<String>,
    pub influx_db_password: String,
    pub influx_db_database: String,
}

/// A query parameter of the telemetry request.
#[derive(Clone, Debug)]
pub struct QueryParam {
    pub name: String,
    pub value: String,
}

/// The telemetry request for one window: the endpoint, its query and the
/// bearer token that authenticates it.
#[derive(Clone, Debug)]
pub struct FetchRequest {
    pub url: String,
    pub query: Vec<QueryParam>,
    pub bearer_token: String,
}

/// Every way in which a run can fail.
#[derive(Clone, Debug)]
pub enum PipelineError {
    /// A required configuration value is missing or invalid.
    Config { message: String },
    /// The telemetry service could not be reached.
    Transport { message: String },
    /// The telemetry service answered with a status other than 200.
    InvalidResponse { status: u16 },
    /// The body of a successful answer could not be decoded.
    Decode(DecodeError),
    /// A write to the database failed.
    Publish(PublishError),
}

pub open spec fn endpoint_url(device_type: Seq<char>, device_id: Seq<char>) -> Seq<char> {
    "https://developer-apis.awair.is/v1/users/self/devices/"@ + device_type + seq!['/'] + device_id
        + "/air-data/raw"@
}

pub open spec fn query_view(q: Seq<QueryParam>) -> Seq<(Seq<char>, Seq<char>)> {
    q.map_values(|p: QueryParam| (p.name@, p.value@))
}

/// Whether both bounds of `w` are instants that can be written as RFC 3339.
pub open spec fn window_formattable(w: Window) -> bool {
    &&& utc_rfc3339_of(w.lower as int) is Some
    &&& utc_rfc3339_of(w.upper as int) is Some
}

/// Whether `r` is the request for window `w` under `config`.
pub open spec fn is_request_for(r: FetchRequest, config: Config, w: Window) -> bool {
    &&& r.url@ == endpoint_url(config.device_type@, config.device_id@)
    &&& query_view(r.query@) == seq![
        (seq!['f', 'r', 'o', 'm'], utc_rfc3339_of(w.lower as int).unwrap()),
        (seq!['t', 'o'], utc_rfc3339_of(w.upper as int).unwrap()),
    ]
    &&& r.bearer_token@ == config.api_key@
}

impl Config {
    /// The database credentials: the user name with the configured password,
    /// when a user name is configured.
    pub fn influx_credentials(&self) -> (r: Option<(String, String)>)
        ensures
            match self.influx_db_username {
                Some(u) => r matches Some((ru, rp)) && ru@ == u@ && rp@ == self.influx_db_password@,
                None => r is None,
            },
    {
        match &self.influx_db_username {
            Some(u) => Some((u.clone(), self.influx_db_password.clone())),
            None => None,
        }
    }
}

/// The telemetry request for window `w`; `None` exactly when a bound of the
/// window lies outside the range of instants that can be written as RFC 3339.
pub fn build_fetch_request(config: &Config, w: &Window) -> (r: Option<FetchRequest>)
    ensures
        r is Some <==> window_formattable(*w),
        r matches Some(req) ==> is_request_for(req, *config, *w),
{
    let from = match format_rfc3339_seconds(w.lower) {
        Some(s) => s,
        None => {
            return None;
        },
    };
    let to = match format_rfc3339_seconds(w.upper) {
        Some(s) => s,
        None => {
            return None;
        },
    };
    let url = String::from_str("https://developer-apis.awair.is/v1/users/self/devices/").concat(
        config.device_type.as_str(),
    ).concat("/").concat(config.device_id.as_str()).concat("/air-data/raw");
    proof {
        reveal_strlit("/");
        reveal_strlit("from");
        reveal_strlit("to");
    }
    assert("/"@ =~= seq!['/']);
    assert("from"@ =~= seq!['f', 'r', 'o', 'm']);
    assert("to"@ =~= seq!['t', 'o']);
    let mut query: Vec<QueryParam> = Vec::new();
    query.push(QueryParam { name: String::from_str("from"), value: from });
    query.push(QueryParam { name: String::from_str("to"), value: to });
    assert(query_view(query@) =~= seq![
        (seq!['f', 'r', 'o', 'm'], utc_rfc3339_of(w.lower as int).unwrap()),
        (seq!['t', 'o'], utc_rfc3339_of(w.upper as int).unwrap()),
    ]);
    Some(FetchRequest { url, query, bearer_token: config.api_key.clone() })
}

/// Accepts status 200 and nothing else; any other status is an
/// `InvalidResponse` carrying it, and the body is then not decoded.
pub fn check_status(status: u16) -> (r: Result<(), PipelineError>)
    ensures
        r is Ok <==> status == 200,
        r is Err ==> (r matches Err(PipelineError::InvalidResponse { status: s }) && s == status),
{
    if status == 200 {
        Ok(())
    } else {
        Err(PipelineError::InvalidResponse { status })
    }
}

} // verus!
