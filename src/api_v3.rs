//! The restreamer's HTTP API, version 3: response records, endpoint addresses and
//! the authentication rules of its client.
//!
//! Fractional quantities of the API are held in thousandths (`_milli`); a bitrate
//! is held in bit/s, which is the API's kbit/s in thousandths.
use vstd::prelude::*;
use vstd::string::StringExecFns;

verus! {

#[derive(Clone, Debug)]
pub struct MaxCleanup {
    pub max_file_age_seconds: i64,
    pub max_files: i64,
    pub pattern: String,
    pub purge_on_delete: bool,
}

#[derive(Clone, Debug)]
pub struct InputOutput {
    pub address: String,
    pub cleanup: Option<Vec<MaxCleanup>>,
    pub id: String,
    pub options: Vec<String>,
}

#[derive(Clone, Debug)]
pub struct AvStream {
    pub aqueue: i64,
    pub drop: i64,
    pub dup: i64,
    pub duplicating: bool,
    pub enc: i64,
    pub gop: String,
    pub input: Input,
    pub looping: bool,
    pub output: Output,
    pub queue: i64,
}

#[derive(Clone, Debug)]
pub struct Input {
    pub packet: i64,
    pub size_kb: i64,
    pub state: String,
    pub time: i64,
}

#[derive(Clone, Debug)]
pub struct Output {
    pub packet: i64,
    pub size_kb: i64,
    pub state: String,
    pub time: i64,
}

/// One input or output stream of a process.
#[derive(Clone, Debug)]
pub struct Stream {
    pub address: String,
    pub avstream: Option<AvStream>,
    pub bitrate_bps: u64,
    pub channels: Option<i64>,
    pub codec: String,
    pub coder: String,
    pub format: String,
    pub fps_milli: u64,
    pub frame: u64,
    pub height: Option<u64>,
    pub id: String,
    pub index: u64,
    pub layout: Option<String>,
    pub packet: u64,
    pub pix_fmt: Option<String>,
    pub pps_milli: u64,
    pub q_milli: i64,
    pub sampling_hz_milli: Option<u64>,
    pub size_kb: u64,
    pub stream: u64,
    pub type_field: Option<String>,
    pub width: Option<u64>,
}

/// The statistics snapshot of a process.
#[derive(Clone, Debug)]
pub struct Progress {
    /// Overall bitrate in bit/s.
    pub bitrate_bps: u64,
    /// Dropped packets.
    pub drop: u64,
    pub dup: u64,
    pub fps_milli: u64,
    pub frame: u64,
    pub inputs: Vec<Stream>,
    pub outputs: Vec<Stream>,
    pub packet: u64,
    pub q_milli: i64,
    pub size_kb: u64,
    pub speed: u64,
    /// Running time in milliseconds.
    pub time_ms: u64,
}

#[derive(Clone, Debug)]
pub struct Limits {
    pub cpu_usage_milli: u64,
    pub memory_mbytes_milli: u64,
    pub waitfor_seconds: u64,
}

#[derive(Clone, Debug)]
pub struct Config {
    pub autostart: bool,
    pub id: String,
    pub input: Vec<InputOutput>,
    pub limits: Limits,
    pub options: Vec<String>,
    pub output: Vec<InputOutput>,
    pub reconnect: bool,
    pub reconnect_delay_seconds: u64,
    pub reference: String,
    pub stale_timeout_seconds: u64,
    pub type_field: Option<String>,
}

#[derive(Clone, Debug)]
pub struct History {
    pub created_at: u64,
    pub log: Vec<Vec<String>>,
    pub prelude: Vec<String>,
}

#[derive(Clone, Debug)]
pub struct Report {
    pub created_at: u64,
    pub history: Vec<History>,
    pub log: Vec<Vec<String>>,
    pub prelude: Vec<String>,
}

#[derive(Clone, Debug)]
pub struct State {
    pub command: Vec<String>,
    pub cpu_usage_milli: u64,
    /// The executable (`exec` in the API).
    pub executable: String,
    pub last_logline: String,
    pub memory_bytes: u64,
    pub order: String,
    pub progress: Progress,
    pub reconnect_seconds: i64,
    pub runtime_seconds: u64,
}

#[derive(Clone, Debug)]
pub struct Version {
    pub number: String,
}

/// The envelope of `GET /api/v3/process/{id}`.
#[derive(Clone, Debug)]
pub struct GetProcess {
    pub config: Option<Config>,
    pub created_at: Option<i64>,
    pub id: Option<String>,
    pub metadata: Option<String>,
    pub reference: Option<String>,
    pub report: Option<Report>,
    pub state: Option<State>,
    /// The process type (`type` in the API).
    pub process_type: Option<String>,
}

/// The answer of `GET /api`: the application and the authentication methods it offers.
#[derive(Clone, Debug)]
pub struct GetAPI {
    pub app: String,
    pub auths: Vec<String>,
    pub version: Version,
}

/// The token pair that `POST /api/login` hands out.
#[derive(Clone, Debug)]
pub struct Token {
    pub access_token: String,
    pub refresh_token: String,
}

/// An error of the API client, with its description.
#[derive(Clone, Debug)]
pub struct APIError(pub String);

impl APIError {
    /// The error's description as shown to users.
    pub fn message(&self) -> (r: String)
        ensures
            r@ == "There is an error: "@ + self.0@,
    {
        let mut r = String::from_str("There is an error: ");
        r.append(self.0.as_str());
        r
    }
}

/// The authentication method this client uses.
pub open spec fn local_jwt() -> Seq<char> {
    "localjwt"@
}

/// Whether the API offers local JWT authentication.
pub open spec fn offers_local_jwt(auths: Seq<String>) -> bool {
    exists|i: int| 0 <= i < auths.len() && #[trigger] auths[i]@ == local_jwt()
}

/// The description of the error for an API without local JWT authentication.
pub open spec fn auth_method_message() -> Seq<char> {
    "incorrect auth method"@
}

pub open spec fn api_url(base_url: Seq<char>) -> Seq<char> {
    base_url + "/api"@
}

pub open spec fn login_url(base_url: Seq<char>) -> Seq<char> {
    base_url + "/api/login"@
}

pub open spec fn process_url(base_url: Seq<char>, id: Seq<char>, filter: Seq<char>) -> Seq<char> {
    base_url + "/api/v3/process/"@ + id + "?filter="@ + filter
}

/// The value of the `authorization` header for an access token.
pub open spec fn bearer(access_token: Seq<char>) -> Seq<char> {
    "Bearer "@ + access_token
}

/// Whether two strings hold the same characters.
fn same_text(a: &str, b: &str) -> (r: bool)
    ensures
        r <==> a@ == b@,
{
    let n = a.unicode_len();
    if n != b.unicode_len() {
        return false;
    }
    let mut i: usize = 0;
    while i < n
        invariant
            n == a@.len(),
            n == b@.len(),
            i <= n,
            forall|j: int| 0 <= j < i ==> a@[j] == b@[j],
        decreases n - i,
    {
        if a.get_char(i) != b.get_char(i) {
            return false;
        }
        i = i + 1;
    }
    assert(a@ =~= b@);
    true
}

/// The client side of the restreamer API: where it is, and the tokens of its session.
pub struct RestreamerAPI {
    pub base_url: String,
    pub token: Token,
}

impl RestreamerAPI {
    /// A client for the API at `base_url`, with empty tokens.
    pub fn new(base_url: &str) -> (r: RestreamerAPI)
        ensures
            r.base_url@ == base_url@,
            r.token.access_token@.len() == 0,
            r.token.refresh_token@.len() == 0,
    {
        RestreamerAPI {
            base_url: String::from_str(base_url),
            token: Token { access_token: String::new(), refresh_token: String::new() },
        }
    }

    /// The address that lists the API's authentication methods.
    pub fn api_url(&self) -> (r: String)
        ensures
            r@ == api_url(self.base_url@),
    {
        let mut r = self.base_url.clone();
        r.append("/api");
        r
    }

    /// The address of the login endpoint.
    pub fn login_url(&self) -> (r: String)
        ensures
            r@ == login_url(self.base_url@),
    {
        let mut r = self.base_url.clone();
        r.append("/api/login");
        r
    }

    /// The address of one process, with the response filtered to `filter`.
    pub fn process_url(&self, id: &str, filter: &str) -> (r: String)
        ensures
            r@ == process_url(self.base_url@, id@, filter@),
    {
        let mut r = self.base_url.clone();
        r.append("/api/v3/process/");
        r.append(id);
        r.append("?filter=");
        r.append(filter);
        r
    }

    /// The `authorization` header of the session.
    pub fn authorization(&self) -> (r: String)
        ensures
            r@ == bearer(self.token.access_token@),
    {
        let mut r = String::from_str("Bearer ");
        r.append(self.token.access_token.as_str());
        r
    }

    /// The first step of a login: the API must offer local JWT authentication.
    pub fn check_auth_methods(api_response: &GetAPI) -> (r: Result<(), APIError>)
        ensures
            r is Ok <==> offers_local_jwt(api_response.auths@),
            r is Err ==> r->Err_0.0@ == auth_method_message(),
    {
        let auths = &api_response.auths;
        let mut i: usize = 0;
        while i < auths.len()
            invariant
                auths@ == api_response.auths@,
                i <= auths@.len(),
                forall|j: int| 0 <= j < i ==> #[trigger] auths@[j]@ != local_jwt(),
            decreases auths@.len() - i,
        {
            if same_text(auths[i].as_str(), "localjwt") {
                assert(auths@[i as int]@ == local_jwt());
                return Ok(());
            }
            i = i + 1;
        }
        Err(APIError(String::from_str("incorrect auth method")))
    }

    /// The last step of a login: the session takes the tokens handed out.
    pub fn set_token(&mut self, token: Token)
        ensures
            final(self).base_url == old(self).base_url,
            final(self).token == token,
    {
        self.token = token;
    }
}

} // verus!
