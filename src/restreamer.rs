//! The restreamer backend: its configuration, the steps of one statistics fetch,
//! and the capability contract over the fetched progress.
use vstd::prelude::*;
use vstd::string::StringExecFns;

use crate::api_v3::{
    api_url, bearer, login_url, offers_local_jwt, process_url, GetAPI, GetProcess, Progress,
    RestreamerAPI, Token,
};
use crate::stream_servers::{
    decide, Bitrate, Bsl, StreamServersCommands, SwitchLogic, Telemetry,
};
use crate::switcher::{SwitchType, Triggers};
use crate::text::{decimal, digit_str, digit_text, push_decimal};

verus! {

/// Configuration of a restreamer backend.
#[derive(Clone, Debug)]
pub struct Restreamer {
    /// Restreamer base url
    pub base_url: String,
    /// Restreamer username
    pub username: String,
    /// Restreamer password
    pub password: String,
    /// ID of the restreamer channel to monitor
    pub channel: String,
}

/// A bitrate in bit/s as tenths of a kbit/s, rounded half up.
pub open spec fn tenths_kbit(bps: nat) -> nat {
    (bps + 50) / 100
}

/// `"<kbit/s with one decimal> Kbps | dropped <drop> packets"`.
pub open spec fn progress_info(bps: nat, drop: nat) -> Seq<char> {
    decimal(tenths_kbit(bps) / 10) + "."@ + digit_text(tenths_kbit(bps) % 10)
        + " Kbps | dropped "@ + decimal(drop) + " packets"@
}

/// The status line of a progress snapshot.
pub fn progress_info_string(progress: &Progress) -> (r: String)
    ensures
        r@ == progress_info(progress.bitrate_bps as nat, progress.drop as nat),
{
    let bps = progress.bitrate_bps;
    let t: u64 = if bps % 100 >= 50 {
        bps / 100 + 1
    } else {
        bps / 100
    };
    assert(t == tenths_kbit(bps as nat));
    let mut r = String::new();
    push_decimal(&mut r, t / 10);
    r.append(".");
    r.append(digit_str(t % 10));
    r.append(" Kbps | dropped ");
    push_decimal(&mut r, progress.drop);
    r.append(" packets");
    assert(r@ =~= progress_info(bps as nat, progress.drop as nat));
    r
}

impl Telemetry for Restreamer {
    type Stats = Progress;

    open spec fn bitrate_bps(stats: Progress) -> nat {
        stats.bitrate_bps as nat
    }
}

impl SwitchLogic for Restreamer {
    fn switch(&self, stats: &Option<Progress>, triggers: &Triggers) -> (r: SwitchType) {
        let reading = match stats {
            Some(s) => Some(s.bitrate_bps),
            None => None,
        };
        decide(reading, triggers)
    }
}

impl StreamServersCommands for Restreamer {
    open spec fn source_info_text(stats: Progress) -> Seq<char> {
        progress_info(stats.bitrate_bps as nat, stats.drop as nat)
    }

    fn bitrate(&self, stats: &Option<Progress>) -> (r: Bitrate) {
        let reading = match stats {
            Some(s) => Some(s.bitrate_bps),
            None => None,
        };
        Bitrate::from_reading(reading)
    }

    fn source_info(&self, stats: &Option<Progress>) -> (r: Option<String>) {
        match stats {
            Some(s) => Some(progress_info_string(s)),
            None => None,
        }
    }
}

impl Bsl for Restreamer {

}

/// Where a statistics fetch stands.
#[derive(Clone, Copy, Debug, PartialEq, Eq, Structural)]
pub enum FetchPhase {
    /// Waiting for the list of authentication methods.
    Probe,
    /// Waiting for the login's tokens.
    Login,
    /// Waiting for the process envelope.
    Process,
    /// Finished.
    Done,
}

/// Why a statistics fetch gave no snapshot.
#[derive(Clone, Copy, Debug, PartialEq, Eq, Structural)]
pub enum FetchError {
    /// The list of authentication methods could not be had.
    Probe,
    /// The API does not offer local JWT authentication.
    AuthMethod,
    /// The login failed.
    Login,
    /// The process envelope could not be had.
    Process,
    /// The process envelope holds no state.
    MissingState,
    /// The fetch had already finished.
    Closed,
}

/// What the HTTP side brings back for the last request; `Failed` for a network
/// error, an error status or a body that did not decode.
pub enum Reply {
    ApiInfo(GetAPI),
    Token(Token),
    Process(GetProcess),
    Failed,
}

/// What the HTTP side is to do next.
pub enum Request {
    /// `GET url`, decoded as [`GetAPI`].
    ApiInfo { url: String },
    /// `POST url` with the JSON object `{username, password}`, decoded as [`Token`].
    Login { url: String, username: String, password: String },
    /// `GET url` with the header `authorization`, decoded as [`GetProcess`].
    Process { url: String, authorization: String },
    /// The fetch is over.
    Finished(Result<Progress, FetchError>),
}

/// A request with its texts as character sequences.
pub enum RequestView {
    ApiInfo { url: Seq<char> },
    Login { url: Seq<char>, username: Seq<char>, password: Seq<char> },
    Process { url: Seq<char>, authorization: Seq<char> },
    Finished(Result<Progress, FetchError>),
}

impl View for Request {
    type V = RequestView;

    open spec fn view(&self) -> RequestView {
        match self {
            Request::ApiInfo { url } => RequestView::ApiInfo { url: url@ },
            Request::Login { url, username, password } => RequestView::Login {
                url: url@,
                username: username@,
                password: password@,
            },
            Request::Process { url, authorization } => RequestView::Process {
                url: url@,
                authorization: authorization@,
            },
            Request::Finished(outcome) => RequestView::Finished(*outcome),
        }
    }
}

/// One statistics fetch: a login with the configured credentials, then the
/// state of the configured channel.
pub struct StatsFetch {
    pub api: RestreamerAPI,
    pub username: String,
    pub password: String,
    pub channel: String,
    pub phase: FetchPhase,
}

/// The next phase and request of a fetch in `phase`, with the given base url,
/// credentials and channel, on `reply`.
pub open spec fn fetch_step(
    phase: FetchPhase,
    base_url: Seq<char>,
    username: Seq<char>,
    password: Seq<char>,
    channel: Seq<char>,
    reply: Reply,
) -> (FetchPhase, RequestView) {
    match phase {
        FetchPhase::Probe => match reply {
            Reply::ApiInfo(info) => if offers_local_jwt(info.auths@) {
                (
                    FetchPhase::Login,
                    RequestView::Login { url: login_url(base_url), username, password },
                )
            } else {
                (FetchPhase::Done, RequestView::Finished(Err(FetchError::AuthMethod)))
            },
            _ => (FetchPhase::Done, RequestView::Finished(Err(FetchError::Probe))),
        },
        FetchPhase::Login => match reply {
            Reply::Token(t) => (
                FetchPhase::Process,
                RequestView::Process {
                    url: process_url(base_url, channel, "state"@),
                    authorization: bearer(t.access_token@),
                },
            ),
            _ => (FetchPhase::Done, RequestView::Finished(Err(FetchError::Login))),
        },
        FetchPhase::Process => match reply {
            Reply::Process(p) => match p.state {
                Some(s) => (FetchPhase::Done, RequestView::Finished(Ok(s.progress))),
                None => (FetchPhase::Done, RequestView::Finished(Err(FetchError::MissingState))),
            },
            _ => (FetchPhase::Done, RequestView::Finished(Err(FetchError::Process))),
        },
        FetchPhase::Done => (FetchPhase::Done, RequestView::Finished(Err(FetchError::Closed))),
    }
}

/// A fetch whose replies all arrive ends, after the third, with the snapshot of
/// the process state, or with `MissingState` when the envelope holds no state; an
/// API without local JWT authentication ends it at the first reply.
pub proof fn lemma_fetch_run(
    base_url: Seq<char>,
    username: Seq<char>,
    password: Seq<char>,
    channel: Seq<char>,
    info: GetAPI,
    token: Token,
    process: GetProcess,
)
    ensures
        offers_local_jwt(info.auths@) ==> ({
            let first = fetch_step(
                FetchPhase::Probe,
                base_url,
                username,
                password,
                channel,
                Reply::ApiInfo(info),
            );
            let second = fetch_step(
                first.0,
                base_url,
                username,
                password,
                channel,
                Reply::Token(token),
            );
            let third = fetch_step(
                second.0,
                base_url,
                username,
                password,
                channel,
                Reply::Process(process),
            );
            &&& first.1 == (RequestView::Login {
                url: login_url(base_url),
                username,
                password,
            })
            &&& second.1 == (RequestView::Process {
                url: process_url(base_url, channel, "state"@),
                authorization: bearer(token.access_token@),
            })
            &&& third.0 == FetchPhase::Done
            &&& third.1 == RequestView::Finished(
                match process.state {
                    Some(state) => Ok(state.progress),
                    None => Err(FetchError::MissingState),
                },
            )
        }),
        !offers_local_jwt(info.auths@) ==> fetch_step(
            FetchPhase::Probe,
            base_url,
            username,
            password,
            channel,
            Reply::ApiInfo(info),
        ) == (FetchPhase::Done, RequestView::Finished(Err(FetchError::AuthMethod))),
{
}

impl Restreamer {
    /// Starts a statistics fetch: a fresh session, and its first request.
    pub fn start_stats(&self) -> (r: (StatsFetch, Request))
        ensures
            r.0.phase == FetchPhase::Probe,
            r.0.api.base_url@ == self.base_url@,
            r.0.api.token.access_token@.len() == 0,
            r.0.username@ == self.username@,
            r.0.password@ == self.password@,
            r.0.channel@ == self.channel@,
            r.1@ == (RequestView::ApiInfo { url: api_url(self.base_url@) }),
    {
        let api = RestreamerAPI::new(self.base_url.as_str());
        let url = api.api_url();
        let fetch = StatsFetch {
            api,
            username: self.username.clone(),
            password: self.password.clone(),
            channel: self.channel.clone(),
            phase: FetchPhase::Probe,
        };
        (fetch, Request::ApiInfo { url })
    }
}

impl StatsFetch {
    /// Takes the reply to the last request and says what comes next.
    pub fn advance(&mut self, reply: Reply) -> (r: Request)
        ensures
            (final(self).phase, r@) == fetch_step(
                old(self).phase,
                old(self).api.base_url@,
                old(self).username@,
                old(self).password@,
                old(self).channel@,
                reply,
            ),
            final(self).api.base_url == old(self).api.base_url,
            final(self).username == old(self).username,
            final(self).password == old(self).password,
            final(self).channel == old(self).channel,
            final(self).api.token == (match reply {
                Reply::Token(t) if old(self).phase == FetchPhase::Login => t,
                _ => old(self).api.token,
            }),
    {
        match self.phase {
            FetchPhase::Probe => match reply {
                Reply::ApiInfo(info) => match RestreamerAPI::check_auth_methods(&info) {
                    Ok(()) => {
                        self.phase = FetchPhase::Login;
                        Request::Login {
                            url: self.api.login_url(),
                            username: self.username.clone(),
                            password: self.password.clone(),
                        }
                    },
                    Err(_) => {
                        self.phase = FetchPhase::Done;
                        Request::Finished(Err(FetchError::AuthMethod))
                    },
                },
                _ => {
                    self.phase = FetchPhase::Done;
                    Request::Finished(Err(FetchError::Probe))
                },
            },
            FetchPhase::Login => match reply {
                Reply::Token(t) => {
                    self.api.set_token(t);
                    self.phase = FetchPhase::Process;
                    Request::Process {
                        url: self.api.process_url(self.channel.as_str(), "state"),
                        authorization: self.api.authorization(),
                    }
                },
                _ => {
                    self.phase = FetchPhase::Done;
                    Request::Finished(Err(FetchError::Login))
                },
            },
            FetchPhase::Process => {
                self.phase = FetchPhase::Done;
                match reply {
                    Reply::Process(p) => match p.state {
                        Some(s) => Request::Finished(Ok(s.progress)),
                        None => Request::Finished(Err(FetchError::MissingState)),
                    },
                    _ => Request::Finished(Err(FetchError::Process)),
                }
            },
            FetchPhase::Done => Request::Finished(Err(FetchError::Closed)),
        }
    }
}

} // verus!
