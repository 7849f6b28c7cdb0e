use noalbs::api_v3::{
    APIError, GetAPI, GetProcess, Progress, RestreamerAPI, State, Token, Version,
};
use noalbs::restreamer::{FetchError, FetchPhase, Reply, Request, Restreamer};
use noalbs::stream_servers::{default_server_enabled, Backend, BackendKind, StreamServer};

fn restreamer() -> Restreamer {
    Restreamer {
        base_url: "http://localhost:8080".to_string(),
        username: "admin".to_string(),
        password: "pa55word".to_string(),
        channel: "main".to_string(),
    }
}

fn api_info(auths: &[&str]) -> GetAPI {
    GetAPI {
        app: "datarhei-core".to_string(),
        auths: auths.iter().map(|a| a.to_string()).collect(),
        version: Version { number: "16.0.0".to_string() },
    }
}

fn token() -> Token {
    Token { access_token: "abc".to_string(), refresh_token: "def".to_string() }
}

fn progress(bitrate_bps: u64, drop: u64) -> Progress {
    Progress {
        bitrate_bps,
        drop,
        dup: 0,
        fps_milli: 0,
        frame: 0,
        inputs: Vec::new(),
        outputs: Vec::new(),
        packet: 0,
        q_milli: 0,
        size_kb: 0,
        speed: 0,
        time_ms: 0,
    }
}

fn envelope(state: Option<State>) -> GetProcess {
    GetProcess {
        config: None,
        created_at: None,
        id: Some("main".to_string()),
        metadata: None,
        reference: None,
        report: None,
        state,
        process_type: None,
    }
}

fn state(p: Progress) -> State {
    State {
        command: Vec::new(),
        cpu_usage_milli: 0,
        executable: "ffmpeg".to_string(),
        last_logline: String::new(),
        memory_bytes: 0,
        order: "start".to_string(),
        progress: p,
        reconnect_seconds: 0,
        runtime_seconds: 0,
    }
}

#[test]
fn fetch_runs_login_then_process() {
    let (mut fetch, first) = restreamer().start_stats();
    match first {
        Request::ApiInfo { url } => assert_eq!(url, "http://localhost:8080/api"),
        _ => panic!("expected the api probe"),
    }
    match fetch.advance(Reply::ApiInfo(api_info(&["basic", "localjwt"]))) {
        Request::Login { url, username, password } => {
            assert_eq!(url, "http://localhost:8080/api/login");
            assert_eq!(username, "admin");
            assert_eq!(password, "pa55word");
        }
        _ => panic!("expected the login"),
    }
    assert_eq!(fetch.phase, FetchPhase::Login);
    match fetch.advance(Reply::Token(token())) {
        Request::Process { url, authorization } => {
            assert_eq!(url, "http://localhost:8080/api/v3/process/main?filter=state");
            assert_eq!(authorization, "Bearer abc");
        }
        _ => panic!("expected the process request"),
    }
    assert_eq!(fetch.api.token.access_token, "abc");
    match fetch.advance(Reply::Process(envelope(Some(state(progress(2_000_000, 4)))))) {
        Request::Finished(Ok(p)) => {
            assert_eq!(p.bitrate_bps, 2_000_000);
            assert_eq!(p.drop, 4);
        }
        _ => panic!("expected a snapshot"),
    }
    assert_eq!(fetch.phase, FetchPhase::Done);
    assert!(matches!(fetch.advance(Reply::Failed), Request::Finished(Err(FetchError::Closed))));
}

#[test]
fn fetch_refuses_api_without_local_jwt() {
    let (mut fetch, _) = restreamer().start_stats();
    let r = fetch.advance(Reply::ApiInfo(api_info(&["basic", "auth0"])));
    assert!(matches!(r, Request::Finished(Err(FetchError::AuthMethod))));
    assert_eq!(fetch.phase, FetchPhase::Done);
}

#[test]
fn fetch_missing_state_is_a_failure() {
    let (mut fetch, _) = restreamer().start_stats();
    fetch.advance(Reply::ApiInfo(api_info(&["localjwt"])));
    fetch.advance(Reply::Token(token()));
    let r = fetch.advance(Reply::Process(envelope(None)));
    assert!(matches!(r, Request::Finished(Err(FetchError::MissingState))));
}

#[test]
fn fetch_failures_at_each_step() {
    let (mut probe, _) = restreamer().start_stats();
    assert!(matches!(probe.advance(Reply::Failed), Request::Finished(Err(FetchError::Probe))));

    let (mut login, _) = restreamer().start_stats();
    login.advance(Reply::ApiInfo(api_info(&["localjwt"])));
    assert!(matches!(login.advance(Reply::Failed), Request::Finished(Err(FetchError::Login))));

    let (mut process, _) = restreamer().start_stats();
    process.advance(Reply::ApiInfo(api_info(&["localjwt"])));
    process.advance(Reply::Token(token()));
    assert!(matches!(process.advance(Reply::Failed), Request::Finished(Err(FetchError::Process))));
}

#[test]
fn auth_methods_need_local_jwt() {
    assert!(RestreamerAPI::check_auth_methods(&api_info(&["localjwt"])).is_ok());
    assert!(RestreamerAPI::check_auth_methods(&api_info(&["localjwt2", "jwt"])).is_err());
    let err = RestreamerAPI::check_auth_methods(&api_info(&[])).unwrap_err();
    assert_eq!(err.0, "incorrect auth method");
    assert_eq!(err.message(), "There is an error: incorrect auth method");
}

#[test]
fn api_addresses() {
    let mut api = RestreamerAPI::new("https://r.example");
    assert_eq!(api.api_url(), "https://r.example/api");
    assert_eq!(api.login_url(), "https://r.example/api/login");
    assert_eq!(api.process_url("cam", "state"), "https://r.example/api/v3/process/cam?filter=state");
    assert_eq!(api.authorization(), "Bearer ");
    api.set_token(token());
    assert_eq!(api.authorization(), "Bearer abc");
}

#[test]
fn api_error_message() {
    let e = APIError("boom".to_string());
    assert_eq!(e.message(), "There is an error: boom");
}

#[test]
fn registry_entry_defaults() {
    assert!(default_server_enabled());
    let mut entry = StreamServer::new(Backend::Restreamer(restreamer()), "main".to_string());
    assert!(entry.enabled);
    assert_eq!(entry.priority, None);
    assert!(entry.depends_on.is_none());
    assert!(entry.override_scenes.is_none());
    assert_eq!(entry.stream_server.kind(), BackendKind::Restreamer);
    let r = entry.stream_server.as_restreamer_mut().expect("a restreamer");
    r.channel = "backup".to_string();
    match &entry.stream_server {
        Backend::Restreamer(r) => assert_eq!(r.channel, "backup"),
    }
}
