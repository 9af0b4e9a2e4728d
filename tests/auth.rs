use ddb::auth::{
    ApiKey, Auth, AuthError, CredentialFile, GcpAuthToken, Provider, ServiceAccountFailure, Setup,
    SetupEvent, TokenSource,
};

fn text(s: &str) -> String {
    s.to_string()
}

fn file(path: &str, contents: Option<&str>) -> CredentialFile {
    CredentialFile { path: text(path), contents: contents.map(|c| c.as_bytes().to_vec()) }
}

fn metadata_token() -> GcpAuthToken {
    GcpAuthToken { access_token: text("ya29.tok"), token_type: text("Bearer"), expires_in: 3599 }
}

#[test]
fn from_file_reads_project_id() {
    let k = ApiKey::from_file("/keys/dev.json", br#"{"type":"service_account","project_id":"demo-1"}"#)
        .unwrap();
    assert_eq!(k.file_path, "/keys/dev.json");
    assert_eq!(k.project_id, "demo-1");
}

#[test]
fn from_file_needs_string_project_id() {
    assert!(ApiKey::from_file("/k.json", br#"{"client_email":"a@b"}"#).is_none());
    assert!(ApiKey::from_file("/k.json", br#"{"project_id":7}"#).is_none());
    assert!(ApiKey::from_file("/k.json", b"not json").is_none());
    assert!(ApiKey::from_file("/k.json", br#"["project_id"]"#).is_none());
}

#[test]
fn lookup_prefers_home_file() {
    let home = Some(file("/home/u/dev.json", Some(r#"{"project_id":"home"}"#)));
    let env = Some(file("/etc/creds.json", Some(r#"{"project_id":"env"}"#)));
    let k = ApiKey::lookup(home, env).unwrap();
    assert_eq!(k.project_id, "home");
    assert_eq!(k.file_path, "/home/u/dev.json");
}

#[test]
fn lookup_falls_back_to_environment_file() {
    let env = Some(file("/etc/creds.json", Some(r#"{"project_id":"env"}"#)));
    let k = ApiKey::lookup(None, env.clone()).unwrap();
    assert_eq!(k.project_id, "env");
    let unreadable_home = Some(file("/home/u/dev.json", None));
    let k = ApiKey::lookup(unreadable_home, env.clone()).unwrap();
    assert_eq!(k.file_path, "/etc/creds.json");
    let invalid_home = Some(file("/home/u/dev.json", Some("{}")));
    let k = ApiKey::lookup(invalid_home, env).unwrap();
    assert_eq!(k.project_id, "env");
    assert!(ApiKey::lookup(None, None).is_none());
}

#[test]
fn metadata_token_is_bearer_without_refresh() {
    let t = metadata_token();
    assert!(t.api_key().is_none());
    let tok = t.token();
    assert_eq!(tok.access_token, "ya29.tok");
    assert_eq!(tok.refresh_token, "");
    assert_eq!(tok.token_type, "Bearer");
    assert!(tok.expires_in.is_none());
}

#[test]
fn setup_falls_back_to_metadata_service() {
    let step: Setup<u32> = Setup::start();
    let step = step.next(SetupEvent::Credentials(None));
    assert!(matches!(step, Setup::QueryProjectId(ServiceAccountFailure::NoCredentials)));
    let step = step.next(SetupEvent::ProjectId(Ok(text("meta-project"))));
    assert!(matches!(step, Setup::QueryToken(_, ref p) if p == "meta-project"));
    let step = step.next(SetupEvent::Token(Ok(metadata_token())));
    match step {
        Setup::Done(Ok(mut auth)) => {
            assert_eq!(auth.project_id, "meta-project");
            assert!(auth.service_account().is_none());
            assert!(!auth.asks_api_key());
            match auth.begin_token() {
                Ok(TokenSource::Cached(tok)) => assert_eq!(tok.access_token, "ya29.tok"),
                other => panic!("unexpected {:?}", other),
            }
        }
        _ => panic!("setup did not end with the metadata provider"),
    }
}

#[test]
fn setup_with_key_file_skips_metadata_service() {
    let key = ApiKey { file_path: text("/keys/dev.json"), project_id: text("demo-1") };
    let step: Setup<u32> = Setup::start().next(SetupEvent::Credentials(Some(key)));
    assert!(matches!(step, Setup::BuildServiceAccount(_)));
    let step = step.next(SetupEvent::ServiceAccount(Ok(17)));
    match step {
        Setup::Done(Ok(auth)) => {
            assert_eq!(auth.project_id, "demo-1");
            assert_eq!(auth.service_account(), Some(&17));
        }
        _ => panic!("setup did not end with the service-account provider"),
    }
}

#[test]
fn setup_fails_when_both_providers_fail() {
    let key = ApiKey { file_path: text("/keys/dev.json"), project_id: text("demo-1") };
    let step: Setup<u32> = Setup::start()
        .next(SetupEvent::Credentials(Some(key)))
        .next(SetupEvent::ServiceAccount(Err(text("bad key file"))))
        .next(SetupEvent::ProjectId(Err(text("no metadata server"))));
    match step {
        Setup::Done(Err(AuthError::NoProvider { service_account, metadata })) => {
            assert!(matches!(service_account, ServiceAccountFailure::KeyFile(ref e) if e == "bad key file"));
            assert_eq!(metadata, "no metadata server");
        }
        _ => panic!("expected both providers to fail"),
    }
}

#[test]
fn setup_fails_when_metadata_token_fails() {
    let step: Setup<u32> = Setup::start()
        .next(SetupEvent::Credentials(None))
        .next(SetupEvent::ProjectId(Ok(text("p"))))
        .next(SetupEvent::Token(Err(text("http client error"))));
    assert!(matches!(step, Setup::Done(Err(AuthError::NoProvider { .. }))));
}

#[test]
fn unexpected_event_leaves_step() {
    let step: Setup<u32> = Setup::start().next(SetupEvent::Token(Ok(metadata_token())));
    assert!(matches!(step, Setup::FindCredentials));
}

#[test]
fn second_concurrent_fetch_fails_at_once() {
    let mut auth = Auth { project_id: text("p"), provider: Provider::ServiceAccount(5u8), fetching: false };
    assert!(auth.asks_api_key());
    assert!(matches!(auth.begin_token(), Ok(TokenSource::FetchServiceAccount)));
    assert!(!auth.asks_api_key());
    assert!(matches!(auth.begin_token(), Err(AuthError::AlreadyBorrowed)));
    assert!(auth.fetching);
    auth.end_token();
    assert!(!auth.fetching);
    assert!(matches!(auth.begin_token(), Ok(TokenSource::FetchServiceAccount)));
}
