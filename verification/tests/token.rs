use zeebest::client::camunda_cloud_token_provider::{
    cloud_token_from_response, default_cloud_token_path, needs_authentication, AccessRequest, AccessResponse, CamundaCloudTokenProvider,
    CloudToken, TokenPath,
};
use zeebest::client::camunda_cloud_token_provider::default_cache_path;
use zeebest::client::token_fetch::{token_step, token_step_now, TokenAction, TokenEvent, TokenFetch};
use zeebest::Error;

fn response(token: Option<&str>, expires_in: Option<u64>) -> AccessResponse {
    AccessResponse {
        access_token: token.map(|t| t.to_string()),
        expires_in,
        token_type: Some("Bearer".to_string()),
        scope: None,
    }
}

#[test]
fn access_request_uses_client_credentials() {
    let r = AccessRequest::new("id".to_string(), "secret".to_string(), "zeebe.camunda.io".to_string());
    assert_eq!(r.client_id, "id");
    assert_eq!(r.client_secret, "secret");
    assert_eq!(r.audience, "zeebe.camunda.io");
    assert_eq!(r.grant_type, "client_credentials");
}

#[test]
fn token_is_overdue_once_its_due_date_is_past() {
    let t = CloudToken::new("t".to_string(), 1000);
    assert!(!t.is_overdue_at(999));
    assert!(!t.is_overdue_at(1000));
    assert!(t.is_overdue_at(1001));
    assert!(CloudToken::new("t".to_string(), 0).is_overdue());
    assert!(!CloudToken::new("t".to_string(), u128::MAX).is_overdue());
}

#[test]
fn token_is_due_after_its_lifetime() {
    let t = cloud_token_from_response(response(Some("abc"), Some(3600)), 1_000_000).unwrap();
    assert_eq!(t.token, "abc");
    assert_eq!(t.due_date, 1_000_000 + 3_600_000);
}

#[test]
fn answer_without_token_or_lifetime_is_refused() {
    assert!(matches!(cloud_token_from_response(response(None, Some(1)), 0), Err(Error::InvalidCloudToken)));
    assert!(matches!(cloud_token_from_response(response(Some("a"), None), 0), Err(Error::InvalidCloudToken)));
}

#[test]
fn provider_reads_the_clock_for_the_due_date() {
    let p = CamundaCloudTokenProvider::new(
        "id".to_string(),
        "secret".to_string(),
        "aud".to_string(),
        Some(TokenPath::Text("/tmp/cloud.token".to_string())),
    )
    .unwrap();
    assert_eq!(p.cloud_token_path(), &TokenPath::Text("/tmp/cloud.token".to_string()));
    assert_eq!(p.access_request().grant_type, "client_credentials");
    let t = p.response_to_cloud_token(response(Some("abc"), Some(60))).unwrap();
    assert_eq!(t.token, "abc");
    assert!(!t.is_overdue());
    assert!(matches!(p.response_to_cloud_token(response(None, Some(60))), Err(Error::InvalidCloudToken)));
}

#[test]
fn only_a_file_can_hold_a_cached_token() {
    assert!(!needs_authentication(Some(true)));
    assert!(needs_authentication(Some(false)));
    assert!(needs_authentication(None));
}

#[test]
fn error_conversions() {
    let io = std::io::Error::new(std::io::ErrorKind::Other, "disk");
    assert!(matches!(Error::from(io), Error::StdIoError(_)));
    let json = serde_json::from_str::<String>("{").unwrap_err();
    assert!(matches!(Error::from(json), Error::JsonError(_)));
}

#[test]
fn lifetime_past_the_clock_range_is_refused() {
    assert!(matches!(cloud_token_from_response(response(Some("a"), Some(1)), u128::MAX), Err(Error::InvalidCloudToken)));
    let t = cloud_token_from_response(response(Some("a"), Some(0)), u128::MAX).unwrap();
    assert_eq!(t.due_date, u128::MAX);
}

#[test]
fn token_is_cached_under_the_home_directory() {
    assert_eq!(default_cloud_token_path("/home/u"), "/home/u/.zeebe/cloud.token");
    let p = CamundaCloudTokenProvider::with_home_dir(
        "id".to_string(),
        "secret".to_string(),
        "aud".to_string(),
        None,
        Some(std::path::PathBuf::from("/home/u")),
    );
    assert_eq!(p.cloud_token_path(), &TokenPath::Text("/home/u/.zeebe/cloud.token".to_string()));
    assert_eq!(p.access_request().client_id, "id");
    let p = CamundaCloudTokenProvider::with_home_dir(
        "id".to_string(),
        "secret".to_string(),
        "aud".to_string(),
        Some(TokenPath::Text("/tmp/t".to_string())),
        Some(std::path::PathBuf::from("/home/u")),
    );
    assert_eq!(p.cloud_token_path(), &TokenPath::Text("/tmp/t".to_string()));
    assert_eq!(
        default_cache_path(std::path::PathBuf::from("/root")),
        TokenPath::Text("/root/.zeebe/cloud.token".to_string())
    );
}

#[test]
fn native_custom_path_is_kept() {
    let path = std::path::PathBuf::from("/tmp/native.token");
    let p = CamundaCloudTokenProvider::new(
        "id".to_string(),
        "secret".to_string(),
        "aud".to_string(),
        Some(TokenPath::Native(path.clone())),
    )
    .unwrap();
    assert_eq!(p.cloud_token_path(), &TokenPath::Native(path));
}

fn finished(action: TokenAction) -> Result<CloudToken, Error> {
    match action {
        TokenAction::Finish(outcome) => outcome,
        _ => panic!("the fetch goes on"),
    }
}

#[test]
fn cached_token_is_used_while_not_overdue() {
    let cached = CloudToken::new("cached".to_string(), 5000);
    let (s, a) = token_step(TokenFetch::Idle, TokenEvent::Begin, 4000);
    assert!(matches!(a, TokenAction::InspectPath));
    let (s, a) = token_step(s, TokenEvent::PathInspected(Some(true)), 4000);
    assert!(matches!(a, TokenAction::ReadCache));
    let (s, a) = token_step(s, TokenEvent::CacheRead(Ok(cached.clone())), 5000);
    assert!(matches!(s, TokenFetch::Idle));
    assert_eq!(finished(a).unwrap(), cached);
}

#[test]
fn overdue_or_missing_token_is_renewed_and_written() {
    let (s, a) = token_step(TokenFetch::Reading, TokenEvent::CacheRead(Ok(CloudToken::new("old".to_string(), 10))), 11);
    assert!(matches!(a, TokenAction::Authenticate));
    let (s, a) = token_step(s, TokenEvent::Authenticated(Ok(response(Some("new"), Some(60)))), 1000);
    let written = match a {
        TokenAction::Persist(t) => t,
        _ => panic!("a new token is written"),
    };
    assert_eq!(written, CloudToken::new("new".to_string(), 61_000));
    let (s, a) = token_step(s, TokenEvent::Persisted(Ok(())), 2000);
    assert!(matches!(s, TokenFetch::Idle));
    assert_eq!(finished(a).unwrap(), written);
    for is_file in [None, Some(false)] {
        let (_, a) = token_step(TokenFetch::Inspecting, TokenEvent::PathInspected(is_file), 0);
        assert!(matches!(a, TokenAction::Authenticate));
    }
}

#[test]
fn token_fetch_failures_end_the_fetch() {
    let io = || Err(Error::StdIoError(std::io::Error::new(std::io::ErrorKind::Other, "disk")));
    let (_, a) = token_step(TokenFetch::Reading, TokenEvent::CacheRead(io()), 0);
    assert!(matches!(finished(a), Err(Error::StdIoError(_))));
    let (_, a) = token_step(TokenFetch::Authenticating, TokenEvent::Authenticated(Err(Error::SurfError("down".to_string()))), 0);
    assert!(matches!(finished(a), Err(Error::SurfError(_))));
    let (_, a) = token_step(TokenFetch::Authenticating, TokenEvent::Authenticated(Ok(response(None, Some(1)))), 0);
    assert!(matches!(finished(a), Err(Error::InvalidCloudToken)));
    let (_, a) = token_step(TokenFetch::Persisting(CloudToken::new("t".to_string(), 1)), TokenEvent::Persisted(io().map(|_: CloudToken| ())), 0);
    assert!(matches!(finished(a), Err(Error::StdIoError(_))));
    let (_, a) = token_step_now(TokenFetch::Idle, TokenEvent::Begin);
    assert!(matches!(a, TokenAction::InspectPath));
}
