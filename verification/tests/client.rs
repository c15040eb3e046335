use better_posthog::client::{ApiKey, ClientOptions, Host, DEFAULT_SHUTDOWN_SECS};
use better_posthog::events::Event;
use better_posthog::hooks::HookOutcome;
use std::time::Duration;

type Hook = Box<dyn FnMut(Event) -> HookOutcome>;

#[test]
fn api_key_from_str_and_string() {
    let from_str = ApiKey::from("phc_abc");
    assert_eq!(from_str.as_str(), "phc_abc");
    let from_string = ApiKey::from("phc_def".to_string());
    assert_eq!(from_string.as_str(), "phc_def");
    let converted: ApiKey = "phc_ghi".into();
    assert_eq!(converted.as_str(), "phc_ghi");
    assert_eq!(converted.clone().as_str(), "phc_ghi");
}

#[test]
fn host_base_urls() {
    assert_eq!(Host::US.base_url(), "https://us.i.posthog.com");
    assert_eq!(Host::EU.base_url(), "https://eu.i.posthog.com");
    assert_eq!(Host::Custom("http://localhost:8000".to_string()).base_url(), "http://localhost:8000");
}

#[test]
fn host_capture_urls() {
    assert_eq!(Host::US.capture_url(), "https://us.i.posthog.com/i/v0/e/");
    assert_eq!(Host::EU.capture_url(), "https://eu.i.posthog.com/i/v0/e/");
    assert_eq!(
        Host::Custom("http://localhost:8000".to_string()).capture_url(),
        "http://localhost:8000/i/v0/e/"
    );
}

#[test]
fn host_batch_urls() {
    assert_eq!(Host::US.batch_url(), "https://us.i.posthog.com/batch/");
    assert_eq!(Host::EU.batch_url(), "https://eu.i.posthog.com/batch/");
    assert_eq!(Host::Custom("".to_string()).batch_url(), "/batch/");
}

#[test]
fn host_default_is_us() {
    assert!(matches!(Host::default(), Host::US));
    assert!(matches!(Host::EU.clone(), Host::EU));
    assert!(matches!(Host::Custom("x".to_string()).clone(), Host::Custom(url) if url == "x"));
}

#[test]
fn default_options_have_no_key_and_wait_two_seconds() {
    let options: ClientOptions<Hook> = ClientOptions::default();
    assert!(options.api_key.is_none());
    assert!(matches!(options.host, Host::US));
    assert_eq!(DEFAULT_SHUTDOWN_SECS, 2);
    assert_eq!(options.shutdown_timeout, Duration::from_secs(2));
    assert!(options.before_send.is_empty());
}

#[test]
fn new_options_hold_the_key() {
    let options: ClientOptions<Hook> = ClientOptions::new("phc_key");
    assert_eq!(options.api_key.as_ref().map(|key| key.as_str()), Some("phc_key"));
    assert!(matches!(options.host, Host::US));
    assert_eq!(options.shutdown_timeout, Duration::from_secs(2));
    assert!(options.before_send.is_empty());
    let from_string: ClientOptions<Hook> = ClientOptions::new("phc_owned".to_string());
    assert_eq!(from_string.api_key.as_ref().map(|key| key.as_str()), Some("phc_owned"));
    let from_key: ClientOptions<Hook> = ClientOptions::new(ApiKey::from("phc_made"));
    assert_eq!(from_key.api_key.as_ref().map(|key| key.as_str()), Some("phc_made"));
}

#[test]
fn options_from_a_key_are_the_default_options_with_that_key() {
    let options: ClientOptions<Hook> = ClientOptions::from("phc_key");
    assert_eq!(options.api_key.as_ref().map(|key| key.as_str()), Some("phc_key"));
    assert!(matches!(options.host, Host::US));
    assert_eq!(options.shutdown_timeout, Duration::from_secs(2));
    assert!(options.before_send.is_empty());
    let converted: ClientOptions<Hook> = "phc_into".to_string().into();
    assert_eq!(converted.api_key.as_ref().map(|key| key.as_str()), Some("phc_into"));
}

#[test]
fn options_from_a_key_and_options_change_only_the_key() {
    let mut options: ClientOptions<Hook> = ClientOptions::default();
    options.host = Host::EU;
    options.shutdown_timeout = Duration::from_secs(5);
    options.before_send.push(Box::new(|event| HookOutcome::Continue(event)));
    let options = ClientOptions::from(("phc_new", options));
    assert_eq!(options.api_key.as_ref().map(|key| key.as_str()), Some("phc_new"));
    assert!(matches!(options.host, Host::EU));
    assert_eq!(options.shutdown_timeout, Duration::from_secs(5));
    assert_eq!(options.before_send.len(), 1);
}
