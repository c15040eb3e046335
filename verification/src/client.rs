//! Client configuration: the API key, the target host and the options that a
//! client is started with.

use std::time::Duration;
use vstd::prelude::*;
use vstd::std_specs::convert::FromSpecImpl;
use vstd::string::StringExecFns;

verus! {

/// The `Duration` that `Duration::from_secs` returns for a number of whole seconds.
pub uninterp spec fn whole_seconds(secs: u64) -> Duration;

/// `Duration::from_secs` of std: the duration of `secs` whole seconds, which
/// [`whole_seconds`] names.
pub assume_specification[ Duration::from_secs ](secs: u64) -> (duration: Duration)
    ensures
        duration == whole_seconds(secs),
;

/// The number of seconds that a shutdown waits by default.
pub const DEFAULT_SHUTDOWN_SECS: u64 = 2;

/// An API key of the collection service.
#[derive(Debug)]
pub struct ApiKey(String);

impl View for ApiKey {
    type V = Seq<char>;

    closed spec fn view(&self) -> Seq<char> {
        self.0@
    }
}

impl ApiKey {
    /// The key as a string slice.
    pub fn as_str(&self) -> (key: &str)
        ensures
            key@ == self@,
    {
        self.0.as_str()
    }
}

impl Clone for ApiKey {
    fn clone(&self) -> (copy: ApiKey)
        ensures
            copy@ == self@,
    {
        ApiKey(self.0.clone())
    }
}

impl From<&str> for ApiKey {
    fn from(key: &str) -> (api_key: ApiKey)
        ensures
            api_key@ == key@,
    {
        ApiKey(key.to_owned())
    }
}

/// Converting a string slice allocates a new string, which no spec function can
/// name: the contract of `from` states the key by its view instead.
impl FromSpecImpl<&str> for ApiKey {
    open spec fn obeys_from_spec() -> bool {
        false
    }

    closed spec fn from_spec(key: &str) -> ApiKey {
        choose|api_key: ApiKey| api_key@ == key@
    }
}

impl From<String> for ApiKey {
    fn from(key: String) -> (api_key: ApiKey)
        ensures
            api_key@ == key@,
    {
        ApiKey(key)
    }
}

impl FromSpecImpl<String> for ApiKey {
    open spec fn obeys_from_spec() -> bool {
        true
    }

    closed spec fn from_spec(key: String) -> ApiKey {
        ApiKey(key)
    }
}

/// The collection service that events are sent to.
#[derive(Debug)]
pub enum Host {
    /// The US cloud instance.
    US,
    /// The EU cloud instance.
    EU,
    /// A self-hosted instance, by its base URL.
    Custom(String),
}

impl Host {
    /// The base URL of this host.
    pub open spec fn base(self) -> Seq<char> {
        match self {
            Host::US => "https://us.i.posthog.com"@,
            Host::EU => "https://eu.i.posthog.com"@,
            Host::Custom(url) => url@,
        }
    }

    /// The URL that single events are posted to.
    pub open spec fn capture_endpoint(self) -> Seq<char> {
        self.base() + "/i/v0/e/"@
    }

    /// The URL that batches are posted to.
    pub open spec fn batch_endpoint(self) -> Seq<char> {
        self.base() + "/batch/"@
    }

    /// Returns the base URL for this host.
    pub fn base_url(&self) -> (url: &str)
        ensures
            url@ == self.base(),
    {
        match self {
            Host::US => "https://us.i.posthog.com",
            Host::EU => "https://eu.i.posthog.com",
            Host::Custom(url) => url.as_str(),
        }
    }

    /// Returns the single event capture endpoint URL.
    pub fn capture_url(&self) -> (url: String)
        ensures
            url@ == self.capture_endpoint(),
    {
        self.base_url().to_owned().concat("/i/v0/e/")
    }

    /// Returns the batch event endpoint URL.
    pub fn batch_url(&self) -> (url: String)
        ensures
            url@ == self.batch_endpoint(),
    {
        self.base_url().to_owned().concat("/batch/")
    }
}

impl Default for Host {
    fn default() -> (host: Host)
        ensures
            host == Host::US,
    {
        Host::US
    }
}

impl Clone for Host {
    fn clone(&self) -> (copy: Host)
        ensures
            copy == *self,
    {
        match self {
            Host::US => Host::US,
            Host::EU => Host::EU,
            Host::Custom(url) => Host::Custom(url.clone()),
        }
    }
}

/// Configuration for a client. `H` is the type of its `before_send` hooks.
pub struct ClientOptions<H> {
    /// The API key. Without one the client stays inert.
    pub api_key: Option<ApiKey>,
    /// The target host.
    pub host: Host,
    /// How long a shutdown waits for pending events.
    pub shutdown_timeout: Duration,
    /// Hooks that modify or discard events before sending, in the order they run.
    pub before_send: Vec<H>,
}

impl<H> Default for ClientOptions<H> {
    fn default() -> (options: ClientOptions<H>)
        ensures
            options.api_key is None,
            options.host == Host::US,
            options.shutdown_timeout == whole_seconds(DEFAULT_SHUTDOWN_SECS),
            options.before_send@.len() == 0,
    {
        ClientOptions {
            api_key: None,
            host: Host::default(),
            shutdown_timeout: Duration::from_secs(DEFAULT_SHUTDOWN_SECS),
            before_send: Vec::new(),
        }
    }
}

impl<H> ClientOptions<H> {
    /// The default options with the given API key.
    pub fn new<T>(api_key: T) -> (options: ClientOptions<H>) where ApiKey: From<T>
        ensures
            options.api_key matches Some(key) && call_ensures(
                <ApiKey as From<T>>::from,
                (api_key,),
                key,
            ),
            options.host == Host::US,
            options.shutdown_timeout == whole_seconds(DEFAULT_SHUTDOWN_SECS),
            options.before_send@.len() == 0,
    {
        ClientOptions {
            api_key: Some(ApiKey::from(api_key)),
            host: Host::default(),
            shutdown_timeout: Duration::from_secs(DEFAULT_SHUTDOWN_SECS),
            before_send: Vec::new(),
        }
    }
}

impl<H, T> From<T> for ClientOptions<H> where ApiKey: From<T> {
    fn from(api_key: T) -> (options: ClientOptions<H>)
        ensures
            options.api_key matches Some(key) && call_ensures(
                <ApiKey as From<T>>::from,
                (api_key,),
                key,
            ),
            options.host == Host::US,
            options.shutdown_timeout == whole_seconds(DEFAULT_SHUTDOWN_SECS),
            options.before_send@.len() == 0,
    {
        ClientOptions::new(api_key)
    }
}

/// The key inside the options is made by a conversion of its own, so the
/// contract of `from` states the options field by field.
impl<H, T> FromSpecImpl<T> for ClientOptions<H> where ApiKey: From<T> {
    open spec fn obeys_from_spec() -> bool {
        false
    }

    open spec fn from_spec(api_key: T) -> ClientOptions<H> {
        arbitrary()
    }
}

impl<H, T> From<(T, ClientOptions<H>)> for ClientOptions<H> where ApiKey: From<T> {
    fn from(pair: (T, ClientOptions<H>)) -> (options: ClientOptions<H>)
        ensures
            options.api_key matches Some(key) && call_ensures(
                <ApiKey as From<T>>::from,
                (pair.0,),
                key,
            ),
            options.host == pair.1.host,
            options.shutdown_timeout == pair.1.shutdown_timeout,
            options.before_send == pair.1.before_send,
    {
        let (api_key, options) = pair;
        ClientOptions {
            api_key: Some(ApiKey::from(api_key)),
            host: options.host,
            shutdown_timeout: options.shutdown_timeout,
            before_send: options.before_send,
        }
    }
}

/// As for the conversion from a key alone: the contract of `from` states the
/// options field by field.
impl<H, T> FromSpecImpl<(T, ClientOptions<H>)> for ClientOptions<H> where ApiKey: From<T> {
    open spec fn obeys_from_spec() -> bool {
        false
    }

    open spec fn from_spec(pair: (T, ClientOptions<H>)) -> ClientOptions<H> {
        arbitrary()
    }
}

} // verus!
