//! The options of a run, with their defaults.

use vstd::prelude::*;
use vstd::string::*;
use crate::decimal::{natural_value, parse_u64};
use crate::extract::Strategy;
use crate::fetch::BASE_URL;
use crate::sink::Backend;

verus! {

/// The host of the database where none is given.
pub const DEFAULT_HOST: &'static str = "localhost";

/// The port of the database where none is given.
pub const DEFAULT_PORT: &'static str = "27017";

/// The file of the location tokens where none is given.
pub const DEFAULT_TOKEN_PATH: &'static str = "tokens.json";

/// The seconds between two ticks where no interval is given.
pub const DEFAULT_INTERVAL: u64 = 60;

/// The seconds after which a request or a write is given up.
pub const DEFAULT_TIMEOUT: u64 = 30;

/// The name of the database.
pub const DATABASE: &'static str = "climbing";

/// The name of the collection, or of the time series.
pub const COLLECTION: &'static str = "visitors";

/// What happens to the run when a page cannot be fetched or the store refuses
/// a write.
#[derive(Clone, Copy, Debug, PartialEq, Eq, Structural)]
pub enum FailurePolicy {
    /// The run ends with the failure.
    Halt,
    /// The failure is reported and the run goes on: a location that cannot be
    /// fetched is left out of the tick, and a refused write costs that tick.
    Continue,
}

/// What is wrong with the options that were given.
#[derive(Clone, Copy, Debug, PartialEq, Eq, Structural)]
pub enum ConfigError {
    /// The interval is no number of seconds.
    InvalidInterval,
}

/// The options of a run.
#[derive(Debug)]
pub struct Settings {
    pub base_url: String,
    pub db_host: String,
    pub db_port: String,
    pub db_name: String,
    pub collection: String,
    pub token_path: String,
    pub interval_seconds: u64,
    pub run_once: bool,
    /// The seconds after which the driver gives a request or a write up.
    pub timeout_seconds: u64,
    pub strategy: Strategy,
    pub backend: Backend,
    pub policy: FailurePolicy,
}

/// The mathematical value of `Settings`.
pub struct SettingsView {
    pub base_url: Seq<char>,
    pub db_host: Seq<char>,
    pub db_port: Seq<char>,
    pub db_name: Seq<char>,
    pub collection: Seq<char>,
    pub token_path: Seq<char>,
    pub interval_seconds: u64,
    pub run_once: bool,
    pub timeout_seconds: u64,
    pub strategy: Strategy,
    pub backend: Backend,
    pub policy: FailurePolicy,
}

impl View for Settings {
    type V = SettingsView;

    open spec fn view(&self) -> SettingsView {
        SettingsView {
            base_url: self.base_url@,
            db_host: self.db_host@,
            db_port: self.db_port@,
            db_name: self.db_name@,
            collection: self.collection@,
            token_path: self.token_path@,
            interval_seconds: self.interval_seconds,
            run_once: self.run_once,
            timeout_seconds: self.timeout_seconds,
            strategy: self.strategy,
            backend: self.backend,
            policy: self.policy,
        }
    }
}

/// The text that is given, or the default where none is.
pub open spec fn text_or(given: Option<Seq<char>>, default: Seq<char>) -> Seq<char> {
    match given {
        Some(text) => text,
        None => default,
    }
}

/// The text of an optional string.
pub open spec fn given_text(given: Option<String>) -> Option<Seq<char>> {
    match given {
        Some(text) => Some(text@),
        None => None,
    }
}

/// The options that the arguments of a run stand for.
pub open spec fn settings_of(
    host: Option<Seq<char>>,
    port: Option<Seq<char>>,
    token_path: Option<Seq<char>>,
    interval: Option<Seq<char>>,
    once: bool,
) -> Result<SettingsView, ConfigError> {
    let seconds = match interval {
        Some(text) => natural_value(text),
        None => Some(DEFAULT_INTERVAL as int),
    };
    match seconds {
        None => Err(ConfigError::InvalidInterval),
        Some(n) => Ok(
            SettingsView {
                base_url: BASE_URL@,
                db_host: text_or(host, DEFAULT_HOST@),
                db_port: text_or(port, DEFAULT_PORT@),
                db_name: DATABASE@,
                collection: COLLECTION@,
                token_path: text_or(token_path, DEFAULT_TOKEN_PATH@),
                interval_seconds: n as u64,
                run_once: once || n == 0,
                timeout_seconds: DEFAULT_TIMEOUT,
                strategy: Strategy::NestedContent,
                backend: Backend::BatchAppend,
                policy: FailurePolicy::Halt,
            },
        ),
    }
}

/// The given string, or the default where none is given.
fn string_or(given: Option<String>, default: &str) -> (r: String)
    ensures
        r@ == text_or(given_text(given), default@),
{
    match given {
        Some(text) => text,
        None => default.to_owned(),
    }
}

impl Settings {
    /// The options of a run from its arguments. An argument that is not given
    /// takes its default: the host `localhost`, the port `27017`, the token
    /// file `tokens.json`, an interval of 60 seconds. The run is a single tick
    /// where `once` is set or the interval is zero. A request or a write is
    /// given up after 30 seconds, the pages are read in the nested-content
    /// form, the store is a batch-append store, and a failure ends the run.
    /// An interval that is no unsigned decimal number of seconds is refused.
    pub fn from_arguments(
        host: Option<String>,
        port: Option<String>,
        token_path: Option<String>,
        interval: Option<String>,
        once: bool,
    ) -> (r: Result<Settings, ConfigError>)
        ensures
            match r {
                Ok(settings) => settings_of(
                    given_text(host),
                    given_text(port),
                    given_text(token_path),
                    given_text(interval),
                    once,
                ) == Ok::<SettingsView, ConfigError>(settings@),
                Err(e) => settings_of(
                    given_text(host),
                    given_text(port),
                    given_text(token_path),
                    given_text(interval),
                    once,
                ) == Err::<SettingsView, ConfigError>(e),
            },
    {
        let seconds = match interval {
            Some(text) => match parse_u64(text.as_str()) {
                Some(n) => n,
                None => {
                    return Err(ConfigError::InvalidInterval);
                },
            },
            None => DEFAULT_INTERVAL,
        };
        Ok(
            Settings {
                base_url: BASE_URL.to_owned(),
                db_host: string_or(host, DEFAULT_HOST),
                db_port: string_or(port, DEFAULT_PORT),
                db_name: DATABASE.to_owned(),
                collection: COLLECTION.to_owned(),
                token_path: string_or(token_path, DEFAULT_TOKEN_PATH),
                interval_seconds: seconds,
                run_once: once || seconds == 0,
                timeout_seconds: DEFAULT_TIMEOUT,
                strategy: Strategy::NestedContent,
                backend: Backend::BatchAppend,
                policy: FailurePolicy::Halt,
            },
        )
    }

    /// The address of the database: `mongodb://`, the host, a colon and the
    /// port.
    pub fn database_uri(&self) -> (uri: String)
        ensures
            uri@ == "mongodb://"@ + self.db_host@ + ":"@ + self.db_port@,
    {
        let mut uri = String::new();
        uri.append("mongodb://");
        uri.append(self.db_host.as_str());
        uri.append(":");
        uri.append(self.db_port.as_str());
        assert(uri@ =~= "mongodb://"@ + self.db_host@ + ":"@ + self.db_port@);
        uri
    }
}

} // verus!
