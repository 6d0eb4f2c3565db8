//! The settings of a scan and the rule that says when they are usable.

use crate::errors::ScannerError;
use vstd::prelude::*;

verus! {

/// The settings of a scan.
#[derive(Debug, Clone)]
pub struct Config {
    /// The key that the quote service asks for.
    pub api_key: String,
    /// Where the symbols are listed, if a file lists them.
    pub symbols_file: Option<String>,
    /// How many requests are under way at once.
    pub concurrent_requests: usize,
    /// The pause between two batches of requests, in milliseconds.
    pub rate_limit_delay_ms: u64,
    /// How long one request may take, in seconds.
    pub timeout_secs: u64,
    /// The name of the format to print in when none is asked for.
    pub default_output: String,
}

/// What a `Config` holds, as plain values.
pub struct ConfigView {
    pub api_key: Seq<char>,
    pub symbols_file: Option<Seq<char>>,
    pub concurrent_requests: nat,
    pub rate_limit_delay_ms: nat,
    pub timeout_secs: nat,
    pub default_output: Seq<char>,
}

impl View for Config {
    type V = ConfigView;

    /// The settings as plain values.
    open spec fn view(&self) -> ConfigView {
        ConfigView {
            api_key: self.api_key@,
            symbols_file: match self.symbols_file {
                Some(path) => Some(path@),
                None => None,
            },
            concurrent_requests: self.concurrent_requests as nat,
            rate_limit_delay_ms: self.rate_limit_delay_ms as nat,
            timeout_secs: self.timeout_secs as nat,
            default_output: self.default_output@,
        }
    }
}

/// The number of requests under way at once, unless the settings say
/// otherwise.
pub fn default_concurrent_requests() -> (n: usize)
    ensures
        n == 5,
{
    5
}

/// The pause between two batches in milliseconds, unless the settings say
/// otherwise.
pub fn default_rate_limit_delay() -> (ms: u64)
    ensures
        ms == 200,
{
    200
}

/// The seconds that one request may take, unless the settings say
/// otherwise.
pub fn default_timeout() -> (secs: u64)
    ensures
        secs == 10,
{
    10
}

impl ConfigView {
    /// The settings that nobody has touched yet. Their key is a placeholder,
    /// so they are not usable as they stand.
    pub open spec fn initial() -> ConfigView {
        ConfigView {
            api_key: "YOUR_API_KEY_HERE"@,
            symbols_file: Some("symbols.txt"@),
            concurrent_requests: 5,
            rate_limit_delay_ms: 200,
            timeout_secs: 10,
            default_output: "table"@,
        }
    }

    /// The settings with the key and the symbols file replaced, each where
    /// a replacement is given.
    pub open spec fn overridden(
        self,
        api_key: Option<Seq<char>>,
        symbols_file: Option<Seq<char>>,
    ) -> ConfigView {
        ConfigView {
            api_key: match api_key {
                Some(key) => key,
                None => self.api_key,
            },
            symbols_file: match symbols_file {
                Some(path) => Some(path),
                None => self.symbols_file,
            },
            ..self
        }
    }

    /// Whether a key is set: one that is neither empty nor the placeholder.
    pub open spec fn has_api_key(self) -> bool {
        self.api_key.len() > 0 && self.api_key != "YOUR_API_KEY_HERE"@
    }

    /// What is wrong with the settings, if anything is. A missing key is
    /// reported before a batch size of zero.
    pub open spec fn fault(self) -> Option<Seq<char>> {
        if !self.has_api_key() {
            Some(
                "API key not configured. Set FINNHUB_API_KEY environment variable or update config file"@,
            )
        } else if self.concurrent_requests == 0 {
            Some("concurrent_requests must be greater than 0"@)
        } else {
            None
        }
    }
}

impl Default for Config {
    /// The settings that nobody has touched yet.
    fn default() -> (config: Config)
        ensures
            config@ == ConfigView::initial(),
    {
        Config {
            api_key: String::from_str("YOUR_API_KEY_HERE"),
            symbols_file: Some(String::from_str("symbols.txt")),
            concurrent_requests: default_concurrent_requests(),
            rate_limit_delay_ms: default_rate_limit_delay(),
            timeout_secs: default_timeout(),
            default_output: String::from_str("table"),
        }
    }
}

impl Config {
    /// Accepts the settings where a key is set and the batch size is not
    /// zero, and says what is wrong otherwise.
    pub fn validate(&self) -> (checked: Result<(), ScannerError>)
        ensures
            match self@.fault() {
                None => checked is Ok,
                Some(fault) => checked matches Err(ScannerError::Config(msg)) && msg@ == fault,
            },
    {
        let placeholder = String::from_str("YOUR_API_KEY_HERE");
        if self.api_key.as_str().is_empty() || self.api_key == placeholder {
            return Err(
                ScannerError::Config(
                    String::from_str(
                        "API key not configured. Set FINNHUB_API_KEY environment variable or update config file",
                    ),
                ),
            );
        }
        if self.concurrent_requests == 0 {
            return Err(
                ScannerError::Config(String::from_str("concurrent_requests must be greater than 0")),
            );
        }
        Ok(())
    }

    /// The initial settings with the key and the symbols file taken from
    /// the environment, each where the environment gives one; an error
    /// where the result is not usable.
    pub fn from_env_or_default(api_key: Option<String>, symbols_file: Option<String>) -> (loaded:
        Result<Config, ScannerError>)
        ensures
            ({
                let wanted = ConfigView::initial().overridden(
                    match api_key {
                        Some(key) => Some(key@),
                        None => None,
                    },
                    match symbols_file {
                        Some(path) => Some(path@),
                        None => None,
                    },
                );
                match wanted.fault() {
                    None => loaded matches Ok(config) && config@ == wanted,
                    Some(fault) => loaded matches Err(ScannerError::Config(msg)) && msg@ == fault,
                }
            }),
    {
        let mut config = Config::default();
        if let Some(key) = api_key {
            config.api_key = key;
        }
        if let Some(path) = symbols_file {
            config.symbols_file = Some(path);
        }
        match config.validate() {
            Ok(()) => Ok(config),
            Err(err) => Err(err),
        }
    }
}

} // verus!
