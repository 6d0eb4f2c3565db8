//! The failures of a scan and the text that reports each of them.

use crate::text::joined;
use vstd::prelude::*;
use vstd::std_specs::convert::FromSpecImpl;
use vstd::string::to_string_from_display_ensures;

verus! {

/// What can go wrong while settings are read, quotes are fetched or symbols
/// are gathered.
#[derive(Debug)]
pub enum ScannerError {
    /// Settings that are missing or unusable.
    Config(String),
    /// A reply that is no quote: a refusing status, or no data.
    Api(String),
    /// A request that got no reply.
    Network(String),
    /// A file that could not be read or written.
    Io(String),
    /// A reply that could not be parsed.
    Parse(String),
    /// No symbols were given by any source.
    NoSymbols,
    /// An argument that makes no sense.
    InvalidInput(String),
}

/// Whether reqwest finds a timeout in the chain of causes of the error.
pub uninterp spec fn timeout_of(err: reqwest::Error) -> bool;

/// Whether reqwest finds a failed connection in the chain of causes of the
/// error.
pub uninterp spec fn connect_of(err: reqwest::Error) -> bool;

/// Whether reqwest made the error while it decoded the body of a reply.
pub uninterp spec fn decode_of(err: reqwest::Error) -> bool;

/// Whether reqwest made the error from a status code.
pub uninterp spec fn status_of(err: reqwest::Error) -> bool;

/// `err.is_timeout()` of reqwest: whether a timeout is found in the chain of
/// causes. The answer is read off the error and nothing else, so it has a
/// name; which errors are timeouts is not said here.
pub assume_specification[ reqwest::Error::is_timeout ](err: &reqwest::Error) -> (timed_out: bool)
    ensures
        timed_out == timeout_of(*err),
;

/// `err.is_connect()` of reqwest: whether a failed connection is found in
/// the chain of causes. The answer is read off the error and nothing else.
pub assume_specification[ reqwest::Error::is_connect ](err: &reqwest::Error) -> (refused: bool)
    ensures
        refused == connect_of(*err),
;

/// `err.is_decode()` of reqwest: whether the error is of the kind that is
/// made when the body of a reply cannot be decoded. The answer is read off
/// the error and nothing else.
pub assume_specification[ reqwest::Error::is_decode ](err: &reqwest::Error) -> (undecoded: bool)
    ensures
        undecoded == decode_of(*err),
;

/// `err.is_status()` of reqwest: whether the error is of the kind that is
/// made from a status code. The answer is read off the error and nothing
/// else.
pub assume_specification[ reqwest::Error::is_status ](err: &reqwest::Error) -> (from_status: bool)
    ensures
        from_status == status_of(*err),
;

/// reqwest's error, carried through as an opaque value.
#[verifier::external_type_specification]
#[verifier::external_body]
pub struct ExTransportError(reqwest::Error);

/// serde_json's error, carried through as an opaque value.
#[verifier::external_type_specification]
#[verifier::external_body]
pub struct ExJsonError(serde_json::Error);

/// std's I/O error, carried through as an opaque value.
#[verifier::external_type_specification]
#[verifier::external_body]
pub struct ExIoError(std::io::Error);

impl ScannerError {
    /// The report of the failure, as a sequence of characters.
    pub open spec fn text(&self) -> Seq<char> {
        match self {
            ScannerError::Config(msg) => "Configuration error: "@ + msg@,
            ScannerError::Api(msg) => "API error: "@ + msg@,
            ScannerError::Network(msg) => "Network error: "@ + msg@,
            ScannerError::Io(msg) => "I/O error: "@ + msg@,
            ScannerError::Parse(msg) => "Parse error: "@ + msg@,
            ScannerError::NoSymbols => "No symbols provided. Use --symbols, --symbols-file, or configure symbols_file in config"@,
            ScannerError::InvalidInput(msg) => "Invalid input: "@ + msg@,
        }
    }

    /// The report of the failure.
    pub fn message(&self) -> (report: String)
        ensures
            report@ == self.text(),
    {
        match self {
            ScannerError::Config(msg) => joined("Configuration error: ", msg.as_str()),
            ScannerError::Api(msg) => joined("API error: ", msg.as_str()),
            ScannerError::Network(msg) => joined("Network error: ", msg.as_str()),
            ScannerError::Io(msg) => joined("I/O error: ", msg.as_str()),
            ScannerError::Parse(msg) => joined("Parse error: ", msg.as_str()),
            ScannerError::NoSymbols => String::from_str(
                "No symbols provided. Use --symbols, --symbols-file, or configure symbols_file in config",
            ),
            ScannerError::InvalidInput(msg) => joined("Invalid input: ", msg.as_str()),
        }
    }

    /// Whether the error is the one that stands for a failed request with
    /// the given traits and detail. A timeout outranks a failed connection,
    /// which outranks a body that cannot be decoded, which outranks a
    /// refusing status. A body that cannot be decoded is a parse error; a
    /// refusing status is an API error; everything else is a network error.
    pub open spec fn is_transport_failure(
        &self,
        timed_out: bool,
        refused: bool,
        undecoded: bool,
        from_status: bool,
        detail: Seq<char>,
    ) -> bool {
        if timed_out {
            self matches ScannerError::Network(msg) && msg@ == "Request timeout: "@ + detail
        } else if refused {
            self matches ScannerError::Network(msg) && msg@ == "Connection failed: "@ + detail
        } else if undecoded {
            self matches ScannerError::Parse(msg) && msg@ == "JSON parsing failed: "@ + detail
        } else if from_status {
            self matches ScannerError::Api(msg) && msg@ == "HTTP error: "@ + detail
        } else {
            self matches ScannerError::Network(msg) && msg@ == "Request failed: "@ + detail
        }
    }

    /// The error for a failed request, from what is known of the failure.
    pub fn from_transport(
        timed_out: bool,
        refused: bool,
        undecoded: bool,
        from_status: bool,
        detail: &str,
    ) -> (err: ScannerError)
        ensures
            err.is_transport_failure(timed_out, refused, undecoded, from_status, detail@),
    {
        if timed_out {
            ScannerError::Network(joined("Request timeout: ", detail))
        } else if refused {
            ScannerError::Network(joined("Connection failed: ", detail))
        } else if undecoded {
            ScannerError::from_json(detail)
        } else if from_status {
            ScannerError::Api(joined("HTTP error: ", detail))
        } else {
            ScannerError::Network(joined("Request failed: ", detail))
        }
    }

    /// The error for a file that could not be read or written.
    pub fn from_io(detail: &str) -> (err: ScannerError)
        ensures
            err matches ScannerError::Io(msg) && msg@ == detail@,
    {
        ScannerError::Io(String::from_str(detail))
    }

    /// The error for a reply that is not the expected JSON.
    pub fn from_json(detail: &str) -> (err: ScannerError)
        ensures
            err matches ScannerError::Parse(msg) && msg@ == "JSON parsing failed: "@ + detail@,
    {
        ScannerError::Parse(joined("JSON parsing failed: ", detail))
    }
}

impl From<reqwest::Error> for ScannerError {
    /// A failed request becomes the error that its traits call for: a
    /// network error for a timeout or a failed connection, else a parse
    /// error for a body that cannot be decoded, else an API error for a
    /// refusing status, else a network error. The detail is the text that
    /// reqwest writes for the error.
    fn from(err: reqwest::Error) -> (out: ScannerError)
        ensures
            exists|detail: String| #[trigger]
                to_string_from_display_ensures::<reqwest::Error>(&err, detail)
                    && out.is_transport_failure(
                    timeout_of(err),
                    connect_of(err),
                    decode_of(err),
                    status_of(err),
                    detail@,
                ),
    {
        let detail = err.to_string();
        let timed_out = err.is_timeout();
        let refused = err.is_connect();
        let undecoded = err.is_decode();
        let from_status = err.is_status();
        let out = ScannerError::from_transport(
            timed_out,
            refused,
            undecoded,
            from_status,
            detail.as_str(),
        );
        assert(to_string_from_display_ensures::<reqwest::Error>(&err, detail)
            && out.is_transport_failure(
            timeout_of(err),
            connect_of(err),
            decode_of(err),
            status_of(err),
            detail@,
        ));
        out
    }
}

impl FromSpecImpl<reqwest::Error> for ScannerError {
    /// The text of the failure is not known here, so no function of the
    /// value is given for it.
    open spec fn obeys_from_spec() -> bool {
        false
    }

    /// Left open; see `obeys_from_spec`.
    open spec fn from_spec(err: reqwest::Error) -> ScannerError {
        arbitrary()
    }
}

impl From<std::io::Error> for ScannerError {
    /// An I/O failure becomes an I/O error with the text that std writes
    /// for the failure.
    fn from(err: std::io::Error) -> (out: ScannerError)
        ensures
            out matches ScannerError::Io(msg) && to_string_from_display_ensures::<std::io::Error>(
                &err,
                msg,
            ),
    {
        ScannerError::Io(err.to_string())
    }
}

impl FromSpecImpl<std::io::Error> for ScannerError {
    /// The text of the failure is not known here, so no function of the
    /// value is given for it.
    open spec fn obeys_from_spec() -> bool {
        false
    }

    /// Left open; see `obeys_from_spec`.
    open spec fn from_spec(err: std::io::Error) -> ScannerError {
        arbitrary()
    }
}

impl From<serde_json::Error> for ScannerError {
    /// A JSON failure becomes a parse error that names JSON and ends in the
    /// text that serde_json writes for the failure.
    fn from(err: serde_json::Error) -> (out: ScannerError)
        ensures
            out matches ScannerError::Parse(msg) && exists|detail: String| #[trigger]
                to_string_from_display_ensures::<serde_json::Error>(&err, detail) && msg@
                    == "JSON parsing failed: "@ + detail@,
    {
        let detail = err.to_string();
        let out = ScannerError::from_json(detail.as_str());
        assert(to_string_from_display_ensures::<serde_json::Error>(&err, detail));
        out
    }
}

impl FromSpecImpl<serde_json::Error> for ScannerError {
    /// The text of the failure is not known here, so no function of the
    /// value is given for it.
    open spec fn obeys_from_spec() -> bool {
        false
    }

    /// Left open; see `obeys_from_spec`.
    open spec fn from_spec(err: serde_json::Error) -> ScannerError {
        arbitrary()
    }
}

} // verus!
