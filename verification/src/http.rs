//! What the library knows of HTTP: errors, responses, the configuration
//! of a client, and how a request is put together. Sending the request
//! is not done here.

use vstd::prelude::*;
use vstd::string::*;
use vstd::utf8::*;
use std::time::Duration;
use crate::tags::{pair_texts, TagMap};
use crate::text::{joined, contains_text, decimal, text_contains, u64_to_string};

verus! {

/// The name and version that a client gives for itself.
pub const USER_AGENT: &'static str = "bevy-osm-tiles/0.1.0";

/// The whole seconds of a duration.
pub uninterp spec fn whole_seconds(duration: Duration) -> u64;

/// std's `Duration::from_secs`: the duration of that many whole seconds.
pub assume_specification[ Duration::from_secs ](secs: u64) -> (r: Duration)
    ensures
        whole_seconds(r) == secs,
;

/// std's `Duration::as_secs`: the whole seconds of the duration.
pub assume_specification[ Duration::as_secs ](duration: &Duration) -> (r: u64)
    ensures
        r == whole_seconds(*duration),
;

/// Whether a byte stands for itself in a percent-encoded text: letters,
/// digits, `-`, `.`, `_` and `~` do.
pub open spec fn is_unreserved(b: u8) -> bool {
    (0x30 <= b <= 0x39) || (0x41 <= b <= 0x5a) || (0x61 <= b <= 0x7a) || b == 0x2d || b == 0x2e
        || b == 0x5f || b == 0x7e
}

/// The upper-case hexadecimal digit for a value below sixteen.
pub open spec fn hex_digit(d: int) -> char {
    if d == 0 {
        '0'
    } else if d == 1 {
        '1'
    } else if d == 2 {
        '2'
    } else if d == 3 {
        '3'
    } else if d == 4 {
        '4'
    } else if d == 5 {
        '5'
    } else if d == 6 {
        '6'
    } else if d == 7 {
        '7'
    } else if d == 8 {
        '8'
    } else if d == 9 {
        '9'
    } else if d == 10 {
        'A'
    } else if d == 11 {
        'B'
    } else if d == 12 {
        'C'
    } else if d == 13 {
        'D'
    } else if d == 14 {
        'E'
    } else {
        'F'
    }
}

/// The percent-encoding of a byte string: an unreserved byte stands for
/// itself, every other byte becomes `%` and its two hexadecimal digits.
pub open spec fn percent_encoded(bytes: Seq<u8>) -> Seq<char>
    decreases bytes.len(),
{
    if bytes.len() == 0 {
        Seq::empty()
    } else {
        (if is_unreserved(bytes[0]) {
            seq![bytes[0] as char]
        } else {
            seq!['%', hex_digit(bytes[0] as int / 16), hex_digit(bytes[0] as int % 16)]
        }) + percent_encoded(bytes.drop_first())
    }
}

/// Calls `urlencoding::encode`, which percent-encodes every byte of the
/// UTF-8 encoding of the text except letters, digits, `-`, `.`, `_` and
/// `~`, with upper-case hexadecimal digits. The contract states exactly
/// that.
#[verifier::external_body]
pub(crate) fn percent_encode(text: &str) -> (r: String)
    ensures
        r@ == percent_encoded(encode_utf8(text@)),
{
    urlencoding::encode(text).into_owned()
}

/// What can go wrong with an HTTP request.
#[derive(Debug)]
pub enum HttpError {
    /// The request could not be made.
    RequestFailed { message: String },
    /// The server answered with a failure status.
    HttpStatus { status: u16 },
    /// The request took too long.
    Timeout { seconds: u64 },
    /// The network failed.
    Network { message: String },
}

/// The mathematical model of an [`HttpError`].
pub enum HttpErrorView {
    RequestFailed { message: Seq<char> },
    HttpStatus { status: u16 },
    Timeout { seconds: u64 },
    Network { message: Seq<char> },
}

impl HttpErrorView {
    /// The text that describes the error.
    pub open spec fn message(self) -> Seq<char> {
        match self {
            HttpErrorView::RequestFailed { message } => "Request failed: "@ + message,
            HttpErrorView::HttpStatus { status } => "HTTP error: "@ + decimal(status as nat),
            HttpErrorView::Timeout { seconds } => "Timeout after "@ + decimal(seconds as nat)
                + " seconds"@,
            HttpErrorView::Network { message } => "Network error: "@ + message,
        }
    }
}

impl View for HttpError {
    type V = HttpErrorView;

    open spec fn view(&self) -> HttpErrorView {
        match self {
            HttpError::RequestFailed { message } => HttpErrorView::RequestFailed {
                message: message@,
            },
            HttpError::HttpStatus { status } => HttpErrorView::HttpStatus { status: *status },
            HttpError::Timeout { seconds } => HttpErrorView::Timeout { seconds: *seconds },
            HttpError::Network { message } => HttpErrorView::Network { message: message@ },
        }
    }
}

impl Clone for HttpError {
    fn clone(&self) -> (r: Self)
        ensures
            r@ == self@,
    {
        match self {
            HttpError::RequestFailed { message } => HttpError::RequestFailed {
                message: message.clone(),
            },
            HttpError::HttpStatus { status } => HttpError::HttpStatus { status: *status },
            HttpError::Timeout { seconds } => HttpError::Timeout { seconds: *seconds },
            HttpError::Network { message } => HttpError::Network { message: message.clone() },
        }
    }
}

impl HttpError {
    /// The text that describes the error.
    pub fn message(&self) -> (r: String)
        ensures
            r@ == self@.message(),
    {
        match self {
            HttpError::RequestFailed { message } => joined("Request failed: ", message.as_str()),
            HttpError::HttpStatus { status } => joined(
                "HTTP error: ",
                u64_to_string(*status as u64).as_str(),
            ),
            HttpError::Timeout { seconds } => {
                let mut s = joined("Timeout after ", u64_to_string(*seconds).as_str());
                s.append(" seconds");
                s
            },
            HttpError::Network { message } => joined("Network error: ", message.as_str()),
        }
    }
}

/// What a failed request says of itself.
#[derive(Debug)]
pub struct RequestFailure {
    /// Whether the request ran out of time.
    pub timed_out: bool,
    /// Whether the connection could not be made.
    pub connect: bool,
    /// The status of the answer, if there was one.
    pub status: Option<u16>,
    /// The failure in words.
    pub text: String,
}

/// The error that a failed request stands for: a timeout if it ran out of
/// time, else a network error if the connection could not be made, else
/// the status of the answer if there was one, else a failed request.
pub open spec fn failure_error(failure: RequestFailure) -> HttpErrorView {
    if failure.timed_out {
        HttpErrorView::Timeout { seconds: 60 }
    } else if failure.connect {
        HttpErrorView::Network { message: "Connection failed: "@ + failure.text@ }
    } else {
        match failure.status {
            Some(status) => HttpErrorView::HttpStatus { status },
            None => HttpErrorView::RequestFailed { message: failure.text@ },
        }
    }
}

impl HttpError {
    /// The error that a failed request stands for.
    pub fn from_failure(failure: RequestFailure) -> (r: HttpError)
        ensures
            r@ == failure_error(failure),
    {
        if failure.timed_out {
            HttpError::Timeout { seconds: 60 }
        } else if failure.connect {
            HttpError::Network { message: joined("Connection failed: ", failure.text.as_str()) }
        } else {
            match failure.status {
                Some(status) => HttpError::HttpStatus { status },
                None => HttpError::RequestFailed { message: failure.text },
            }
        }
    }

    /// Whether a status says that the server can be reached: from 200 up
    /// to but without 400 it does; any other is the error of that status.
    pub fn check_reachable(status: u16) -> (r: Result<(), HttpError>)
        ensures
            match r {
                Ok(_) => 200 <= status < 400,
                Err(e) => !(200 <= status < 400) && e@ == (HttpErrorView::HttpStatus { status }),
            },
    {
        if status >= 200 && status < 400 {
            Ok(())
        } else {
            Err(HttpError::HttpStatus { status })
        }
    }
}

/// An HTTP response.
#[derive(Debug)]
pub struct HttpResponse {
    pub status: u16,
    pub body: String,
    pub headers: TagMap,
}

impl Clone for HttpResponse {
    fn clone(&self) -> (r: Self)
        ensures
            r.status == self.status,
            r.body@ == self.body@,
            r.headers@ == self.headers@,
    {
        HttpResponse {
            status: self.status,
            body: self.body.clone(),
            headers: self.headers.clone(),
        }
    }
}

/// The configuration of an HTTP client.
#[derive(Debug)]
pub struct HttpConfig {
    /// How long a request may take.
    pub timeout: Duration,
    /// What the client calls itself.
    pub user_agent: String,
    /// Headers that go with every request.
    pub default_headers: TagMap,
}

impl Default for HttpConfig {
    fn default() -> (r: Self)
        ensures
            r.is_default(),
    {
        HttpConfig {
            timeout: Duration::from_secs(60),
            user_agent: String::from_str(USER_AGENT),
            default_headers: TagMap::new(),
        }
    }
}

impl Clone for HttpConfig {
    fn clone(&self) -> (r: Self)
        ensures
            r.timeout == self.timeout,
            r.user_agent@ == self.user_agent@,
            r.default_headers@ == self.default_headers@,
            r.default_headers.entries_view() == self.default_headers.entries_view(),
    {
        HttpConfig {
            timeout: self.timeout,
            user_agent: self.user_agent.clone(),
            default_headers: self.default_headers.clone(),
        }
    }
}

impl HttpConfig {
    /// Whether this is the default configuration: a minute of time, the
    /// user agent of this library, and no headers.
    pub open spec fn is_default(&self) -> bool {
        &&& whole_seconds(self.timeout) == 60
        &&& self.user_agent@ == USER_AGENT@
        &&& self.default_headers@ == Map::<Seq<char>, Seq<char>>::empty()
        &&& self.default_headers.entries_view().len() == 0
    }

    /// The default configuration: a minute of time, and no headers.
    pub fn new() -> (r: Self)
        ensures
            r.is_default(),
    {
        HttpConfig::default()
    }

    /// The configuration with another timeout.
    pub fn with_timeout(self, timeout: Duration) -> (r: Self)
        ensures
            r.timeout == timeout,
            r.user_agent == self.user_agent,
            r.default_headers == self.default_headers,
    {
        let mut config = self;
        config.timeout = timeout;
        config
    }

    /// The configuration with another user agent.
    pub fn with_user_agent(self, user_agent: &str) -> (r: Self)
        ensures
            r.user_agent@ == user_agent@,
            r.timeout == self.timeout,
            r.default_headers == self.default_headers,
    {
        let mut config = self;
        config.user_agent = user_agent.to_owned();
        config
    }

    /// The configuration with one more header, which replaces an earlier
    /// one of the same name in its place.
    pub fn with_header(self, key: &str, value: &str) -> (r: Self)
        ensures
            r.default_headers@ == self.default_headers@.insert(key@, value@),
            pair_texts(r.default_headers.entries_view()) == crate::tags::texts_with(
                pair_texts(self.default_headers.entries_view()),
                key@,
                value@,
            ),
            r.timeout == self.timeout,
            r.user_agent == self.user_agent,
    {
        let mut config = self;
        config.default_headers.insert(key.to_owned(), value.to_owned());
        config
    }
}

/// The kind of error that a failure text of the transport stands for: a
/// timeout if it speaks of one, else a network failure if it speaks of a
/// connection, else a failed request.
pub open spec fn transport_error(text: Seq<char>) -> HttpErrorView {
    if text_contains(text, "timeout"@) || text_contains(text, "Timeout"@) {
        HttpErrorView::Timeout { seconds: 60 }
    } else if text_contains(text, "connection"@) || text_contains(text, "Connection"@) {
        HttpErrorView::Network { message: text }
    } else {
        HttpErrorView::RequestFailed { message: text }
    }
}

/// The body of a form: each pair as its percent-encoded key, `=` and its
/// percent-encoded value, the pairs joined by `&`.
pub open spec fn form_encoded(pairs: Seq<(String, String)>) -> Seq<char>
    decreases pairs.len(),
{
    if pairs.len() == 0 {
        Seq::empty()
    } else {
        let pair = percent_encoded(encode_utf8(pairs.last().0@)) + "="@ + percent_encoded(
            encode_utf8(pairs.last().1@),
        );
        if pairs.len() == 1 {
            pair
        } else {
            form_encoded(pairs.drop_last()) + "&"@ + pair
        }
    }
}

/// A client for HTTP that works in the browser as well: here, its
/// configuration and how it puts a request together.
#[derive(Debug)]
pub struct EhttpClient {
    config: HttpConfig,
}

impl EhttpClient {
    /// The configuration of the client.
    pub closed spec fn config_spec(&self) -> HttpConfig {
        self.config
    }

    /// A client with the default configuration.
    pub fn new() -> (r: Self)
        ensures
            r.config_spec().is_default(),
    {
        EhttpClient::with_config(HttpConfig::default())
    }

    /// A client with the given configuration.
    pub fn with_config(config: HttpConfig) -> (r: Self)
        ensures
            r.config_spec() == config,
    {
        EhttpClient { config }
    }

    /// The configuration of the client.
    pub fn config(&self) -> (r: &HttpConfig)
        ensures
            *r == self.config_spec(),
    {
        &self.config
    }

    /// The error that a failure text of the transport stands for.
    pub fn convert_error(error: String) -> (r: HttpError)
        ensures
            r@ == transport_error(error@),
    {
        if contains_text(error.as_str(), "timeout") || contains_text(error.as_str(), "Timeout") {
            HttpError::Timeout { seconds: 60 }
        } else if contains_text(error.as_str(), "connection") || contains_text(
            error.as_str(),
            "Connection",
        ) {
            HttpError::Network { message: error }
        } else {
            HttpError::RequestFailed { message: error }
        }
    }

    /// The headers of a request: the default headers of the
    /// configuration, then the user agent, then the additional headers.
    pub fn build_headers(&self, additional: &Vec<(String, String)>) -> (r: Vec<(String, String)>)
        ensures
            pair_texts(r@) == pair_texts(self.config_spec().default_headers.entries_view()).push(
                ("User-Agent"@, self.config_spec().user_agent@),
            ) + pair_texts(additional@),
    {
        let mut headers: Vec<(String, String)> = Vec::new();
        let defaults = &self.config.default_headers;
        let ghost entries = defaults.entries_view();
        let n = defaults.len();
        let mut i: usize = 0;
        assert(pair_texts(headers@) =~= pair_texts(entries.take(0)));
        while i < n
            invariant
                i <= n,
                n == entries.len(),
                entries == defaults.entries_view(),
                pair_texts(headers@) == pair_texts(entries.take(i as int)),
            decreases n - i,
        {
            let ghost before = headers@;
            headers.push((defaults.key_at(i).clone(), defaults.value_at(i).clone()));
            assert(pair_texts(headers@) =~= pair_texts(entries.take(i + 1))) by {
                assert(pair_texts(headers@) =~= pair_texts(before).push(
                    (entries[i as int].0@, entries[i as int].1@),
                ));
                assert(pair_texts(entries.take(i + 1)) =~= pair_texts(entries.take(i as int)).push(
                    (entries[i as int].0@, entries[i as int].1@),
                ));
            }
            i += 1;
        }
        assert(entries.take(n as int) =~= entries);
        let ghost first = headers@;
        headers.push((String::from_str("User-Agent"), self.config.user_agent.clone()));
        let ghost second = headers@;
        assert(pair_texts(second) =~= pair_texts(entries).push(
            ("User-Agent"@, self.config.user_agent@),
        ));
        let mut j: usize = 0;
        assert(pair_texts(headers@) =~= pair_texts(second) + pair_texts(additional@.take(0)));
        while j < additional.len()
            invariant
                j <= additional@.len(),
                pair_texts(headers@) == pair_texts(second) + pair_texts(additional@.take(j as int)),
            decreases additional@.len() - j,
        {
            let ghost before = headers@;
            headers.push((additional[j].0.clone(), additional[j].1.clone()));
            assert(pair_texts(headers@) =~= pair_texts(second) + pair_texts(
                additional@.take(j + 1),
            )) by {
                assert(pair_texts(headers@) =~= pair_texts(before).push(
                    (additional@[j as int].0@, additional@[j as int].1@),
                ));
                assert(pair_texts(additional@.take(j + 1)) =~= pair_texts(
                    additional@.take(j as int),
                ).push((additional@[j as int].0@, additional@[j as int].1@)));
            }
            j += 1;
        }
        assert(additional@.take(additional@.len() as int) =~= additional@);
        headers
    }

    /// The body of a form with the given pairs.
    pub fn form_body(form_data: &Vec<(String, String)>) -> (r: String)
        ensures
            r@ == form_encoded(form_data@),
    {
        let mut body = String::new();
        let mut i: usize = 0;
        assert(form_data@.take(0).len() == 0);
        while i < form_data.len()
            invariant
                i <= form_data@.len(),
                body@ == form_encoded(form_data@.take(i as int)),
            decreases form_data@.len() - i,
        {
            proof {
                let next = form_data@.take(i + 1);
                assert(next.drop_last() =~= form_data@.take(i as int));
                assert(next.last() == form_data@[i as int]);
            }
            let ghost before = body@;
            if i > 0 {
                body.append("&");
            }
            body.append(percent_encode(form_data[i].0.as_str()).as_str());
            body.append("=");
            body.append(percent_encode(form_data[i].1.as_str()).as_str());
            proof {
                let pair = percent_encoded(encode_utf8(form_data@[i as int].0@)) + "="@
                    + percent_encoded(encode_utf8(form_data@[i as int].1@));
                if i > 0 {
                    assert(body@ =~= before + "&"@ + pair);
                } else {
                    assert(before.len() == 0);
                    assert(body@ =~= pair);
                }
            }
            i += 1;
        }
        assert(form_data@.take(form_data@.len() as int) =~= form_data@);
        body
    }
}

impl Default for EhttpClient {
    fn default() -> (r: Self)
        ensures
            r.config_spec().is_default(),
    {
        EhttpClient::new()
    }
}

} // verus!
