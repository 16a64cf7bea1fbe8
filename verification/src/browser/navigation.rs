//! Turning what a user types into an address bar into a URL.

use vstd::prelude::*;
use vstd::utf8::encode_utf8;
use crate::browser::error::{BrowserError, BrowserResult, NavigationError};
use crate::text::{concat, contains, contains_seq, digit_char, equals, has_prefix, replace, replace_seq, starts_with, to_string};

verus! {

/// The message of the error that `url::Url::parse` gives for `input`, or
/// `None` where it accepts `input`.
pub uninterp spec fn url_parse_failure(input: Seq<char>) -> Option<Seq<char>>;

/// `Url::as_str` of the URL parsed from `input`: its serialization.
pub uninterp spec fn url_text(input: Seq<char>) -> Seq<char>;

/// `Url::scheme` of the URL parsed from `input`.
pub uninterp spec fn url_scheme(input: Seq<char>) -> Seq<char>;

/// `Url::host_str` of the URL parsed from `input`.
pub uninterp spec fn url_host(input: Seq<char>) -> Option<Seq<char>>;

/// `Url::path` of the URL parsed from `input`.
pub uninterp spec fn url_path(input: Seq<char>) -> Seq<char>;

/// `Url::port` of the URL parsed from `input`: the port written in it, where
/// that is not the default port of its scheme.
pub uninterp spec fn url_port(input: Seq<char>) -> Option<u16>;

/// The parts of a parsed URL that the browser reads.
pub struct WebUrlView {
    pub text: Seq<char>,
    pub scheme: Seq<char>,
    pub host: Option<Seq<char>>,
    pub path: Seq<char>,
    pub port: Option<u16>,
}

/// The URL that `url::Url::parse` makes of `input`, seen through its parts.
pub open spec fn web_url_of(input: Seq<char>) -> WebUrlView {
    WebUrlView {
        text: url_text(input),
        scheme: url_scheme(input),
        host: url_host(input),
        path: url_path(input),
        port: url_port(input),
    }
}

/// A parsed URL, held by its serialization, scheme, host and path.
#[derive(Debug, Clone)]
pub struct WebUrl {
    text: String,
    scheme: String,
    host: Option<String>,
    path: String,
    port: Option<u16>,
}

/// The characters of an optional string.
pub open spec fn opt_view(s: Option<String>) -> Option<Seq<char>> {
    match s {
        Some(t) => Some(t@),
        None => None,
    }
}

impl View for WebUrl {
    type V = WebUrlView;

    closed spec fn view(&self) -> WebUrlView {
        WebUrlView {
            text: self.text@,
            scheme: self.scheme@,
            host: opt_view(self.host),
            path: self.path@,
            port: self.port,
        }
    }
}

impl WebUrl {
    /// The whole URL as text.
    pub fn as_str(&self) -> (res: &str)
        ensures
            res@ == self@.text,
    {
        self.text.as_str()
    }

    /// The scheme, without the colon.
    pub fn scheme(&self) -> (res: &str)
        ensures
            res@ == self@.scheme,
    {
        self.scheme.as_str()
    }

    /// The host, where the URL has one.
    pub fn host_str(&self) -> (res: Option<&str>)
        ensures
            res matches Some(h) ==> self@.host == Some(h@),
            res is None ==> self@.host is None,
    {
        match &self.host {
            Some(h) => Some(h.as_str()),
            None => None,
        }
    }

    /// The path.
    pub fn path(&self) -> (res: &str)
        ensures
            res@ == self@.path,
    {
        self.path.as_str()
    }

    /// The port written in the URL, where it is not the scheme's default.
    pub fn port(&self) -> (res: Option<u16>)
        ensures
            res == self@.port,
    {
        self.port
    }

    /// Whether the scheme is `https`.
    fn is_https(&self) -> (res: bool)
        ensures
            res == (self@.scheme == "https"@),
    {
        equals(self.scheme.as_str(), "https")
    }

    /// Whether the host is `www.google.com` and the path `/search`.
    fn is_google_search(&self) -> (res: bool)
        ensures
            res == (self@.host == Some("www.google.com"@) && self@.path == "/search"@),
    {
        let host_matches = match &self.host {
            Some(h) => equals(h.as_str(), "www.google.com"),
            None => false,
        };
        host_matches && equals(self.path.as_str(), "/search")
    }
}

/// `url::Url::parse`, with the parsed URL taken apart into its serialization,
/// scheme, host and path, and an error turned into its message.
#[verifier::external_body]
pub(crate) fn parse_web_url(input: &str) -> (res: Result<WebUrl, String>)
    ensures
        match res {
            Ok(u) => url_parse_failure(input@) is None && u@.text == url_text(input@) && u@.scheme
                == url_scheme(input@) && u@.host == url_host(input@) && u@.path == url_path(input@)
                && u@.port == url_port(input@),
            Err(e) => url_parse_failure(input@) == Some(e@),
        },
{
    match url::Url::parse(input) {
        Ok(u) => Ok(WebUrl {
            text: u.as_str().to_string(),
            scheme: u.scheme().to_string(),
            host: match u.host_str() {
                Some(h) => Some(h.to_string()),
                None => None,
            },
            path: u.path().to_string(),
            port: u.port(),
        }),
        Err(e) => Err(e.to_string()),
    }
}

/// An upper-case hexadecimal digit for `d` below sixteen.
pub open spec fn hex_digit(d: nat) -> char {
    if d < 10 {
        digit_char(d)
    } else {
        ((d + 55) as u32) as char
    }
}

/// Bytes that percent-encoding leaves as they are: ASCII letters, digits,
/// `-`, `_`, `.` and `~`.
pub open spec fn is_unreserved_byte(b: u8) -> bool {
    (48 <= b <= 57) || (65 <= b <= 90) || (97 <= b <= 122) || b == 45 || b == 95 || b == 46 || b == 126
}

/// One byte, percent-encoded.
pub open spec fn percent_encode_byte(b: u8) -> Seq<char> {
    if is_unreserved_byte(b) {
        seq![b as char]
    } else {
        seq!['%', hex_digit((b / 16) as nat), hex_digit((b % 16) as nat)]
    }
}

/// `bytes` percent-encoded byte by byte.
pub open spec fn percent_encode(bytes: Seq<u8>) -> Seq<char>
    decreases bytes.len(),
{
    if bytes.len() == 0 {
        Seq::empty()
    } else {
        percent_encode(bytes.drop_last()) + percent_encode_byte(bytes.last())
    }
}

/// `urlencoding::encode`: every byte of the UTF-8 encoding of `s` but ASCII
/// letters, digits and `-_.~` written as `%` and two upper-case hexadecimal
/// digits.
#[verifier::external_body]
fn url_encode(s: &str) -> (res: String)
    ensures
        res@ == percent_encode(encode_utf8(s@)),
{
    urlencoding::encode(s).into_owned()
}

/// An input that names the `http` or `https` scheme without the `//` after it
/// and has no dot in it, so that no host name can be read from it.
pub open spec fn lacks_authority_slashes(input: Seq<char>) -> bool {
    &&& (has_prefix(input, "http:"@) && !has_prefix(input, "http://"@))
        || (has_prefix(input, "https:"@) && !has_prefix(input, "https://"@))
    &&& !contains_seq(input, "."@)
}

/// An input that starts with `http://` or `https://`.
pub open spec fn has_web_scheme(input: Seq<char>) -> bool {
    has_prefix(input, "http://"@) || has_prefix(input, "https://"@)
}

/// The search URL for an input that is no address.
pub open spec fn search_address(input: Seq<char>) -> Seq<char> {
    "https://www.google.com/search?q="@ + percent_encode(encode_utf8(input))
}

/// What an address-bar input is parsed as: the text handed to the URL parser
/// that accepted it, or the message of the error.
///
/// The input itself is tried first; an input without a web scheme is then
/// tried behind `https://`, and last as a search query.
pub open spec fn address_outcome(input: Seq<char>) -> Result<Seq<char>, Seq<char>> {
    if lacks_authority_slashes(input) {
        Err("Invalid URL: "@ + input)
    } else if url_parse_failure(input) is None {
        Ok(input)
    } else if has_web_scheme(input) {
        Err("Invalid URL: "@ + input)
    } else if url_parse_failure("https://"@ + input) is None {
        Ok("https://"@ + input)
    } else if url_parse_failure(search_address(input)) is None {
        Ok(search_address(input))
    } else {
        Err(url_parse_failure(search_address(input))->0)
    }
}

/// A parsed URL as the browser sees it.
pub struct ParsedUrlView {
    pub url: WebUrlView,
    pub is_secure: bool,
    pub is_search: bool,
    pub original_input: Seq<char>,
}

/// The parsed URL made from `input` when the parser accepted `target`.
pub open spec fn parsed_url_of(input: Seq<char>, target: Seq<char>) -> ParsedUrlView {
    ParsedUrlView {
        url: web_url_of(target),
        is_secure: url_scheme(target) == "https"@,
        is_search: url_host(target) == Some("www.google.com"@) && url_path(target) == "/search"@,
        original_input: input,
    }
}

/// A URL made from user input, with what the browser needs to know of it.
#[derive(Debug, Clone)]
pub struct ParsedUrl {
    url: WebUrl,
    is_secure: bool,
    is_search: bool,
    original_input: String,
}

impl View for ParsedUrl {
    type V = ParsedUrlView;

    closed spec fn view(&self) -> ParsedUrlView {
        ParsedUrlView {
            url: self.url@,
            is_secure: self.is_secure,
            is_search: self.is_search,
            original_input: self.original_input@,
        }
    }
}

/// The navigation error for an invalid URL with message `m`.
pub open spec fn is_invalid_url(e: BrowserError, m: Seq<char>) -> bool {
    e matches BrowserError::Navigation(NavigationError::InvalidUrl(s)) && s@ == m
}

/// The error that refuses `input`.
fn invalid_input(input: &str) -> (res: BrowserError)
    ensures
        is_invalid_url(res, "Invalid URL: "@ + input@),
{
    BrowserError::Navigation(NavigationError::InvalidUrl(concat("Invalid URL: ", input)))
}

impl ParsedUrl {
    fn from_parts(input: &str, url: WebUrl) -> (res: ParsedUrl)
        ensures
            res@ == (ParsedUrlView {
                url: url@,
                is_secure: url@.scheme == "https"@,
                is_search: url@.host == Some("www.google.com"@) && url@.path == "/search"@,
                original_input: input@,
            }),
    {
        let is_secure = url.is_https();
        let is_search = url.is_google_search();
        ParsedUrl { url, is_secure, is_search, original_input: to_string(input) }
    }

    /// Parses what a user typed: an address, an address without its scheme
    /// (taken as `https`), or else a search query.
    pub fn new(input: &str) -> (res: BrowserResult<ParsedUrl>)
        ensures
            match address_outcome(input@) {
                Ok(target) => res matches Ok(p) && p@ == parsed_url_of(input@, target),
                Err(m) => res matches Err(e) && is_invalid_url(e, m),
            },
    {
        if ((starts_with(input, "http:") && !starts_with(input, "http://")) || (starts_with(input, "https:")
            && !starts_with(input, "https://"))) && !contains(input, ".") {
            return Err(invalid_input(input));
        }
        match parse_web_url(input) {
            Ok(url) => {
                return Ok(ParsedUrl::from_parts(input, url));
            },
            Err(_) => {},
        }
        if starts_with(input, "http://") || starts_with(input, "https://") {
            return Err(invalid_input(input));
        }
        let with_scheme = concat("https://", input);
        match parse_web_url(with_scheme.as_str()) {
            Ok(url) => {
                return Ok(ParsedUrl::from_parts(input, url));
            },
            Err(_) => {},
        }
        let encoded = url_encode(input);
        let search = concat("https://www.google.com/search?q=", encoded.as_str());
        match parse_web_url(search.as_str()) {
            Ok(url) => Ok(ParsedUrl::from_parts(input, url)),
            Err(e) => Err(BrowserError::Navigation(NavigationError::InvalidUrl(e))),
        }
    }

    /// The URL.
    pub fn url(&self) -> (res: &WebUrl)
        ensures
            res@ == self@.url,
    {
        &self.url
    }

    /// What the user typed.
    pub fn original_input(&self) -> (res: &str)
        ensures
            res@ == self@.original_input,
    {
        self.original_input.as_str()
    }

    /// Whether the URL uses `https`.
    pub fn is_secure(&self) -> (res: bool)
        ensures
            res == self@.is_secure,
    {
        self.is_secure
    }

    /// Whether the input was taken as a search query.
    pub fn is_search(&self) -> (res: bool)
        ensures
            res == self@.is_search,
    {
        self.is_search
    }

    /// The text shown in the address bar: a magnifier and the query for a
    /// search, else the URL.
    pub fn display_url(&self) -> (res: String)
        ensures
            res@ == if self@.is_search {
                "🔍 "@ + self@.original_input
            } else {
                self@.url.text
            },
    {
        if self.is_search {
            concat("🔍 ", self.original_input.as_str())
        } else {
            to_string(self.url.as_str())
        }
    }
}

/// Parses user input and builds search URLs.
#[derive(Clone)]
pub struct UrlManager {
    search_engine: String,
}

impl View for UrlManager {
    type V = Seq<char>;

    /// The search engine's URL template.
    closed spec fn view(&self) -> Seq<char> {
        self.search_engine@
    }
}

impl UrlManager {
    /// A manager that searches with Google.
    pub fn new() -> (res: UrlManager)
        ensures
            res@ == "https://www.google.com/search?q={}"@,
    {
        UrlManager { search_engine: to_string("https://www.google.com/search?q={}") }
    }

    /// Sets the search engine's URL template, in which `{}` stands for the
    /// query; a template without `{}`, or that does not make a URL with a
    /// query in it, is refused and the engine kept.
    pub fn set_search_engine(&mut self, url: String) -> (res: BrowserResult<()>)
        ensures
            !contains_seq(url@, "{}"@) ==> (res matches Err(e) && is_invalid_url(
                e,
                "Search engine URL must contain {} placeholder for query"@,
            )) && final(self)@ == old(self)@,
            contains_seq(url@, "{}"@) ==> match url_parse_failure(replace_seq(url@, "{}"@, "test"@)) {
                Some(m) => (res matches Err(e) && is_invalid_url(e, "Invalid search engine URL: "@ + m))
                    && final(self)@ == old(self)@,
                None => res is Ok && final(self)@ == url@,
            },
    {
        if !contains(url.as_str(), "{}") {
            return Err(
                BrowserError::Navigation(
                    NavigationError::InvalidUrl(
                        to_string("Search engine URL must contain {} placeholder for query"),
                    ),
                ),
            );
        }
        proof {
            reveal_strlit("{}");
        }
        let test_url = replace(url.as_str(), "{}", "test");
        match parse_web_url(test_url.as_str()) {
            Ok(_) => {},
            Err(e) => {
                return Err(
                    BrowserError::Navigation(
                        NavigationError::InvalidUrl(concat("Invalid search engine URL: ", e.as_str())),
                    ),
                );
            },
        }
        self.search_engine = url;
        Ok(())
    }

    /// Parses user input as `ParsedUrl::new` does.
    pub fn parse_input(&self, input: &str) -> (res: BrowserResult<ParsedUrl>)
        ensures
            match address_outcome(input@) {
                Ok(target) => res matches Ok(p) && p@ == parsed_url_of(input@, target),
                Err(m) => res matches Err(e) && is_invalid_url(e, m),
            },
    {
        ParsedUrl::new(input)
    }

    /// The search URL for `query`: the template with each `{}` replaced by the
    /// percent-encoded query.
    pub fn to_search_url(&self, query: &str) -> (res: String)
        ensures
            res@ == replace_seq(self@, "{}"@, percent_encode(encode_utf8(query@))),
    {
        proof {
            reveal_strlit("{}");
        }
        let encoded = url_encode(query);
        replace(self.search_engine.as_str(), "{}", encoded.as_str())
    }
}

impl Default for UrlManager {
    fn default() -> (res: UrlManager)
        ensures
            res@ == "https://www.google.com/search?q={}"@,
    {
        UrlManager::new()
    }
}

} // verus!
