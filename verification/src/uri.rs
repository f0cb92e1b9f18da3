//! The connection URI: `redis://<host>[:<port>][/<db-index>]`.

use crate::text::{
    decimal_i64, lemma_other_character_is_no_decimal, lemma_trim_keeps_others, parse_decimal,
    trim_ascii, trimmed,
};
use vstd::prelude::*;

verus! {

/// The port that is used where the URI names none.
pub const DEFAULT_PORT: u16 = 6379;

/// The scheme that a connection URI must have.
pub open spec fn scheme() -> Seq<char> {
    "redis"@
}

/// The components of a parsed URI that the client reads.
#[derive(Clone, Debug, PartialEq, Eq)]
pub struct UriParts {
    /// The scheme, without the `:`.
    pub scheme: String,
    /// The host, where the URI has one.
    pub host: Option<String>,
    /// The port, where the URI names one.
    pub port: Option<u16>,
    /// The path, with its separators.
    pub path: String,
}

/// The mathematical model of [`UriParts`].
pub struct UriView {
    pub scheme: Seq<char>,
    pub host: Option<Seq<char>>,
    pub port: Option<u16>,
    pub path: Seq<char>,
}

impl View for UriParts {
    type V = UriView;

    open spec fn view(&self) -> UriView {
        UriView {
            scheme: self.scheme@,
            host: match self.host {
                Some(h) => Some(h@),
                None => None,
            },
            port: self.port,
            path: self.path@,
        }
    }
}

/// The model of an optional [`UriParts`].
pub open spec fn parts_view(parts: Option<UriParts>) -> Option<UriView> {
    match parts {
        Some(p) => Some(p@),
        None => None,
    }
}

/// What the URL parser makes of a text: its components where the text is an
/// absolute URL, nothing where it is not.
pub uninterp spec fn parsed_uri(text: Seq<char>) -> Option<UriView>;

/// `url::Url::parse`, read through `scheme`, `host_str`, `port` and `path`.
/// The parser is a function of the text alone, and this is its result.
#[verifier::external_body]
pub(crate) fn parse_uri(text: &str) -> (r: Option<UriParts>)
    ensures
        parts_view(r) == parsed_uri(text@),
{
    match url::Url::parse(text) {
        Ok(u) => Some(
            UriParts {
                scheme: String::from(u.scheme()),
                host: u.host_str().map(String::from),
                port: u.port(),
                path: String::from(u.path()),
            },
        ),
        Err(_) => None,
    }
}

impl UriView {
    /// The host to look up: the URI's host, or the empty name where it has
    /// none.
    pub open spec fn host_name(self) -> Seq<char> {
        match self.host {
            Some(h) => h,
            None => Seq::empty(),
        }
    }

    /// The port to connect to: the URI's own, or the default.
    pub open spec fn port_number(self) -> u16 {
        match self.port {
            Some(p) => p,
            None => DEFAULT_PORT,
        }
    }

    /// The database that the URI selects.
    pub open spec fn db(self) -> i64 {
        db_index_of(self.path)
    }
}

/// The database index that a path selects: the decimal integer that is left
/// when the separators around it are taken away, and 0 where that is no
/// integer.
pub open spec fn db_index_of(path: Seq<char>) -> i64 {
    match decimal_i64(trimmed(path, '/')) {
        Some(n) => n,
        None => 0,
    }
}

/// Reads the database index from the path of a URI. A path that names no
/// integer selects database 0: this is never an error.
pub fn db_index(path: &str) -> (db: i64)
    ensures
        db == db_index_of(path@),
{
    if !path.is_ascii() {
        proof {
            let k = choose|k: int|
                0 <= k < path@.len() && !('\0' <= #[trigger] path@[k] && path@[k] <= '\u{7f}');
            lemma_trim_keeps_others(path@, '/', path@[k]);
            lemma_other_character_is_no_decimal(trimmed(path@, '/'), path@[k]);
        }
        return 0;
    }
    match parse_decimal(trim_ascii(path, '/')) {
        Some(n) => n,
        None => 0,
    }
}

} // verus!
