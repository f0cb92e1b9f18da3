//! The value vocabulary of the protocol: replies, error kinds, and the small
//! enumerations that commands are built from.

use crate::text::{lemma_parsed_is_outcome, parse_as, parses_as};
use std::str::FromStr;
use vstd::prelude::*;
use vstd::string::*;
use vstd::utf8::*;

verus! {

/// The kind of an error that the server reported inside a reply.
#[derive(Debug, PartialEq, Eq)]
pub enum Error {
    ResponseError,
    ExecAbortError,
    BusyLoadingError,
    NoScriptError,
    UnknownError,
    /// An error code outside the known set, kept verbatim.
    ExtensionError(String),
}

/// The mathematical model of an [`Error`].
pub enum ErrorView {
    ResponseError,
    ExecAbortError,
    BusyLoadingError,
    NoScriptError,
    UnknownError,
    ExtensionError(Seq<char>),
}

impl View for Error {
    type V = ErrorView;

    open spec fn view(&self) -> ErrorView {
        match self {
            Error::ResponseError => ErrorView::ResponseError,
            Error::ExecAbortError => ErrorView::ExecAbortError,
            Error::BusyLoadingError => ErrorView::BusyLoadingError,
            Error::NoScriptError => ErrorView::NoScriptError,
            Error::UnknownError => ErrorView::UnknownError,
            Error::ExtensionError(code) => ErrorView::ExtensionError(code@),
        }
    }
}

impl Clone for Error {
    fn clone(&self) -> (r: Error)
        ensures
            r@ == self@,
    {
        match self {
            Error::ResponseError => Error::ResponseError,
            Error::ExecAbortError => Error::ExecAbortError,
            Error::BusyLoadingError => Error::BusyLoadingError,
            Error::NoScriptError => Error::NoScriptError,
            Error::UnknownError => Error::UnknownError,
            Error::ExtensionError(code) => Error::ExtensionError(code.clone()),
        }
    }
}

/// Why a client could not be opened, or a connection not be made.
#[derive(Clone, Copy, Debug, PartialEq, Eq)]
pub enum ConnectFailure {
    /// The URI is malformed, has another scheme, or names a host whose
    /// lookup failed.
    InvalidURI,
    /// The lookup of the host succeeded and gave no address.
    HostNotFound,
    /// Nothing accepted the connection in time.
    ConnectionRefused,
}

/// How the server is asked to shut down.
#[derive(Clone, Copy, Debug, PartialEq, Eq)]
pub enum ShutdownMode {
    ShutdownNormal,
    ShutdownSave,
    ShutdownNoSave,
}

/// The type of the value that a key holds.
#[derive(Clone, Copy, Debug, PartialEq, Eq)]
pub enum KeyType {
    StringType,
    ListType,
    SetType,
    ZSetType,
    HashType,
    UnknownType,
    NilType,
}

/// One end of a range of scores. A finite bound is held as the decimal text
/// of its number, which is what the protocol's range syntax is written from.
#[derive(Clone, Debug, PartialEq, Eq)]
pub enum RangeBoundary {
    /// The bound itself is outside the range.
    Open(String),
    /// The bound itself is inside the range.
    Closed(String),
    /// No upper bound.
    Inf,
    /// No lower bound.
    NegInf,
}

/// Values that have a textual form in the protocol.
pub trait ToStr {
    fn to_str(&self) -> String;
}

impl RangeBoundary {
    /// The bound in the protocol's range syntax.
    pub open spec fn rendering(self) -> Seq<char> {
        match self {
            RangeBoundary::Open(bound) => "("@ + bound@,
            RangeBoundary::Closed(bound) => bound@,
            RangeBoundary::Inf => "+inf"@,
            RangeBoundary::NegInf => "-inf"@,
        }
    }
}

impl ToStr for RangeBoundary {
    fn to_str(&self) -> (r: String)
        ensures
            r@ == self.rendering(),
    {
        match self {
            RangeBoundary::Open(bound) => "(".to_owned().concat(bound.as_str()),
            RangeBoundary::Closed(bound) => bound.clone(),
            RangeBoundary::Inf => "+inf".to_owned(),
            RangeBoundary::NegInf => "-inf".to_owned(),
        }
    }
}

/// One reply of the server, in any of the shapes the protocol knows.
#[derive(Debug, PartialEq, Eq)]
pub enum Value {
    /// A reply that could not be recognised.
    Invalid,
    /// The protocol's null.
    Nil,
    /// A numeric reply.
    Int(i64),
    /// A bulk string reply.
    Data(Vec<u8>),
    /// A multi-bulk reply; elements may be of any shape, arrays included.
    Bulk(Vec<Value>),
    /// An error reported by the server, with its message.
    Error(Error, String),
    /// The plain acknowledgement.
    Success,
    /// A status line.
    Status(String),
}

/// The mathematical model of a [`Value`]: the same shapes over sequences.
pub enum ValueView {
    Invalid,
    Nil,
    Int(i64),
    Data(Seq<u8>),
    Bulk(Seq<ValueView>),
    Error(ErrorView, Seq<char>),
    Success,
    Status(Seq<char>),
}

impl Value {
    /// The model of the reply: each payload by its sequence, each element of
    /// an array by its own model.
    pub open spec fn model(self) -> ValueView
        decreases self,
    {
        match self {
            Value::Invalid => ValueView::Invalid,
            Value::Nil => ValueView::Nil,
            Value::Int(n) => ValueView::Int(n),
            Value::Data(payload) => ValueView::Data(payload@),
            Value::Bulk(items) => ValueView::Bulk(
                Seq::new(
                    items.len() as nat,
                    |i: int|
                        if 0 <= i < items.len() {
                            items[i].model()
                        } else {
                            ValueView::Invalid
                        },
                ),
            ),
            Value::Error(kind, message) => ValueView::Error(kind@, message@),
            Value::Success => ValueView::Success,
            Value::Status(text) => ValueView::Status(text@),
        }
    }
}

impl View for Value {
    type V = ValueView;

    open spec fn view(&self) -> ValueView {
        self.model()
    }
}

impl Clone for Value {
    /// A deep copy of the reply.
    fn clone(&self) -> (r: Value)
        ensures
            r@ == self@,
        decreases self,
    {
        match self {
            Value::Invalid => Value::Invalid,
            Value::Nil => Value::Nil,
            Value::Int(n) => Value::Int(*n),
            Value::Data(payload) => Value::Data(payload.clone()),
            Value::Bulk(items) => {
                let mut copies: Vec<Value> = Vec::new();
                let mut i: usize = 0;
                while i < items.len()
                    invariant
                        i <= items.len(),
                        copies.len() == i,
                        decreases_to!(self => items),
                        forall|j: int| 0 <= j < i ==> (#[trigger] copies[j])@ == items[j]@,
                    decreases items.len() - i,
                {
                    copies.push(items[i].clone());
                    i += 1;
                }
                proof {
                    let made = Value::Bulk(copies)@->Bulk_0;
                    let given = self@->Bulk_0;
                    assert forall|j: int| 0 <= j < made.len() implies made[j] == given[j] by {
                        assert(made[j] == copies[j]@);
                        assert(given[j] == items[j]@);
                    }
                    assert(made =~= given);
                }
                Value::Bulk(copies)
            },
            Value::Error(kind, message) => Value::Error(kind.clone(), message.clone()),
            Value::Success => Value::Success,
            Value::Status(text) => Value::Status(text.clone()),
        }
    }
}

impl ValueView {
    /// The payload of a bulk string reply; every other reply has none.
    pub open spec fn bytes(self) -> Option<Seq<u8>> {
        match self {
            ValueView::Data(payload) => Some(payload),
            _ => None,
        }
    }

    /// The reply as text: a status line as it is, a bulk string where its
    /// bytes are well-formed UTF-8; every other reply has none.
    pub open spec fn text(self) -> Option<Seq<char>> {
        match self {
            ValueView::Status(text) => Some(text),
            ValueView::Data(payload) => if valid_utf8(payload) {
                Some(decode_utf8(payload))
            } else {
                None
            },
            _ => None,
        }
    }
}

impl Value {
    /// Narrows the reply to its bulk string payload.
    pub fn get_bytes(self) -> (r: Option<Vec<u8>>)
        ensures
            match r {
                Some(payload) => self@.bytes() == Some(payload@),
                None => self@.bytes() is None,
            },
    {
        match self {
            Value::Data(payload) => Some(payload),
            _ => None,
        }
    }

    /// Narrows the reply to text. Bytes that are no text give `None`, as a
    /// reply of another shape does.
    pub fn get_string(self) -> (r: Option<String>)
        ensures
            match r {
                Some(text) => self@.text() == Some(text@),
                None => self@.text() is None,
            },
    {
        match self {
            Value::Status(text) => Some(text),
            Value::Data(payload) => match String::from_utf8(payload) {
                Ok(text) => Some(text),
                Err(_) => None,
            },
            _ => None,
        }
    }

    /// Reads the reply through a parser of the caller's. A reply without
    /// text gives `None` and the parser is not called; for one with text the
    /// result is what the parser gives for exactly that text.
    pub fn get_with<T, F: FnOnce(String) -> Option<T>>(self, parse: F) -> (r: Option<T>)
        requires
            forall|text: String| self@.text() == Some(text@) ==> call_requires(parse, (text,)),
        ensures
            match self@.text() {
                Some(t) => exists|text: String| text@ == t && call_ensures(parse, (text,), r),
                None => r is None,
            },
    {
        match self.get_string() {
            Some(text) => parse(text),
            None => None,
        }
    }

    /// Reads the reply as a `T`: its text, parsed by `T`'s own rule. A reply
    /// without text gives `None` and nothing is parsed; for one with text the
    /// result is what `T`'s rule makes of exactly that text.
    pub fn get_as<T: FromStr>(self) -> (r: Option<T>)
        ensures
            match self@.text() {
                Some(text) => parses_as::<T>(text, r),
                None => r is None,
            },
    {
        let ghost text = self@.text();
        let r = self.get_with(parse_as::<T>);
        proof {
            if text is Some {
                let held = choose|held: String|
                    held@ == text->0 && call_ensures(parse_as::<T>, (held,), r);
                lemma_parsed_is_outcome::<T>(held, r);
            }
        }
        r
    }
}

} // verus!
