//! The router: from an inbound operation to store calls and a reply.

use vstd::prelude::*;
use vstd::utf8::decode_utf8;
use vstd::utf8::encode_utf8;
use vstd::utf8::valid_utf8;
use std::string::FromUtf8Error;
use crate::clock::now_nanos;
use crate::decimal::decimal;
use crate::decimal::render_decimal;
use crate::store::Store;

verus! {

/// `std::string::FromUtf8Error`, carried through as an opaque value.
#[verifier::external_type_specification]
#[verifier::external_body]
pub struct ExFromUtf8Error(FromUtf8Error);

/// `String::from_utf8` succeeds exactly on well-formed UTF-8, and the text it
/// gives is the one that the bytes encode.
pub assume_specification[ String::from_utf8 ](vec: Vec<u8>) -> (r: Result<String, FromUtf8Error>)
    ensures
        r.is_ok() == valid_utf8(vec@),
        r matches Ok(s) ==> s@ == decode_utf8(vec@),
;

/// The lowercase form of a text, as `str::to_lowercase` computes it.
pub uninterp spec fn lowercase_of(s: Seq<char>) -> Seq<char>;

/// `str::to_lowercase` returns the lowercase form of its argument, which
/// depends on the argument's characters alone.
pub assume_specification[ str::to_lowercase ](s: &str) -> (r: String)
    ensures
        r@ == lowercase_of(s@),
;

/// The kind of an inbound operation.
#[derive(Clone, Copy, Debug, PartialEq, Eq, Structural)]
pub enum Verb {
    /// A read (`GET`).
    Read,
    /// A write (`POST`).
    Write,
    /// Anything else.
    Other,
}

/// The tag under which an operation's latency is recorded.
#[derive(Clone, Copy, Debug, PartialEq, Eq, Structural)]
pub enum Label {
    /// A read.
    Get,
    /// A write.
    Post,
    /// Anything else.
    Other,
}

/// What the router decides to do with an operation, before it touches the
/// store.
#[derive(Clone, Copy, Debug, PartialEq, Eq, Structural)]
pub enum Route {
    /// The path holds no key, or names a token that may not be written.
    Invalid,
    /// Report the number of resident entries.
    Size,
    /// Hand out the metrics exposition.
    Metrics,
    /// Read the entry under the path.
    Lookup,
    /// Write the body under the path.
    Store,
    /// The operation is neither a read nor a write.
    Unsupported,
}

/// Why an operation was refused.
#[derive(Clone, Copy, Debug, PartialEq, Eq, Structural)]
pub enum Rejection {
    /// The path holds no key, or a reserved one.
    MissingKey,
    /// The body of a write is not well-formed UTF-8.
    NotText,
}

/// The reply to an operation.
#[derive(Clone, Debug, PartialEq, Eq)]
pub enum Reply {
    /// A validation failure (status 400).
    Rejected(Rejection),
    /// Success with the given text as body (status 200).
    Text(String),
    /// Success; the body is the metrics exposition, which the caller
    /// supplies together with its content type (status 200).
    Exposition,
    /// Success with an empty body (status 200).
    Empty,
    /// The operation is not supported (status 404).
    NotFound,
}

/// A reply with its text as a sequence of characters.
pub enum ReplyView {
    Rejected(Rejection),
    Text(Seq<char>),
    Exposition,
    Empty,
    NotFound,
}

impl View for Reply {
    type V = ReplyView;

    open spec fn view(&self) -> ReplyView {
        match self {
            Reply::Rejected(why) => ReplyView::Rejected(*why),
            Reply::Text(s) => ReplyView::Text(s@),
            Reply::Exposition => ReplyView::Exposition,
            Reply::Empty => ReplyView::Empty,
            Reply::NotFound => ReplyView::NotFound,
        }
    }
}

/// What the router hands back for one operation.
#[derive(Clone, Debug, PartialEq, Eq)]
pub struct Outcome {
    /// The reply to send.
    pub reply: Reply,
    /// The tag for the latency histogram.
    pub label: Label,
    /// Whether an entry was written, so that the size gauge is to be
    /// incremented by one. The gauge is an approximation between sweeps.
    pub wrote: bool,
}

/// The path that reports the store's size, in lowercase.
pub open spec fn size_token() -> Seq<char> {
    "/size"@
}

/// The path that hands out the metrics, in lowercase.
pub open spec fn metrics_token() -> Seq<char> {
    "/metrics"@
}

/// The verb that a method name stands for. Method names are case-sensitive.
pub open spec fn verb_of(method: Seq<char>) -> Verb {
    if method == "GET"@ {
        Verb::Read
    } else if method == "POST"@ {
        Verb::Write
    } else {
        Verb::Other
    }
}

/// The latency tag of a verb.
pub open spec fn label_of(verb: Verb) -> Label {
    match verb {
        Verb::Read => Label::Get,
        Verb::Write => Label::Post,
        Verb::Other => Label::Other,
    }
}

/// The route of an operation, given the path's length in bytes and its
/// lowercase form. A path shorter than two bytes holds no key. The size
/// token is reserved for reads and writes, the metrics token for reads.
pub open spec fn route_for(verb: Verb, byte_len: nat, lowered: Seq<char>) -> Route {
    match verb {
        Verb::Read => if byte_len < 2 {
            Route::Invalid
        } else if lowered == size_token() {
            Route::Size
        } else if lowered == metrics_token() {
            Route::Metrics
        } else {
            Route::Lookup
        },
        Verb::Write => if byte_len < 2 || lowered == size_token() {
            Route::Invalid
        } else {
            Route::Store
        },
        Verb::Other => Route::Unsupported,
    }
}

/// The route of an operation on `path`.
pub open spec fn route_of(verb: Verb, path: Seq<char>) -> Route {
    route_for(verb, encode_utf8(path).len(), lowercase_of(path))
}

/// Whether the operation writes an entry: a write on a valid key whose body
/// is text.
pub open spec fn writes(verb: Verb, path: Seq<char>, body: Seq<u8>) -> bool {
    route_of(verb, path) == Route::Store && valid_utf8(body)
}

/// The store's contents after the operation, handled at time `now`.
pub open spec fn store_after(
    m: Map<Seq<char>, (Seq<char>, u128)>,
    verb: Verb,
    path: Seq<char>,
    body: Seq<u8>,
    now: u128,
) -> Map<Seq<char>, (Seq<char>, u128)> {
    if writes(verb, path, body) {
        m.insert(path, (decode_utf8(body), now))
    } else {
        m
    }
}

/// The reply to the operation on a store that holds `m`. A read of a key
/// that is not resident is an empty success, not a failure.
pub open spec fn reply_of(
    m: Map<Seq<char>, (Seq<char>, u128)>,
    verb: Verb,
    path: Seq<char>,
    body: Seq<u8>,
) -> ReplyView {
    match route_of(verb, path) {
        Route::Invalid => ReplyView::Rejected(Rejection::MissingKey),
        Route::Size => ReplyView::Text(decimal(m.dom().len())),
        Route::Metrics => ReplyView::Exposition,
        Route::Lookup => if m.contains_key(path) {
            ReplyView::Text(m[path].0)
        } else {
            ReplyView::Empty
        },
        Route::Store => if valid_utf8(body) {
            ReplyView::Empty
        } else {
            ReplyView::Rejected(Rejection::NotText)
        },
        Route::Unsupported => ReplyView::NotFound,
    }
}

impl Verb {
    /// The verb of a method name: `GET` reads, `POST` writes.
    pub fn from_method(method: &str) -> (v: Verb)
        ensures
            v == verb_of(method@),
    {
        let name = method.to_owned();
        if name == "GET".to_owned() {
            Verb::Read
        } else if name == "POST".to_owned() {
            Verb::Write
        } else {
            Verb::Other
        }
    }

    /// The tag under which this verb's latency is recorded.
    pub fn label(&self) -> (l: Label)
        ensures
            l == label_of(*self),
    {
        match self {
            Verb::Read => Label::Get,
            Verb::Write => Label::Post,
            Verb::Other => Label::Other,
        }
    }
}

impl Label {
    /// The tag's name on the histogram.
    pub open spec fn name_of(&self) -> Seq<char> {
        match self {
            Label::Get => "get"@,
            Label::Post => "post"@,
            Label::Other => "other"@,
        }
    }

    /// The tag's name on the histogram.
    pub fn name(&self) -> (s: &'static str)
        ensures
            s@ == self.name_of(),
    {
        match self {
            Label::Get => "get",
            Label::Post => "post",
            Label::Other => "other",
        }
    }
}

impl Rejection {
    /// The explanation sent with the failure.
    pub open spec fn message_of(&self) -> Seq<char> {
        match self {
            Rejection::MissingKey => "Must provide a key in the path"@,
            Rejection::NotText => "Body must be valid UTF-8 text"@,
        }
    }

    /// The explanation sent with the failure.
    pub fn message(&self) -> (s: &'static str)
        ensures
            s@ == self.message_of(),
    {
        match self {
            Rejection::MissingKey => "Must provide a key in the path",
            Rejection::NotText => "Body must be valid UTF-8 text",
        }
    }
}

impl Reply {
    /// The status code of a reply.
    pub open spec fn status_of(r: ReplyView) -> u16 {
        match r {
            ReplyView::Rejected(_) => 400,
            ReplyView::NotFound => 404,
            _ => 200,
        }
    }

    /// The status code to send.
    pub fn status(&self) -> (code: u16)
        ensures
            code == Reply::status_of(self@),
    {
        match self {
            Reply::Rejected(_) => 400,
            Reply::NotFound => 404,
            _ => 200,
        }
    }
}

/// Decides the route from the verb, the path's length in bytes and the
/// path's lowercase form.
pub fn classify(verb: Verb, byte_len: usize, lowered: &str) -> (r: Route)
    ensures
        r == route_for(verb, byte_len as nat, lowered@),
{
    let low = lowered.to_owned();
    match verb {
        Verb::Read => {
            if byte_len < 2 {
                Route::Invalid
            } else if low == "/size".to_owned() {
                Route::Size
            } else if low == "/metrics".to_owned() {
                Route::Metrics
            } else {
                Route::Lookup
            }
        },
        Verb::Write => {
            if byte_len < 2 || low == "/size".to_owned() {
                Route::Invalid
            } else {
                Route::Store
            }
        },
        Verb::Other => Route::Unsupported,
    }
}

/// Decides the route of an operation on `path`.
pub fn route(verb: Verb, path: &str) -> (r: Route)
    ensures
        r == route_of(verb, path@),
{
    let lowered = path.to_lowercase();
    classify(verb, path.as_bytes().len(), lowered.as_str())
}

/// Handles one operation at time `now`: queries or changes the store and
/// says what to reply, under which tag to record the latency, and whether
/// an entry was written.
pub fn handle_at(store: &mut Store, verb: Verb, path: &str, body: Vec<u8>, now: u128) -> (out:
    Outcome)
    ensures
        out.reply@ == reply_of(old(store)@, verb, path@, body@),
        out.label == label_of(verb),
        out.wrote == writes(verb, path@, body@),
        final(store)@ == store_after(old(store)@, verb, path@, body@, now),
{
    let label = verb.label();
    match route(verb, path) {
        Route::Invalid => Outcome {
            reply: Reply::Rejected(Rejection::MissingKey),
            label,
            wrote: false,
        },
        Route::Size => {
            let n = store.size();
            Outcome { reply: Reply::Text(render_decimal(n)), label, wrote: false }
        },
        Route::Metrics => Outcome { reply: Reply::Exposition, label, wrote: false },
        Route::Lookup => {
            match store.get(path) {
                Some(v) => Outcome { reply: Reply::Text(v.to_string()), label, wrote: false },
                None => Outcome { reply: Reply::Empty, label, wrote: false },
            }
        },
        Route::Store => {
            match String::from_utf8(body) {
                Ok(text) => {
                    store.put_at(path.to_owned(), text, now);
                    Outcome { reply: Reply::Empty, label, wrote: true }
                },
                Err(_) => Outcome {
                    reply: Reply::Rejected(Rejection::NotText),
                    label,
                    wrote: false,
                },
            }
        },
        Route::Unsupported => Outcome { reply: Reply::NotFound, label, wrote: false },
    }
}

/// Handles one operation on the current wall clock. The reply, the tag and
/// the write flag do not depend on the clock; a written entry carries some
/// reading of it.
pub fn handle(store: &mut Store, method: &str, path: &str, body: Vec<u8>) -> (out: Outcome)
    ensures
        out.reply@ == reply_of(old(store)@, verb_of(method@), path@, body@),
        out.label == label_of(verb_of(method@)),
        out.wrote == writes(verb_of(method@), path@, body@),
        exists|now: u128|
            final(store)@ == #[trigger] store_after(
                old(store)@,
                verb_of(method@),
                path@,
                body@,
                now,
            ),
{
    let verb = Verb::from_method(method);
    let now = now_nanos();
    handle_at(store, verb, path, body, now)
}

} // verus!
