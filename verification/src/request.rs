//! Requests of the low-level Mosaik API and the errors met while handling them.

use crate::decimal::{append_decimal, decimal_chars};
use crate::json::{
    into_string, json_keys_unique, keys_unique, lemma_lookup_keys_unique, lemma_unique_lookup, spec_as_string, spec_as_u64, spec_lookup,
    take_three, Json, JsonNumber,
};
use crate::mosaik_protocol::{MessageID, MsgType};
use vstd::prelude::*;

verus! {

/// An error met while handling a request. Each is answered with a failure reply.
#[derive(Debug, PartialEq)]
pub enum MosaikError {
    /// The request could not be read.
    ParseError(String),
    /// A value could not be turned into JSON.
    Serde(String),
    /// The simulator reported an error.
    UserError(String),
}

/// What a [`MosaikError`] holds.
pub ghost enum MosaikErrorView {
    ParseError(Seq<char>),
    Serde(Seq<char>),
    UserError(Seq<char>),
}

impl View for MosaikError {
    type V = MosaikErrorView;

    open spec fn view(&self) -> MosaikErrorView {
        match self {
            MosaikError::ParseError(s) => MosaikErrorView::ParseError(s@),
            MosaikError::Serde(s) => MosaikErrorView::Serde(s@),
            MosaikError::UserError(s) => MosaikErrorView::UserError(s@),
        }
    }
}

/// The text of an error, as it is sent in a failure reply.
pub open spec fn spec_error_message(e: MosaikErrorView) -> Seq<char> {
    match e {
        MosaikErrorView::ParseError(s) => "Parsing JSON Request: "@ + s,
        MosaikErrorView::Serde(s) => "Serde JSON Error: "@ + s,
        MosaikErrorView::UserError(s) => "User generated Error: "@ + s,
    }
}

impl MosaikError {
    /// The text of this error, as it is sent in a failure reply.
    pub fn message(&self) -> (r: String)
        ensures
            r@ == spec_error_message(self@),
    {
        let (prefix, detail) = match self {
            MosaikError::ParseError(s) => ("Parsing JSON Request: ", s),
            MosaikError::Serde(s) => ("Serde JSON Error: ", s),
            MosaikError::UserError(s) => ("User generated Error: ", s),
        };
        let mut r = prefix.to_owned();
        r.append(detail.as_str());
        r
    }
}

/// A request of the low-level Mosaik API: the content `[method, args, kwargs]`
/// of a message of type [`MsgType::Request`], with the message's ID.
#[derive(Debug, PartialEq)]
pub struct Request {
    /// The ID of the message that carried the request; the reply carries it too.
    pub msg_id: MessageID,
    /// The name of the API call.
    pub method: String,
    /// The positional arguments.
    pub args: Vec<Json>,
    /// The keyword arguments, in order. Read from JSON text, each name occurs
    /// once ([`lemma_request_keys_unique`]).
    pub kwargs: Vec<(String, Json)>,
}

/// What a [`Request`] holds.
pub ghost struct RequestView {
    pub msg_id: MessageID,
    pub method: Seq<char>,
    pub args: Seq<Json>,
    pub kwargs: Seq<(String, Json)>,
}

impl View for Request {
    type V = RequestView;

    open spec fn view(&self) -> RequestView {
        RequestView {
            msg_id: self.msg_id,
            method: self.method@,
            args: self.args@,
            kwargs: self.kwargs@,
        }
    }
}

/// The three fields of `j`, given either as an array of exactly three values or
/// as an object with the three keys (other keys are ignored).
pub open spec fn spec_three_fields(j: Json, k0: Seq<char>, k1: Seq<char>, k2: Seq<char>) -> Option<
    (Json, Json, Json),
> {
    match j {
        Json::Array(v) => if v@.len() == 3 {
            Some((v@[0], v@[1], v@[2]))
        } else {
            None
        },
        Json::Object(e) => match (spec_lookup(e@, k0), spec_lookup(e@, k1), spec_lookup(e@, k2)) {
            (Some(a), Some(b), Some(c)) => Some((a, b, c)),
            _ => None,
        },
        _ => None,
    }
}

/// The three fields of `j`, given either as an array of exactly three values or
/// as an object with the three keys.
fn three_fields(j: Json, k0: &str, k1: &str, k2: &str) -> (r: Option<(Json, Json, Json)>)
    requires
        k0@ != k1@,
        k1@ != k2@,
        k0@ != k2@,
    ensures
        r == spec_three_fields(j, k0@, k1@, k2@),
{
    match j {
        Json::Array(v) => {
            if v.len() == 3 {
                let mut v = v;
                let c = v.pop().unwrap();
                let b = v.pop().unwrap();
                let a = v.pop().unwrap();
                Some((a, b, c))
            } else {
                None
            }
        },
        Json::Object(e) => {
            let (a, b, c) = take_three(e, k0, k1, k2);
            match (a, b, c) {
                (Some(a), Some(b), Some(c)) => Some((a, b, c)),
                _ => None,
            }
        },
        _ => None,
    }
}

/// The message type that the JSON value stands for.
pub open spec fn spec_msg_type(j: Json) -> Option<MsgType> {
    match spec_as_u64(j) {
        Some(n) => MsgType::spec_from_code(n),
        None => None,
    }
}

/// The message type that the JSON value stands for: 0, 1 or 2.
pub fn msg_type_from_json(j: &Json) -> (r: Option<MsgType>)
    ensures
        r == spec_msg_type(*j),
{
    match j.as_u64() {
        Some(n) => MsgType::from_code(n),
        None => None,
    }
}

/// The text of an optional message.
pub open spec fn text_of(e: Option<String>) -> Option<Seq<char>> {
    match e {
        Some(s) => Some(s@),
        None => None,
    }
}

/// What `serde_json` reported in reading a message's text the way the protocol
/// reads it: as a message `[msg_type, id, content]` (its message type one of
/// 0, 1 and 2), then the content as a request `[method, args, kwargs]`. Where
/// it gave an error, its message is the detail of the error that the message
/// is answered with.
#[derive(Debug, PartialEq)]
pub struct MessageReads {
    /// The message of its error in reading the text as a message, if it gave one.
    pub message_error: Option<String>,
    /// The message as `{:?}` shows it, once read.
    pub message_debug: Option<String>,
    /// The message of its error in reading the content as a request, if it gave one.
    pub content_error: Option<String>,
}

/// What a [`MessageReads`] holds.
pub ghost struct MessageReadsView {
    pub message_error: Option<Seq<char>>,
    pub message_debug: Option<Seq<char>>,
    pub content_error: Option<Seq<char>>,
}

impl View for MessageReads {
    type V = MessageReadsView;

    open spec fn view(&self) -> MessageReadsView {
        MessageReadsView {
            message_error: text_of(self.message_error),
            message_debug: text_of(self.message_debug),
            content_error: text_of(self.content_error),
        }
    }
}

/// Prefix of the errors for text that is not a Mosaik message.
pub open spec fn invalid_message_prefix() -> Seq<char> {
    "Payload is not a valid Mosaik Message: "@
}

/// Detail for a message that is not `[msg_type, id, content]`, where
/// `serde_json` reported no error for it.
pub open spec fn message_shape_detail() -> Seq<char> {
    "expected [msg_type, id, content]"@
}

/// Detail for a message type other than 0, 1 and 2, where `serde_json`
/// reported no error for it.
pub open spec fn message_type_detail() -> Seq<char> {
    "the message type must be 0, 1 or 2"@
}

/// Detail for a message ID that is not an unsigned integer, where
/// `serde_json` reported no error for it.
pub open spec fn message_id_detail() -> Seq<char> {
    "the message ID must be an unsigned integer"@
}

/// The error for a message that is a reply, not a request: the message as
/// `{:?}` shows it, or, where that is not given, its type and ID.
pub open spec fn not_request_message(t: MsgType, id: MessageID, shown: Option<Seq<char>>) -> Seq<char> {
    "The Mosaik Message is not a request: "@ + match shown {
        Some(d) => d,
        None => "message type "@ + decimal_chars(t.spec_code() as nat) + " with ID "@ + decimal_chars(
            id as nat,
        ),
    }
}

/// Prefix of the error for a request whose content is not `[method, args, kwargs]`.
pub open spec fn invalid_content_prefix() -> Seq<char> {
    "The Mosaik Message has no valid Request content: "@
}

/// Detail for content that is not `[method, args, kwargs]`, where
/// `serde_json` reported no error for it.
pub open spec fn content_detail() -> Seq<char> {
    "expected [method, args, kwargs] with a string, an array and an object"@
}

/// The request that a message holds, or the error that it is answered with.
/// `parsed` is the message as read from JSON text, or the reason the text is
/// not JSON; `reads` is what `serde_json` reported in reading it as a message.
pub open spec fn spec_request_from_message(parsed: Result<Json, Seq<char>>, reads: MessageReadsView) -> Result<
    RequestView,
    MosaikErrorView,
> {
    if reads.message_error is Some {
        Err(MosaikErrorView::ParseError(invalid_message_prefix() + reads.message_error->0))
    } else {
        match parsed {
            Err(e) => Err(MosaikErrorView::ParseError(invalid_message_prefix() + e)),
            Ok(j) => match spec_three_fields(j, "msg_type"@, "id"@, "content"@) {
                None => Err(MosaikErrorView::ParseError(invalid_message_prefix() + message_shape_detail())),
                Some((t, i, c)) => match spec_msg_type(t) {
                    None => Err(MosaikErrorView::ParseError(invalid_message_prefix() + message_type_detail())),
                    Some(msg_type) => match spec_as_u64(i) {
                        None => Err(MosaikErrorView::ParseError(invalid_message_prefix() + message_id_detail())),
                        Some(id) => if msg_type != MsgType::Request {
                            Err(MosaikErrorView::ParseError(not_request_message(msg_type, id, reads.message_debug)))
                        } else if reads.content_error is Some {
                            Err(MosaikErrorView::ParseError(invalid_content_prefix() + reads.content_error->0))
                        } else {
                            match spec_three_fields(c, "method"@, "args"@, "kwargs"@) {
                                Some((Json::String(m), Json::Array(a), Json::Object(k))) => Ok(
                                    RequestView { msg_id: id, method: m@, args: a@, kwargs: k@ },
                                ),
                                _ => Err(MosaikErrorView::ParseError(invalid_content_prefix() + content_detail())),
                            }
                        },
                    },
                },
            },
        }
    }
}

/// A parse error with the text `prefix` followed by `detail`.
fn parse_error(prefix: &str, detail: &str) -> (r: MosaikError)
    ensures
        r@ == MosaikErrorView::ParseError(prefix@ + detail@),
{
    let mut s = prefix.to_owned();
    s.append(detail);
    MosaikError::ParseError(s)
}

/// Reads the request out of a Mosaik message. `parsed` is the message as read
/// from its JSON text, or the reason why the text is not JSON; `reads` is what
/// `serde_json` reported in reading the text as a message.
pub fn request_from_message(parsed: Result<Json, String>, reads: MessageReads) -> (r: Result<
    Request,
    MosaikError,
>)
    ensures
        match (r, spec_request_from_message(
            match parsed {
                Ok(j) => Ok(j),
                Err(e) => Err(e@),
            },
            reads@,
        )) {
            (Ok(req), Ok(v)) => req@ == v,
            (Err(e), Err(v)) => e@ == v,
            _ => false,
        },
{
    let prefix = "Payload is not a valid Mosaik Message: ";
    proof {
        reveal_strlit("msg_type");
        reveal_strlit("id");
        reveal_strlit("content");
        reveal_strlit("method");
        reveal_strlit("args");
        reveal_strlit("kwargs");
        assert("msg_type"@.len() == 8 && "id"@.len() == 2 && "content"@.len() == 7);
        assert("method"@.len() == 6 && "args"@.len() == 4 && "kwargs"@.len() == 6);
        assert("method"@[0] == 'm' && "kwargs"@[0] == 'k');
    }
    let MessageReads { message_error, message_debug, content_error } = reads;
    if let Some(e) = message_error {
        return Err(parse_error(prefix, e.as_str()));
    }
    let j = match parsed {
        Ok(j) => j,
        Err(e) => {
            return Err(parse_error(prefix, e.as_str()));
        },
    };
    let (t, i, c) = match three_fields(j, "msg_type", "id", "content") {
        Some(fields) => fields,
        None => {
            return Err(parse_error(prefix, "expected [msg_type, id, content]"));
        },
    };
    let msg_type = match msg_type_from_json(&t) {
        Some(m) => m,
        None => {
            return Err(parse_error(prefix, "the message type must be 0, 1 or 2"));
        },
    };
    let id = match i.as_u64() {
        Some(id) => id,
        None => {
            return Err(parse_error(prefix, "the message ID must be an unsigned integer"));
        },
    };
    if msg_type != MsgType::Request {
        let mut s = "The Mosaik Message is not a request: ".to_owned();
        match message_debug {
            Some(shown) => {
                s.append(shown.as_str());
            },
            None => {
                s.append("message type ");
                append_decimal(&mut s, msg_type.code() as u64);
                s.append(" with ID ");
                append_decimal(&mut s, id);
                assert(s@ =~= "The Mosaik Message is not a request: "@ + ("message type "@ + decimal_chars(
                    msg_type.spec_code() as nat,
                ) + " with ID "@ + decimal_chars(id as nat)));
            },
        }
        return Err(MosaikError::ParseError(s));
    }
    let content_prefix = "The Mosaik Message has no valid Request content: ";
    if let Some(e) = content_error {
        return Err(parse_error(content_prefix, e.as_str()));
    }
    match three_fields(c, "method", "args", "kwargs") {
        Some((Json::String(method), Json::Array(args), Json::Object(kwargs))) => Ok(
            Request { msg_id: id, method, args, kwargs },
        ),
        _ => Err(
            parse_error(content_prefix, "expected [method, args, kwargs] with a string, an array and an object"),
        ),
    }
}

/// Only a message of type [`MsgType::Request`] is read as a request, and the
/// request carries the ID of the message (which its reply then carries too).
pub proof fn lemma_request_from_request_message(j: Json, reads: MessageReadsView)
    ensures
        spec_request_from_message(Ok(j), reads) matches Ok(v) ==> (spec_three_fields(
            j,
            "msg_type"@,
            "id"@,
            "content"@,
        ) matches Some((t, i, c)) && spec_msg_type(t) == Some(MsgType::Request) && spec_as_u64(i)
            == Some(v.msg_id)),
{
}

/// The three fields of a value that holds each key once, everywhere inside,
/// hold each key once everywhere inside too.
proof fn lemma_three_fields_keys_unique(j: Json, k0: Seq<char>, k1: Seq<char>, k2: Seq<char>)
    requires
        json_keys_unique(j),
    ensures
        spec_three_fields(j, k0, k1, k2) matches Some((a, b, c)) ==> json_keys_unique(a) && json_keys_unique(b)
            && json_keys_unique(c),
{
    match j {
        Json::Array(v) => {
            if v@.len() == 3 {
                assert(json_keys_unique(v@[0]) && json_keys_unique(v@[1]) && json_keys_unique(v@[2]));
            }
        },
        Json::Object(e) => {
            lemma_lookup_keys_unique(e@, k0);
            lemma_lookup_keys_unique(e@, k1);
            lemma_lookup_keys_unique(e@, k2);
        },
        _ => {},
    }
}

/// A request read from a message that holds each key once, everywhere inside,
/// has keyword arguments with distinct names, and its arguments and the values
/// of its keyword arguments hold each key once everywhere inside.
pub proof fn lemma_request_keys_unique(j: Json, reads: MessageReadsView)
    requires
        json_keys_unique(j),
    ensures
        spec_request_from_message(Ok(j), reads) matches Ok(v) ==> {
            &&& keys_unique(v.kwargs)
            &&& forall|i: int| #![trigger v.kwargs[i]] 0 <= i < v.kwargs.len() ==> json_keys_unique(v.kwargs[i].1)
            &&& forall|i: int| #![trigger v.args[i]] 0 <= i < v.args.len() ==> json_keys_unique(v.args[i])
        },
{
    lemma_three_fields_keys_unique(j, "msg_type"@, "id"@, "content"@);
    if let Some((_, _, c)) = spec_three_fields(j, "msg_type"@, "id"@, "content"@) {
        lemma_three_fields_keys_unique(c, "method"@, "args"@, "kwargs"@);
    }
}

/// A request written as a message is read back as that request: the message
/// `[0, id, [method, args, kwargs]]`, which `serde_json` reads without error,
/// is read as the request with that ID, method, arguments and keyword arguments.
pub proof fn lemma_request_message_read_back(
    j: Json,
    reads: MessageReadsView,
    id: MessageID,
    method: String,
    args: Vec<Json>,
    kwargs: Vec<(String, Json)>,
)
    requires
        reads.message_error is None,
        reads.content_error is None,
        j is Array,
        j->Array_0@.len() == 3,
        j->Array_0@[0] == Json::Number(JsonNumber::PosInt(0)),
        j->Array_0@[1] == Json::Number(JsonNumber::PosInt(id)),
        j->Array_0@[2] is Array,
        j->Array_0@[2]->Array_0@ == seq![Json::String(method), Json::Array(args), Json::Object(kwargs)],
    ensures
        spec_request_from_message(Ok(j), reads) == Ok::<RequestView, MosaikErrorView>(
            RequestView { msg_id: id, method: method@, args: args@, kwargs: kwargs@ },
        ),
{
    let v = j->Array_0;
    let c = v@[2]->Array_0;
    assert(c@[0] == Json::String(method));
    assert(c@[1] == Json::Array(args));
    assert(c@[2] == Json::Object(kwargs));
    assert(MsgType::spec_from_code(0) == Some(MsgType::Request));
}

/// A request written as a message object, with the keys `msg_type` (0), `id`
/// and `content` (`[method, args, kwargs]`) each once among any others, which
/// `serde_json` reads without error, is read as the request with that ID,
/// method, arguments and keyword arguments, whatever the order of the keys.
pub proof fn lemma_request_object_read_back(
    e: Vec<(String, Json)>,
    reads: MessageReadsView,
    p: int,
    q: int,
    s: int,
    id: MessageID,
    method: String,
    args: Vec<Json>,
    kwargs: Vec<(String, Json)>,
)
    requires
        reads.message_error is None,
        reads.content_error is None,
        keys_unique(e@),
        0 <= p < e@.len(),
        e@[p].0@ == "msg_type"@,
        e@[p].1 == Json::Number(JsonNumber::PosInt(0)),
        0 <= q < e@.len(),
        e@[q].0@ == "id"@,
        e@[q].1 == Json::Number(JsonNumber::PosInt(id)),
        0 <= s < e@.len(),
        e@[s].0@ == "content"@,
        e@[s].1 is Array,
        e@[s].1->Array_0@ == seq![Json::String(method), Json::Array(args), Json::Object(kwargs)],
    ensures
        spec_request_from_message(Ok(Json::Object(e)), reads) == Ok::<RequestView, MosaikErrorView>(
            RequestView { msg_id: id, method: method@, args: args@, kwargs: kwargs@ },
        ),
{
    lemma_unique_lookup(e@, "msg_type"@);
    lemma_unique_lookup(e@, "id"@);
    lemma_unique_lookup(e@, "content"@);
    assert(e@[p] == e@[p] && e@[q] == e@[q] && e@[s] == e@[s]);
    let c = e@[s].1->Array_0;
    assert(c@[0] == Json::String(method));
    assert(c@[1] == Json::Array(args));
    assert(c@[2] == Json::Object(kwargs));
    assert(MsgType::spec_from_code(0) == Some(MsgType::Request));
}

} // verus!
