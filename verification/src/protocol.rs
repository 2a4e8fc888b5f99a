//! The messages of the wire protocol: what a request line holds, and what a
//! response line is made of.

use crate::json::json_document;
use crate::json::parse_json;
use crate::json::Json;
use crate::json::JsonNumber;
use crate::json::JsonValue;
use crate::json::Member;
use crate::json::NumberValue;
use vstd::prelude::*;

verus! {

/// The error code for a method or an operation that does not exist.
pub const METHOD_NOT_FOUND: i64 = -32601;

/// The error code for arguments that do not fit the operation.
pub const INVALID_PARAMS: i64 = -32602;

/// The error code for an operation that failed.
pub const TOOL_EXECUTION_FAILED: i64 = -32603;

/// The error member of a response.
#[derive(Debug)]
pub struct WireError {
    pub code: i64,
    pub message: String,
}

/// What a response carries: a result or an error.
#[derive(Debug)]
pub enum Outcome {
    Success(Json),
    Failure(WireError),
}

/// The answer to one request.
#[derive(Debug)]
pub struct Response {
    /// The identifier of the request that is answered.
    pub id: Json,
    pub outcome: Outcome,
}

/// A request, which is answered.
#[derive(Debug)]
pub struct Request {
    pub id: Json,
    pub method: String,
    pub params: Option<Json>,
}

/// What a line of input holds.
#[derive(Debug)]
pub enum Message {
    Request(Request),
    /// A message without an identifier, which is not answered.
    Notification(String),
}

/// The method that a message names, if it names one.
pub open spec fn method_of(doc: JsonValue) -> Option<Seq<char>> {
    match doc.field("method"@) {
        Some(method) => method.as_text(),
        None => None,
    }
}

/// The identifier that a message carries, if it carries one. An identifier
/// that is `null` counts as none.
pub open spec fn id_of(doc: JsonValue) -> Option<JsonValue> {
    match doc.field("id"@) {
        Some(id) => if id is Null {
            None
        } else {
            Some(id)
        },
        None => None,
    }
}

/// Identifiers are strings and numbers.
pub open spec fn valid_id(id: JsonValue) -> bool {
    id is Text || id is Number
}

/// The document is a message: it names a method, and its identifier, if it
/// has one, is a string or a number.
pub open spec fn is_message(doc: JsonValue) -> bool {
    &&& method_of(doc) is Some
    &&& id_of(doc) is Some ==> valid_id(id_of(doc)->0)
}

/// The JSON number that holds `n`.
pub open spec fn integer_value(n: i64) -> JsonValue {
    if n >= 0 {
        JsonValue::Number(NumberValue::Unsigned(n as u64))
    } else {
        JsonValue::Number(NumberValue::Negative(n))
    }
}

/// The result of an operation that answered with `text`.
pub open spec fn text_result(text: Seq<char>) -> JsonValue {
    JsonValue::Object(
        seq![
            (
                "content"@,
                JsonValue::Array(
                    seq![
                        JsonValue::Object(
                            seq![("type"@, JsonValue::Text("text"@)), ("text"@, JsonValue::Text(text))],
                        ),
                    ],
                ),
            ),
        ],
    )
}

impl WireError {
    /// The error as a JSON object.
    pub open spec fn value(self) -> JsonValue {
        JsonValue::Object(
            seq![("code"@, integer_value(self.code)), ("message"@, JsonValue::Text(self.message@))],
        )
    }

    /// The error as a JSON object.
    pub fn into_json(self) -> (doc: Json)
        ensures
            doc@ == self.value(),
    {
        let code = if self.code >= 0 {
            Json::Number(JsonNumber::Unsigned(self.code as u64))
        } else {
            Json::Number(JsonNumber::Negative(self.code))
        };
        let mut members: Vec<Member> = Vec::new();
        members.push(Member::new("code", code));
        members.push(Member { key: "message".to_owned(), value: Json::Text(self.message) });
        let doc = Json::object(members);
        assert(doc@->Object_0 =~= self.value()->Object_0);
        doc
    }
}

impl Response {
    /// The response as a JSON object.
    pub open spec fn value(self) -> JsonValue {
        JsonValue::Object(
            seq![
                ("jsonrpc"@, JsonValue::Text("2.0"@)),
                ("id"@, self.id@),
                match self.outcome {
                    Outcome::Success(result) => ("result"@, result@),
                    Outcome::Failure(error) => ("error"@, error.value()),
                },
            ],
        )
    }

    /// A response that carries the result `result`.
    pub fn success(id: Json, result: Json) -> (response: Response)
        ensures
            response == (Response { id, outcome: Outcome::Success(result) }),
    {
        Response { id, outcome: Outcome::Success(result) }
    }

    /// A response that carries an error.
    pub fn failure(id: Json, code: i64, message: String) -> (response: Response)
        ensures
            response == (Response { id, outcome: Outcome::Failure(WireError { code, message }) }),
    {
        Response { id, outcome: Outcome::Failure(WireError { code, message }) }
    }

    /// The answer to a request for an operation, from how the operation
    /// ended: its text as the result, or its failure as an error.
    pub fn tool_result(id: Json, ended: Result<String, String>) -> (response: Response)
        ensures
            response.id == id,
            match ended {
                Ok(text) => response.outcome is Success && response.outcome->Success_0@
                    == text_result(text@),
                Err(message) => response.outcome == Outcome::Failure(
                    WireError { code: TOOL_EXECUTION_FAILED, message },
                ),
            },
    {
        match ended {
            Ok(text) => {
                let mut block: Vec<Member> = Vec::new();
                block.push(Member::new("type", Json::text("text")));
                block.push(Member { key: "text".to_owned(), value: Json::Text(text) });
                let block = Json::object(block);
                let mut blocks: Vec<Json> = Vec::new();
                blocks.push(block);
                let blocks = Json::array(blocks);
                let mut members: Vec<Member> = Vec::new();
                members.push(Member::new("content", blocks));
                let result = Json::object(members);
                proof {
                    assert(block@->Object_0 =~= seq![
                        ("type"@, JsonValue::Text("text"@)),
                        ("text"@, JsonValue::Text(text@)),
                    ]);
                    assert(blocks@->Array_0 =~= seq![block@]);
                    assert(result@->Object_0 =~= seq![("content"@, blocks@)]);
                }
                Response { id, outcome: Outcome::Success(result) }
            },
            Err(message) => Response::failure(id, TOOL_EXECUTION_FAILED, message),
        }
    }

    /// The response as a JSON object.
    pub fn into_json(self) -> (doc: Json)
        ensures
            doc@ == self.value(),
    {
        let ghost shown = self.value();
        let mut members: Vec<Member> = Vec::new();
        members.push(Member::new("jsonrpc", Json::text("2.0")));
        members.push(Member::new("id", self.id));
        match self.outcome {
            Outcome::Success(result) => {
                members.push(Member::new("result", result));
            },
            Outcome::Failure(error) => {
                members.push(Member::new("error", error.into_json()));
            },
        }
        let doc = Json::object(members);
        assert(doc@->Object_0 =~= shown->Object_0);
        doc
    }
}

/// Reads a message from a document.
pub fn decode_message(doc: &Json) -> (message: Option<Message>)
    ensures
        message is Some == is_message(doc@),
        match message {
            Some(Message::Request(request)) => {
                &&& method_of(doc@) == Some(request.method@)
                &&& id_of(doc@) == Some(request.id@)
                &&& match request.params {
                    Some(params) => doc@.field("params"@) == Some(params@),
                    None => doc@.field("params"@) is None,
                }
            },
            Some(Message::Notification(method)) => {
                &&& method_of(doc@) == Some(method@)
                &&& id_of(doc@) is None
            },
            None => true,
        },
{
    let method = match doc.get("method") {
        Some(method) => match method.as_str() {
            Some(method) => method.to_owned(),
            None => {
                return None;
            },
        },
        None => {
            return None;
        },
    };
    let id = match doc.get("id") {
        Some(id) => if id.is_null() {
            None
        } else {
            Some(id)
        },
        None => None,
    };
    match id {
        None => Some(Message::Notification(method)),
        Some(id) => {
            let valid = match id {
                Json::Text(_) => true,
                Json::Number(_) => true,
                _ => false,
            };
            if !valid {
                return None;
            }
            let params = match doc.get("params") {
                Some(params) => Some(params.duplicate()),
                None => None,
            };
            Some(Message::Request(Request { id: id.duplicate(), method, params }))
        },
    }
}

/// Reads a message from a line of input: the line must be well-formed JSON,
/// and the document must be a message.
pub fn read_message(line: &str) -> (message: Option<Message>)
    ensures
        message is Some == (json_document(line@) is Some && is_message(json_document(line@)->0)),
        match message {
            Some(Message::Request(request)) => {
                &&& method_of(json_document(line@)->0) == Some(request.method@)
                &&& id_of(json_document(line@)->0) == Some(request.id@)
            },
            Some(Message::Notification(method)) => {
                &&& method_of(json_document(line@)->0) == Some(method@)
                &&& id_of(json_document(line@)->0) is None
            },
            None => true,
        },
{
    match parse_json(line) {
        Some(doc) => decode_message(&doc),
        None => None,
    }
}

} // verus!
