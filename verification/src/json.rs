//! JSON documents: a mathematical model of them, and their construction with `serde_json`.

use crate::text::decimal;
use vstd::prelude::*;

verus! {

/// A JSON document. A number is taken by the text that it is written with.
pub enum Json {
    Null,
    Bool(bool),
    Number(Seq<char>),
    Str(Seq<char>),
    Array(Seq<Json>),
    Object(Map<Seq<char>, Json>),
}

/// `serde_json::Value`, opaque: what it holds is spoken of as [`json_of`].
#[verifier::external_type_specification]
#[verifier::external_body]
pub struct ExValue(serde_json::Value);

/// `serde_json::Map`, opaque: what it holds is spoken of as [`object_of`].
#[verifier::external_type_specification]
#[verifier::external_body]
#[verifier::reject_recursive_types(K)]
#[verifier::reject_recursive_types(V)]
pub struct ExMap<K, V>(serde_json::Map<K, V>);

/// The document that a `serde_json::Value` holds.
pub uninterp spec fn json_of(value: serde_json::Value) -> Json;

/// The members that a `serde_json::Map` holds.
pub uninterp spec fn object_of(object: serde_json::Map<String, serde_json::Value>) -> Map<
    Seq<char>,
    Json,
>;

/// The text that `serde_json::to_string` writes for a document.
pub uninterp spec fn json_text(document: Json) -> Seq<char>;

/// Whether no character of a text ends a line.
pub open spec fn on_one_line(text: Seq<char>) -> bool {
    forall|i: int| 0 <= i < text.len() ==> #[trigger] text[i] != '\n' && text[i] != '\r'
}

/// Whether a text opens as a JSON object does.
pub open spec fn opens_object(text: Seq<char>) -> bool {
    text.len() > 0 && text[0] == '{'
}

/// `serde_json::Value::Null`, the null document.
#[verifier::external_body]
fn null_value() -> (value: serde_json::Value)
    ensures
        json_of(value) == Json::Null,
{
    serde_json::Value::Null
}

/// `serde_json::Value::from` on a `u64`: a number, which is written in decimal.
#[verifier::external_body]
fn number_value(n: u64) -> (value: serde_json::Value)
    ensures
        json_of(value) == Json::Number(decimal(n as nat)),
{
    serde_json::Value::from(n)
}

/// `serde_json::Value::from` on a `&str`: a string of the same characters.
#[verifier::external_body]
fn string_value(s: &str) -> (value: serde_json::Value)
    ensures
        json_of(value) == Json::Str(s@),
{
    serde_json::Value::from(s)
}

/// `serde_json::Value::from` on a `Vec` of values: an array of them, in the same order.
#[verifier::external_body]
fn array_value(items: Vec<serde_json::Value>) -> (value: serde_json::Value)
    ensures
        json_of(value) == Json::Array(items@.map_values(|v: serde_json::Value| json_of(v))),
{
    serde_json::Value::from(items)
}

/// `serde_json::Map::new`: an object without members.
#[verifier::external_body]
fn new_object() -> (object: serde_json::Map<String, serde_json::Value>)
    ensures
        object_of(object) == (Map::<Seq<char>, Json>::empty()),
{
    serde_json::Map::new()
}

/// `serde_json::Map::insert`: the object gains the member, which takes the place of one with the
/// same name; the other members stay.
#[verifier::external_body]
fn insert_member(
    object: &mut serde_json::Map<String, serde_json::Value>,
    name: &str,
    value: serde_json::Value,
)
    ensures
        object_of(*final(object)) == object_of(*old(object)).insert(name@, json_of(value)),
{
    let _ = object.insert(name.to_string(), value);
}

/// `serde_json::Value::from` on a `serde_json::Map`: an object with those members.
#[verifier::external_body]
fn object_value(object: serde_json::Map<String, serde_json::Value>) -> (value: serde_json::Value)
    ensures
        json_of(value) == Json::Object(object_of(object)),
{
    serde_json::Value::from(object)
}

/// `serde_json::to_string` on a value. The text depends on the document alone (members are
/// written in the order of their names). Writing a value never fails; the compact form holds no
/// line break (those of strings are escaped), and that of an object opens with a brace.
#[verifier::external_body]
fn value_text(value: &serde_json::Value) -> (text: String)
    ensures
        text@ == json_text(json_of(*value)),
        on_one_line(text@),
        json_of(*value) is Object ==> opens_object(text@),
{
    serde_json::to_string(value).unwrap()
}

/// A text where there is one, null otherwise.
pub open spec fn text_or_null(text: Option<Seq<char>>) -> Json {
    match text {
        Some(s) => Json::Str(s),
        None => Json::Null,
    }
}

fn text_or_null_value(text: Option<&str>) -> (value: serde_json::Value)
    ensures
        json_of(value) == text_or_null(
            match text {
                Some(s) => Some(s@),
                None => None,
            },
        ),
{
    match text {
        Some(s) => string_value(s),
        None => null_value(),
    }
}

/// `{"error": message}`
pub open spec fn error_json(message: Seq<char>) -> Json {
    Json::Object(map!["error"@ => Json::Str(message)])
}

/// The text of `{"error": message}`.
pub fn error_text(message: &str) -> (text: String)
    ensures
        text@ == json_text(error_json(message@)),
        on_one_line(text@),
        opens_object(text@),
{
    let mut object = new_object();
    insert_member(&mut object, "error", string_value(message));
    value_text(&object_value(object))
}

/// `{"error": {"message": message, "type": "internal_error"}}`
pub open spec fn internal_error_json(message: Seq<char>) -> Json {
    Json::Object(
        map![
            "error"@ => Json::Object(
                map!["message"@ => Json::Str(message), "type"@ => Json::Str("internal_error"@)],
            ),
        ],
    )
}

/// The text of `{"error": {"message": message, "type": "internal_error"}}`.
pub fn internal_error_text(message: &str) -> (text: String)
    ensures
        text@ == json_text(internal_error_json(message@)),
        on_one_line(text@),
        opens_object(text@),
{
    let mut detail = new_object();
    insert_member(&mut detail, "message", string_value(message));
    insert_member(&mut detail, "type", string_value("internal_error"));
    let mut object = new_object();
    insert_member(&mut object, "error", object_value(detail));
    value_text(&object_value(object))
}

/// A chunk of a streamed reply: who asked, when, of which model, and a single choice.
pub open spec fn chunk_json(
    id: Seq<char>,
    object: Seq<char>,
    created: u64,
    model: Seq<char>,
    choice: Json,
) -> Json {
    Json::Object(
        map![
            "id"@ => Json::Str(id),
            "object"@ => Json::Str(object),
            "created"@ => Json::Number(decimal(created as nat)),
            "model"@ => Json::Str(model),
            "choices"@ => Json::Array(seq![choice]),
        ],
    )
}

fn chunk_value(
    id: &str,
    object: &str,
    created: u64,
    model: &str,
    choice: serde_json::Value,
) -> (value: serde_json::Value)
    ensures
        json_of(value) == chunk_json(id@, object@, created, model@, json_of(choice)),
{
    let ghost the_choice = json_of(choice);
    let mut members = new_object();
    insert_member(&mut members, "id", string_value(id));
    insert_member(&mut members, "object", string_value(object));
    insert_member(&mut members, "created", number_value(created));
    insert_member(&mut members, "model", string_value(model));
    let mut choices: Vec<serde_json::Value> = Vec::new();
    choices.push(choice);
    proof {
        assert(choices@.map_values(|v: serde_json::Value| json_of(v)) =~= seq![the_choice]);
    }
    insert_member(&mut members, "choices", array_value(choices));
    object_value(members)
}

/// The choice of a text completion chunk.
pub open spec fn completion_choice_json(
    text: Seq<char>,
    finish_reason: Option<Seq<char>>,
) -> Json {
    Json::Object(
        map![
            "index"@ => Json::Number(decimal(0)),
            "text"@ => Json::Str(text),
            "logprobs"@ => Json::Null,
            "finish_reason"@ => text_or_null(finish_reason),
        ],
    )
}

/// A text completion chunk.
pub open spec fn completion_chunk_json(
    id: Seq<char>,
    created: u64,
    model: Seq<char>,
    text: Seq<char>,
    finish_reason: Option<Seq<char>>,
) -> Json {
    chunk_json(
        id,
        "text_completion"@,
        created,
        model,
        completion_choice_json(text, finish_reason),
    )
}

/// The text of a text completion chunk.
pub fn completion_chunk_text(
    id: &str,
    created: u64,
    model: &str,
    text: &str,
    finish_reason: Option<&str>,
) -> (chunk: String)
    ensures
        chunk@ == json_text(
            completion_chunk_json(
                id@,
                created,
                model@,
                text@,
                match finish_reason {
                    Some(s) => Some(s@),
                    None => None,
                },
            ),
        ),
        on_one_line(chunk@),
        opens_object(chunk@),
{
    let mut choice = new_object();
    insert_member(&mut choice, "index", number_value(0));
    insert_member(&mut choice, "text", string_value(text));
    insert_member(&mut choice, "logprobs", null_value());
    insert_member(&mut choice, "finish_reason", text_or_null_value(finish_reason));
    value_text(&chunk_value(id, "text_completion", created, model, object_value(choice)))
}

/// The delta of a chat chunk: the content it adds, if any.
pub open spec fn delta_json(content: Option<Seq<char>>) -> Json {
    Json::Object(
        match content {
            Some(text) => map!["content"@ => Json::Str(text)],
            None => Map::empty(),
        },
    )
}

/// A chat completion chunk, which adds content or gives the reason why the reply ends.
pub open spec fn chat_chunk_json(
    id: Seq<char>,
    created: u64,
    model: Seq<char>,
    content: Option<Seq<char>>,
    finish_reason: Option<Seq<char>>,
) -> Json {
    chunk_json(
        id,
        "chat.completion.chunk"@,
        created,
        model,
        Json::Object(
            map![
                "index"@ => Json::Number(decimal(0)),
                "delta"@ => delta_json(content),
                "finish_reason"@ => text_or_null(finish_reason),
            ],
        ),
    )
}

/// The text of a chat completion chunk.
pub fn chat_chunk_text(
    id: &str,
    created: u64,
    model: &str,
    content: Option<&str>,
    finish_reason: Option<&str>,
) -> (chunk: String)
    ensures
        chunk@ == json_text(
            chat_chunk_json(
                id@,
                created,
                model@,
                match content {
                    Some(s) => Some(s@),
                    None => None,
                },
                match finish_reason {
                    Some(s) => Some(s@),
                    None => None,
                },
            ),
        ),
        on_one_line(chunk@),
        opens_object(chunk@),
{
    let mut delta = new_object();
    if let Some(text) = content {
        insert_member(&mut delta, "content", string_value(text));
    }
    let mut choice = new_object();
    insert_member(&mut choice, "index", number_value(0));
    insert_member(&mut choice, "delta", object_value(delta));
    insert_member(&mut choice, "finish_reason", text_or_null_value(finish_reason));
    value_text(&chunk_value(id, "chat.completion.chunk", created, model, object_value(choice)))
}

} // verus!
