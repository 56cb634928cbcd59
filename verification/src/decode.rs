//! The wire format, read: from a JSON document back to a message.
//!
//! A reader asks for the members it needs and passes over any others. A
//! choice must be an object with exactly one member.

use crate::command::{AbstractProcess, Command, CommandView, Condition, ExitStatus, Wiring};
use crate::decimal::{decimal, lemma_decimal_of_numeral, lemma_numeral_of_decimal, numeral, numeral_value};
use crate::ids::ProcessId;
use crate::json::{
    json_of,
    json_parse,
    jsons_of,
    members_of,
    object_get,
    object_keys,
    parse_value,
    value_as_array,
    value_as_i64,
    value_as_object,
    value_as_str,
    value_as_u64,
    value_is_null,
    Json,
};
use crate::message::{
    RemoteRequest,
    RemoteResponse,
    Request,
    RequestBody,
    RequestView,
    Response,
    ResponseBody,
    ResponseView,
};
use std::collections::HashMap;
use vstd::prelude::*;

verus! {

/// The identifier or count that a document holds, if it is a number that
/// fits.
pub open spec fn number_of(json: Json) -> Option<usize> {
    match json {
        Json::Int(n) => if 0 <= n <= usize::MAX {
            Some(n as usize)
        } else {
            None
        },
        _ => None,
    }
}

/// The exit code that a document holds.
pub open spec fn signed_of(json: Json) -> Option<i64> {
    match json {
        Json::Int(n) => if i64::MIN <= n <= i64::MAX {
            Some(n as i64)
        } else {
            None
        },
        _ => None,
    }
}

/// The byte that a document holds.
pub open spec fn byte_of(json: Json) -> Option<u8> {
    match json {
        Json::Int(n) => if 0 <= n <= u8::MAX {
            Some(n as u8)
        } else {
            None
        },
        _ => None,
    }
}

/// The text that a document holds.
pub open spec fn text_of(json: Json) -> Option<Seq<char>> {
    match json {
        Json::Text(text) => Some(text),
        _ => None,
    }
}

/// The byte string that a document holds: it is a list, and each item a byte.
pub open spec fn bytes_of(json: Json) -> Option<Seq<u8>> {
    match json {
        Json::List(items) => if forall|i: int| 0 <= i < items.len() ==> byte_of(#[trigger] items[i]) is Some {
            Some(items.map_values(|item: Json| byte_of(item)->Some_0))
        } else {
            None
        },
        _ => None,
    }
}

/// The list of texts that a document holds: it is a list, and each item a
/// text.
pub open spec fn texts_of(json: Json) -> Option<Seq<Seq<char>>> {
    match json {
        Json::List(items) => if forall|i: int| 0 <= i < items.len() ==> text_of(#[trigger] items[i]) is Some {
            Some(items.map_values(|item: Json| text_of(item)->Some_0))
        } else {
            None
        },
        _ => None,
    }
}

/// The member `name` of a document, if the document is an object that has
/// one.
pub open spec fn member(json: Json, name: Seq<char>) -> Option<Json> {
    match json {
        Json::Dict(members) => if members.contains_key(name) {
            Some(members[name])
        } else {
            None
        },
        _ => None,
    }
}

/// The name and content of a document's only member, if the document is an
/// object that has exactly one.
pub open spec fn variant_of(json: Json) -> Option<(Seq<char>, Json)> {
    match json {
        Json::Dict(members) => if exists|tag: Seq<char>| members.dom() == set![tag] {
            let tag = choose|tag: Seq<char>| members.dom() == set![tag];
            Some((tag, members[tag]))
        } else {
            None
        },
        _ => None,
    }
}

/// The identifier in the member `name` of a document.
pub open spec fn number_member(json: Json, name: Seq<char>) -> Option<usize> {
    match member(json, name) {
        Some(found) => number_of(found),
        None => None,
    }
}

/// The text in the member `name` of a document.
pub open spec fn text_member(json: Json, name: Seq<char>) -> Option<Seq<char>> {
    match member(json, name) {
        Some(found) => text_of(found),
        None => None,
    }
}

/// The byte string in the member `name` of a document.
pub open spec fn bytes_member(json: Json, name: Seq<char>) -> Option<Seq<u8>> {
    match member(json, name) {
        Some(found) => bytes_of(found),
        None => None,
    }
}

/// The command that a document holds.
pub open spec fn command_of(json: Json) -> Option<CommandView> {
    match variant_of(json) {
        Some((tag, content)) => if tag == "Unknown"@ {
            match content {
                Json::List(parts) => if parts.len() == 2 {
                    match (text_of(parts[0]), texts_of(parts[1])) {
                        (Some(name), Some(args)) => Some(CommandView::Unknown(name, args)),
                        _ => None,
                    }
                } else {
                    None
                },
                _ => None,
            }
        } else if tag == "SetDirectory"@ {
            match text_of(content) {
                Some(path) => Some(CommandView::SetDirectory(path)),
                None => None,
            }
        } else if tag == "Edit"@ {
            match text_of(content) {
                Some(path) => Some(CommandView::Edit(path)),
                None => None,
            }
        } else {
            None
        },
        None => None,
    }
}

/// The condition that a document holds.
pub open spec fn condition_of(json: Json) -> Option<Condition> {
    match json {
        Json::Null => Some(None),
        Json::Text(text) => if text == "Success"@ {
            Some(Some(ExitStatus::Success))
        } else if text == "Failure"@ {
            Some(Some(ExitStatus::Failure))
        } else {
            None
        },
        _ => None,
    }
}

/// Whether every member of an object is a gate: named by the numeral of a
/// process, and holding a condition.
pub open spec fn all_gates(members: Map<Seq<char>, Json>) -> bool {
    forall|name: Seq<char>| #[trigger]
        members.contains_key(name) ==> {
            &&& numeral_value(name) is Some
            &&& numeral_value(name)->Some_0 <= usize::MAX
            &&& condition_of(members[name]) is Some
        }
}

/// The map of gates that a document holds: it is an object, and each member a
/// gate.
pub open spec fn gates_of(json: Json) -> Option<Map<usize, Condition>> {
    match json {
        Json::Dict(members) => if all_gates(members) {
            Some(
                Map::new(
                    |process: usize| members.contains_key(decimal(process as nat)),
                    |process: usize| condition_of(members[decimal(process as nat)])->Some_0,
                ),
            )
        } else {
            None
        },
        _ => None,
    }
}

/// The wiring that a document holds.
pub open spec fn wiring_of(json: Json) -> Option<Wiring> {
    match (
        number_member(json, "id"@),
        number_member(json, "stdin"@),
        number_member(json, "stdout"@),
        number_member(json, "stderr"@),
    ) {
        (Some(id), Some(stdin), Some(stdout), Some(stderr)) => Some(
            Wiring { id, stdin, stdout, stderr },
        ),
        _ => None,
    }
}

fn decode_number(value: &serde_json::Value) -> (number: Option<usize>)
    ensures
        number == number_of(json_of(*value)),
{
    match value_as_u64(value) {
        Some(n) => if n <= usize::MAX as u64 {
            Some(n as usize)
        } else {
            None
        },
        None => None,
    }
}

fn decode_text(value: &serde_json::Value) -> (text: Option<String>)
    ensures
        match text {
            Some(t) => text_of(json_of(*value)) == Some(t@),
            None => text_of(json_of(*value)) is None,
        },
{
    match value_as_str(value) {
        Some(t) => Some(t.to_owned()),
        None => None,
    }
}

fn decode_bytes(value: &serde_json::Value) -> (data: Option<Vec<u8>>)
    ensures
        match data {
            Some(d) => bytes_of(json_of(*value)) == Some(d@),
            None => bytes_of(json_of(*value)) is None,
        },
{
    let items: &Vec<serde_json::Value> = match value_as_array(value) {
        Some(items) => items,
        None => {
            return None;
        },
    };
    let ghost jsons = jsons_of(items@);
    let mut data: Vec<u8> = Vec::new();
    let mut i: usize = 0;
    while i < items.len()
        invariant
            i <= items.len(),
            jsons == jsons_of(items@),
            json_of(*value) == Json::List(jsons),
            data@.len() == i,
            forall|k: int| 0 <= k < i ==> byte_of(#[trigger] jsons[k]) == Some(data@[k]),
        decreases items.len() - i,
    {
        assert(jsons[i as int] == json_of(items@[i as int]));
        match value_as_u64(&items[i]) {
            Some(n) => if n <= 255 {
                data.push(n as u8);
            } else {
                assert(byte_of(jsons[i as int]) is None);
                return None;
            },
            None => {
                assert(byte_of(jsons[i as int]) is None);
                return None;
            },
        }
        i = i + 1;
    }
    assert(data@ =~= jsons.map_values(|item: Json| byte_of(item)->Some_0));
    Some(data)
}

fn decode_texts(value: &serde_json::Value) -> (texts: Option<Vec<String>>)
    ensures
        match texts {
            Some(t) => texts_of(json_of(*value)) == Some(t.deep_view()),
            None => texts_of(json_of(*value)) is None,
        },
{
    let items: &Vec<serde_json::Value> = match value_as_array(value) {
        Some(items) => items,
        None => {
            return None;
        },
    };
    let ghost jsons = jsons_of(items@);
    let mut texts: Vec<String> = Vec::new();
    let mut i: usize = 0;
    while i < items.len()
        invariant
            i <= items.len(),
            jsons == jsons_of(items@),
            json_of(*value) == Json::List(jsons),
            texts@.len() == i,
            forall|k: int| 0 <= k < i ==> text_of(#[trigger] jsons[k]) == Some(texts@[k]@),
        decreases items.len() - i,
    {
        assert(jsons[i as int] == json_of(items@[i as int]));
        match value_as_str(&items[i]) {
            Some(t) => {
                texts.push(t.to_owned());
            },
            None => {
                assert(text_of(jsons[i as int]) is None);
                return None;
            },
        }
        i = i + 1;
    }
    assert(texts.deep_view() =~= jsons.map_values(|item: Json| text_of(item)->Some_0));
    Some(texts)
}

/// The member `name` of an object value.
fn field<'a>(value: &'a serde_json::Value, name: &str) -> (found: Option<&'a serde_json::Value>)
    ensures
        match found {
            Some(v) => member(json_of(*value), name@) == Some(json_of(*v)),
            None => member(json_of(*value), name@) is None,
        },
{
    match value_as_object(value) {
        Some(object) => object_get(object, name),
        None => None,
    }
}

fn number_field(value: &serde_json::Value, name: &str) -> (number: Option<usize>)
    ensures
        number == number_member(json_of(*value), name@),
{
    match field(value, name) {
        Some(found) => decode_number(found),
        None => None,
    }
}

fn text_field(value: &serde_json::Value, name: &str) -> (text: Option<String>)
    ensures
        match text {
            Some(t) => text_member(json_of(*value), name@) == Some(t@),
            None => text_member(json_of(*value), name@) is None,
        },
{
    match field(value, name) {
        Some(found) => decode_text(found),
        None => None,
    }
}

fn bytes_field(value: &serde_json::Value, name: &str) -> (data: Option<Vec<u8>>)
    ensures
        match data {
            Some(d) => bytes_member(json_of(*value), name@) == Some(d@),
            None => bytes_member(json_of(*value), name@) is None,
        },
{
    match field(value, name) {
        Some(found) => decode_bytes(found),
        None => None,
    }
}

/// The only member of an object value: its name and its content.
fn variant<'a>(value: &'a serde_json::Value) -> (found: Option<(String, &'a serde_json::Value)>)
    ensures
        match found {
            Some((tag, content)) => variant_of(json_of(*value)) == Some((tag@, json_of(*content))),
            None => variant_of(json_of(*value)) is None,
        },
{
    let object = match value_as_object(value) {
        Some(object) => object,
        None => {
            return None;
        },
    };
    let ghost members = members_of(*object);
    let mut keys: Vec<String> = object_keys(object);
    let ghost names = keys.deep_view();
    if keys.len() != 1 {
        proof {
            if exists|tag: Seq<char>| members.dom() == set![tag] {
                let tag = choose|tag: Seq<char>| members.dom() == set![tag];
                if names.len() == 0 {
                    assert(names.to_set().contains(tag));
                } else {
                    assert(names.to_set().contains(names[0]));
                    assert(names.to_set().contains(names[1]));
                }
            }
        }
        return None;
    }
    let tag: String = match keys.pop() {
        Some(tag) => tag,
        None => {
            return None;
        },
    };
    proof {
        assert(names[0] == tag@);
        assert(names.to_set() =~= set![tag@]);
        let chosen = choose|t: Seq<char>| members.dom() == set![t];
        assert(set![chosen].contains(tag@));
    }
    match object_get(object, tag.as_str()) {
        Some(content) => Some((tag, content)),
        None => None,
    }
}

/// Whether a text is the given word.
fn is_word(text: &String, word: &str) -> (same: bool)
    ensures
        same == (text@ == word@),
{
    let word: String = word.to_owned();
    *text == word
}

fn decode_command(value: &serde_json::Value) -> (command: Option<Command>)
    ensures
        match command {
            Some(c) => command_of(json_of(*value)) == Some(c@),
            None => command_of(json_of(*value)) is None,
        },
{
    let (tag, content) = match variant(value) {
        Some(found) => found,
        None => {
            return None;
        },
    };
    if is_word(&tag, "Unknown") {
        let parts: &Vec<serde_json::Value> = match value_as_array(content) {
            Some(parts) => parts,
            None => {
                return None;
            },
        };
        if parts.len() != 2 {
            return None;
        }
        assert(jsons_of(parts@)[0] == json_of(parts@[0]));
        assert(jsons_of(parts@)[1] == json_of(parts@[1]));
        let name: String = match decode_text(&parts[0]) {
            Some(name) => name,
            None => {
                return None;
            },
        };
        let args: Vec<String> = match decode_texts(&parts[1]) {
            Some(args) => args,
            None => {
                return None;
            },
        };
        Some(Command::Unknown(name, args))
    } else if is_word(&tag, "SetDirectory") {
        match decode_text(content) {
            Some(path) => Some(Command::SetDirectory(path)),
            None => None,
        }
    } else if is_word(&tag, "Edit") {
        match decode_text(content) {
            Some(path) => Some(Command::Edit(path)),
            None => None,
        }
    } else {
        None
    }
}

fn decode_condition(value: &serde_json::Value) -> (condition: Option<Condition>)
    ensures
        condition == condition_of(json_of(*value)),
{
    if value_is_null(value) {
        return Some(None);
    }
    match value_as_str(value) {
        Some(text) => {
            let text: String = text.to_owned();
            if is_word(&text, "Success") {
                Some(Some(ExitStatus::Success))
            } else if is_word(&text, "Failure") {
                Some(Some(ExitStatus::Failure))
            } else {
                None
            }
        },
        None => None,
    }
}

fn decode_wiring(value: &serde_json::Value) -> (process: Option<AbstractProcess>)
    ensures
        match process {
            Some(p) => wiring_of(json_of(*value)) == Some(p@),
            None => wiring_of(json_of(*value)) is None,
        },
{
    let id: usize = match number_field(value, "id") {
        Some(n) => n,
        None => {
            return None;
        },
    };
    let stdin: usize = match number_field(value, "stdin") {
        Some(n) => n,
        None => {
            return None;
        },
    };
    let stdout: usize = match number_field(value, "stdout") {
        Some(n) => n,
        None => {
            return None;
        },
    };
    let stderr: usize = match number_field(value, "stderr") {
        Some(n) => n,
        None => {
            return None;
        },
    };
    Some(AbstractProcess { id: ProcessId::new(id), stdin, stdout, stderr })
}

/// The map of gates in the member `name` of a document.
pub open spec fn gates_member(json: Json, name: Seq<char>) -> Option<Map<usize, Condition>> {
    match member(json, name) {
        Some(found) => gates_of(found),
        None => None,
    }
}

/// The wiring in the member `name` of a document.
pub open spec fn wiring_member(json: Json, name: Seq<char>) -> Option<Wiring> {
    match member(json, name) {
        Some(found) => wiring_of(found),
        None => None,
    }
}

/// The command in the member `name` of a document.
pub open spec fn command_member(json: Json, name: Seq<char>) -> Option<CommandView> {
    match member(json, name) {
        Some(found) => command_of(found),
        None => None,
    }
}

/// The list of texts in the member `name` of a document.
pub open spec fn texts_member(json: Json, name: Seq<char>) -> Option<Seq<Seq<char>>> {
    match member(json, name) {
        Some(found) => texts_of(found),
        None => None,
    }
}

/// The exit code in the member `name` of a document.
pub open spec fn signed_member(json: Json, name: Seq<char>) -> Option<i64> {
    match member(json, name) {
        Some(found) => signed_of(found),
        None => None,
    }
}

/// What the request in a document asks for.
pub open spec fn request_body_of(json: Json) -> Option<RequestBody> {
    match variant_of(json) {
        Some((tag, content)) => if tag == "BeginCommand"@ {
            match (
                gates_member(content, "block_for"@),
                wiring_member(content, "process"@),
                command_member(content, "command"@),
            ) {
                (Some(block_for), Some(process), Some(command)) => Some(
                    RequestBody::BeginCommand { block_for, process, command },
                ),
                _ => None,
            }
        } else if tag == "CancelCommand"@ {
            match number_member(content, "id"@) {
                Some(id) => Some(RequestBody::CancelCommand { id }),
                None => None,
            }
        } else if tag == "BeginRemote"@ {
            match (number_member(content, "id"@), command_member(content, "command"@)) {
                (Some(id), Some(command)) => Some(RequestBody::BeginRemote { id, command }),
                _ => None,
            }
        } else if tag == "OpenFile"@ {
            match (number_member(content, "id"@), text_member(content, "path"@)) {
                (Some(id), Some(path)) => Some(RequestBody::OpenFile { id, path }),
                _ => None,
            }
        } else if tag == "EndRemote"@ {
            match number_member(content, "id"@) {
                Some(id) => Some(RequestBody::EndRemote { id }),
                None => None,
            }
        } else if tag == "ListDirectory"@ {
            match (number_member(content, "id"@), text_member(content, "path"@)) {
                (Some(id), Some(path)) => Some(RequestBody::ListDirectory { id, path }),
                _ => None,
            }
        } else if tag == "FinishEdit"@ {
            match (number_member(content, "id"@), bytes_member(content, "data"@)) {
                (Some(id), Some(data)) => Some(RequestBody::FinishEdit { id, data }),
                _ => None,
            }
        } else if tag == "PipeData"@ {
            match (number_member(content, "id"@), bytes_member(content, "data"@)) {
                (Some(id), Some(data)) => Some(RequestBody::PipeData { id, data }),
                _ => None,
            }
        } else if tag == "PipeRead"@ {
            match (number_member(content, "id"@), number_member(content, "count_bytes"@)) {
                (Some(id), Some(count_bytes)) => Some(RequestBody::PipeRead { id, count_bytes }),
                _ => None,
            }
        } else {
            None
        },
        None => None,
    }
}

/// What the response in a document reports.
pub open spec fn response_body_of(json: Json) -> Option<ResponseBody> {
    match variant_of(json) {
        Some((tag, content)) => if tag == "CommandDone"@ {
            match (number_member(content, "id"@), signed_member(content, "exit_code"@)) {
                (Some(id), Some(exit_code)) => Some(ResponseBody::CommandDone { id, exit_code }),
                _ => None,
            }
        } else if tag == "DirectoryListing"@ {
            match (number_member(content, "id"@), texts_member(content, "items"@)) {
                (Some(id), Some(items)) => Some(ResponseBody::DirectoryListing { id, items }),
                _ => None,
            }
        } else if tag == "EditRequest"@ {
            match (
                number_member(content, "command_id"@),
                number_member(content, "edit_id"@),
                text_member(content, "name"@),
                bytes_member(content, "data"@),
            ) {
                (Some(command_id), Some(edit_id), Some(name), Some(data)) => Some(
                    ResponseBody::EditRequest { command_id, edit_id, name, data },
                ),
                _ => None,
            }
        } else if tag == "PipeData"@ {
            match (number_member(content, "id"@), bytes_member(content, "data"@)) {
                (Some(id), Some(data)) => Some(ResponseBody::PipeData { id, data }),
                _ => None,
            }
        } else if tag == "PipeRead"@ {
            match (number_member(content, "id"@), number_member(content, "count_bytes"@)) {
                (Some(id), Some(count_bytes)) => Some(ResponseBody::PipeRead { id, count_bytes }),
                _ => None,
            }
        } else {
            None
        },
        None => None,
    }
}

/// The request that a document holds.
pub open spec fn request_of(json: Json) -> Option<RequestView> {
    match (number_member(json, "remote_id"@), member(json, "message"@)) {
        (Some(remote_id), Some(content)) => match request_body_of(content) {
            Some(message) => Some(RequestView { remote_id, message }),
            None => None,
        },
        _ => None,
    }
}

/// The response that a document holds.
pub open spec fn response_of(json: Json) -> Option<ResponseView> {
    match (number_member(json, "remote_id"@), member(json, "message"@)) {
        (Some(remote_id), Some(content)) => match response_body_of(content) {
            Some(message) => Some(ResponseView { remote_id, message }),
            None => None,
        },
        _ => None,
    }
}

/// Why bytes were not read as a message.
#[derive(Copy, Clone, Debug, PartialEq, Eq, Structural)]
pub enum DecodeError {
    /// The bytes are not a JSON document.
    Syntax,
    /// The bytes are a JSON document, and the document is not a message.
    Shape,
}

/// What reading bytes as a request gives.
pub open spec fn read_request(bytes: Seq<u8>) -> Result<RequestView, DecodeError> {
    match json_parse(bytes) {
        Some(json) => match request_of(json) {
            Some(request) => Ok(request),
            None => Err(DecodeError::Shape),
        },
        None => Err(DecodeError::Syntax),
    }
}

/// What reading bytes as a response gives.
pub open spec fn read_response(bytes: Seq<u8>) -> Result<ResponseView, DecodeError> {
    match json_parse(bytes) {
        Some(json) => match response_of(json) {
            Some(response) => Ok(response),
            None => Err(DecodeError::Shape),
        },
        None => Err(DecodeError::Syntax),
    }
}

fn decode_signed(value: &serde_json::Value) -> (number: Option<i64>)
    ensures
        number == signed_of(json_of(*value)),
{
    value_as_i64(value)
}

fn decode_gates(value: &serde_json::Value) -> (gates: Option<HashMap<usize, Condition>>)
    ensures
        match gates {
            Some(g) => gates_of(json_of(*value)) == Some(g@),
            None => gates_of(json_of(*value)) is None,
        },
{
    broadcast use vstd::std_specs::hash::group_hash_axioms;

    let object = match value_as_object(value) {
        Some(object) => object,
        None => {
            return None;
        },
    };
    let ghost members = members_of(*object);
    let keys: Vec<String> = object_keys(object);
    let ghost names = keys.deep_view();
    let mut gates: HashMap<usize, Condition> = HashMap::new();
    let mut i: usize = 0;
    while i < keys.len()
        invariant
            i <= keys.len(),
            names == keys.deep_view(),
            names.to_set() == members.dom(),
            members == members_of(*object),
            json_of(*value) == Json::Dict(members),
            forall|k: int|
                0 <= k < i ==> {
                    &&& numeral_value(#[trigger] names[k]) is Some
                    &&& numeral_value(names[k])->Some_0 <= usize::MAX
                    &&& condition_of(members[names[k]]) is Some
                },
            forall|process: usize| #[trigger]
                gates@.contains_key(process) <==> exists|k: int|
                    0 <= k < i && #[trigger] names[k] == decimal(process as nat),
            forall|process: usize| #[trigger]
                gates@.contains_key(process) ==> gates@[process] == condition_of(
                    members[decimal(process as nat)],
                )->Some_0,
        decreases keys.len() - i,
    {
        let name: &String = &keys[i];
        assert(names[i as int] == name@);
        assert(names.to_set().contains(names[i as int]));
        let process: usize = match numeral(name.as_str()) {
            Some(process) => process,
            None => {
                return None;
            },
        };
        let found: &serde_json::Value = match object_get(object, name.as_str()) {
            Some(found) => found,
            None => {
                return None;
            },
        };
        let condition: Condition = match decode_condition(found) {
            Some(condition) => condition,
            None => {
                return None;
            },
        };
        proof {
            lemma_decimal_of_numeral(name@);
        }
        let ghost before = gates@;
        gates.insert(process, condition);
        assert forall|other: usize| #[trigger]
            gates@.contains_key(other) <==> exists|k: int|
                0 <= k < i + 1 && #[trigger] names[k] == decimal(other as nat) by {
            if other == process {
                assert(names[i as int] == decimal(other as nat));
            } else if before.contains_key(other) {
                let k = choose|k: int| 0 <= k < i && #[trigger] names[k] == decimal(other as nat);
                assert(0 <= k < i + 1 && names[k] == decimal(other as nat));
            } else if exists|k: int|
                0 <= k < i + 1 && #[trigger] names[k] == decimal(other as nat) {
                let k = choose|k: int|
                    0 <= k < i + 1 && #[trigger] names[k] == decimal(other as nat);
                if k == i {
                    lemma_numeral_of_decimal(other as nat);
                    lemma_numeral_of_decimal(process as nat);
                }
            }
        }
        i = i + 1;
    }
    proof {
        assert forall|name: Seq<char>| #[trigger] members.contains_key(name) implies {
            &&& numeral_value(name) is Some
            &&& numeral_value(name)->Some_0 <= usize::MAX
            &&& condition_of(members[name]) is Some
        } by {
            assert(names.to_set().contains(name));
            let k = choose|k: int| 0 <= k < names.len() && names[k] == name;
            assert(numeral_value(names[k]) is Some);
        }
        let read = Map::new(
            |process: usize| members.contains_key(decimal(process as nat)),
            |process: usize| condition_of(members[decimal(process as nat)])->Some_0,
        );
        assert forall|process: usize| gates@.contains_key(process) <==> read.contains_key(
            process,
        ) by {
            if gates@.contains_key(process) {
                let k = choose|k: int| 0 <= k < i && #[trigger] names[k] == decimal(process as nat);
                assert(names.to_set().contains(names[k]));
            }
            if read.contains_key(process) {
                assert(names.to_set().contains(decimal(process as nat)));
                let k = choose|k: int|
                    0 <= k < names.len() && names[k] == decimal(process as nat);
                assert(0 <= k < i && names[k] == decimal(process as nat));
            }
        }
        assert(gates@ =~= read);
    }
    Some(gates)
}

fn gates_field(value: &serde_json::Value, name: &str) -> (gates: Option<HashMap<usize, Condition>>)
    ensures
        match gates {
            Some(g) => gates_member(json_of(*value), name@) == Some(g@),
            None => gates_member(json_of(*value), name@) is None,
        },
{
    match field(value, name) {
        Some(found) => decode_gates(found),
        None => None,
    }
}

fn wiring_field(value: &serde_json::Value, name: &str) -> (process: Option<AbstractProcess>)
    ensures
        match process {
            Some(p) => wiring_member(json_of(*value), name@) == Some(p@),
            None => wiring_member(json_of(*value), name@) is None,
        },
{
    match field(value, name) {
        Some(found) => decode_wiring(found),
        None => None,
    }
}

fn command_field(value: &serde_json::Value, name: &str) -> (command: Option<Command>)
    ensures
        match command {
            Some(c) => command_member(json_of(*value), name@) == Some(c@),
            None => command_member(json_of(*value), name@) is None,
        },
{
    match field(value, name) {
        Some(found) => decode_command(found),
        None => None,
    }
}

fn texts_field(value: &serde_json::Value, name: &str) -> (texts: Option<Vec<String>>)
    ensures
        match texts {
            Some(t) => texts_member(json_of(*value), name@) == Some(t.deep_view()),
            None => texts_member(json_of(*value), name@) is None,
        },
{
    match field(value, name) {
        Some(found) => decode_texts(found),
        None => None,
    }
}

fn signed_field(value: &serde_json::Value, name: &str) -> (number: Option<i64>)
    ensures
        number == signed_member(json_of(*value), name@),
{
    match field(value, name) {
        Some(found) => decode_signed(found),
        None => None,
    }
}

fn decode_request_body(value: &serde_json::Value) -> (message: Option<RemoteRequest>)
    ensures
        match message {
            Some(m) => request_body_of(json_of(*value)) == Some(m@),
            None => request_body_of(json_of(*value)) is None,
        },
{
    let (tag, content) = match variant(value) {
        Some(found) => found,
        None => {
            return None;
        },
    };
    if is_word(&tag, "BeginCommand") {
        let block_for = gates_field(content, "block_for");
        let process = wiring_field(content, "process");
        let command = command_field(content, "command");
        match (block_for, process, command) {
            (Some(block_for), Some(process), Some(command)) => Some(
                RemoteRequest::BeginCommand { block_for, process, command },
            ),
            _ => None,
        }
    } else if is_word(&tag, "CancelCommand") {
        match number_field(content, "id") {
            Some(id) => Some(RemoteRequest::CancelCommand { id: ProcessId::new(id) }),
            None => None,
        }
    } else if is_word(&tag, "BeginRemote") {
        match (number_field(content, "id"), command_field(content, "command")) {
            (Some(id), Some(command)) => Some(RemoteRequest::BeginRemote { id, command }),
            _ => None,
        }
    } else if is_word(&tag, "OpenFile") {
        match (number_field(content, "id"), text_field(content, "path")) {
            (Some(id), Some(path)) => Some(RemoteRequest::OpenFile { id, path }),
            _ => None,
        }
    } else if is_word(&tag, "EndRemote") {
        match number_field(content, "id") {
            Some(id) => Some(RemoteRequest::EndRemote { id }),
            None => None,
        }
    } else if is_word(&tag, "ListDirectory") {
        match (number_field(content, "id"), text_field(content, "path")) {
            (Some(id), Some(path)) => Some(RemoteRequest::ListDirectory { id, path }),
            _ => None,
        }
    } else if is_word(&tag, "FinishEdit") {
        match (number_field(content, "id"), bytes_field(content, "data")) {
            (Some(id), Some(data)) => Some(RemoteRequest::FinishEdit { id, data }),
            _ => None,
        }
    } else if is_word(&tag, "PipeData") {
        match (number_field(content, "id"), bytes_field(content, "data")) {
            (Some(id), Some(data)) => Some(RemoteRequest::PipeData { id, data }),
            _ => None,
        }
    } else if is_word(&tag, "PipeRead") {
        match (number_field(content, "id"), number_field(content, "count_bytes")) {
            (Some(id), Some(count_bytes)) => Some(RemoteRequest::PipeRead { id, count_bytes }),
            _ => None,
        }
    } else {
        None
    }
}

fn decode_response_body(value: &serde_json::Value) -> (message: Option<RemoteResponse>)
    ensures
        match message {
            Some(m) => response_body_of(json_of(*value)) == Some(m@),
            None => response_body_of(json_of(*value)) is None,
        },
{
    let (tag, content) = match variant(value) {
        Some(found) => found,
        None => {
            return None;
        },
    };
    if is_word(&tag, "CommandDone") {
        match (number_field(content, "id"), signed_field(content, "exit_code")) {
            (Some(id), Some(exit_code)) => Some(
                RemoteResponse::CommandDone { id: ProcessId::new(id), exit_code },
            ),
            _ => None,
        }
    } else if is_word(&tag, "DirectoryListing") {
        match (number_field(content, "id"), texts_field(content, "items")) {
            (Some(id), Some(items)) => Some(RemoteResponse::DirectoryListing { id, items }),
            _ => None,
        }
    } else if is_word(&tag, "EditRequest") {
        let command_id = number_field(content, "command_id");
        let edit_id = number_field(content, "edit_id");
        let name = text_field(content, "name");
        let data = bytes_field(content, "data");
        match (command_id, edit_id, name, data) {
            (Some(command_id), Some(edit_id), Some(name), Some(data)) => Some(
                RemoteResponse::EditRequest {
                    command_id: ProcessId::new(command_id),
                    edit_id,
                    name,
                    data,
                },
            ),
            _ => None,
        }
    } else if is_word(&tag, "PipeData") {
        match (number_field(content, "id"), bytes_field(content, "data")) {
            (Some(id), Some(data)) => Some(RemoteResponse::PipeData { id, data }),
            _ => None,
        }
    } else if is_word(&tag, "PipeRead") {
        match (number_field(content, "id"), number_field(content, "count_bytes")) {
            (Some(id), Some(count_bytes)) => Some(RemoteResponse::PipeRead { id, count_bytes }),
            _ => None,
        }
    } else {
        None
    }
}

impl Request {
    /// Reads a request from a JSON value. There is one exactly where the
    /// value holds a request.
    pub fn from_value(value: &serde_json::Value) -> (request: Option<Request>)
        ensures
            match request {
                Some(r) => request_of(json_of(*value)) == Some(r@),
                None => request_of(json_of(*value)) is None,
            },
    {
        let remote_id = number_field(value, "remote_id");
        let content = field(value, "message");
        match (remote_id, content) {
            (Some(remote_id), Some(content)) => match decode_request_body(content) {
                Some(message) => Some(Request::new(remote_id, message)),
                None => None,
            },
            _ => None,
        }
    }

    /// Reads a request from the bytes of a JSON text. White space around the
    /// text, such as the line feed that ends a message, is passed over.
    pub fn decode(bytes: &[u8]) -> (res: Result<Request, DecodeError>)
        ensures
            match res {
                Ok(request) => read_request(bytes@) == Ok::<RequestView, DecodeError>(request@),
                Err(error) => read_request(bytes@) == Err::<RequestView, DecodeError>(error),
            },
    {
        match parse_value(bytes) {
            Ok(value) => match Request::from_value(&value) {
                Some(request) => Ok(request),
                None => Err(DecodeError::Shape),
            },
            Err(_) => Err(DecodeError::Syntax),
        }
    }
}

impl Response {
    /// Reads a response from a JSON value. There is one exactly where the
    /// value holds a response.
    pub fn from_value(value: &serde_json::Value) -> (response: Option<Response>)
        ensures
            match response {
                Some(r) => response_of(json_of(*value)) == Some(r@),
                None => response_of(json_of(*value)) is None,
            },
    {
        let remote_id = number_field(value, "remote_id");
        let content = field(value, "message");
        match (remote_id, content) {
            (Some(remote_id), Some(content)) => match decode_response_body(content) {
                Some(message) => Some(Response::new(remote_id, message)),
                None => None,
            },
            _ => None,
        }
    }

    /// Reads a response from the bytes of a JSON text. White space around the
    /// text, such as the line feed that ends a message, is passed over.
    pub fn decode(bytes: &[u8]) -> (res: Result<Response, DecodeError>)
        ensures
            match res {
                Ok(response) => read_response(bytes@) == Ok::<ResponseView, DecodeError>(
                    response@,
                ),
                Err(error) => read_response(bytes@) == Err::<ResponseView, DecodeError>(error),
            },
    {
        match parse_value(bytes) {
            Ok(value) => match Response::from_value(&value) {
                Some(response) => Ok(response),
                None => Err(DecodeError::Shape),
            },
            Err(_) => Err(DecodeError::Syntax),
        }
    }
}

} // verus!
