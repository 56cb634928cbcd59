//! The wire format, written: every message is one JSON document followed by a
//! line feed.
//!
//! A record is an object with one member per field. A choice is an object
//! with one member, named after the variant. An identifier is a number, a
//! byte string an array of numbers, an absent condition `null`.

use crate::command::{
    gate_keys,
    AbstractProcess,
    Command,
    CommandView,
    Condition,
    ExitStatus,
    Wiring,
};
use crate::ids::RemoteId;
use crate::decimal::{
    decimal,
    decimal_text,
    lemma_decimal_of_numeral,
    lemma_numeral_of_decimal,
    numeral_value,
};
use crate::json::{
    empty_object,
    json_bytes,
    json_of,
    jsons_of,
    list_value,
    members_of,
    null_value,
    object_insert,
    object_value,
    signed_value,
    text_value,
    unsigned_value,
    value_bytes,
    Json,
};
use crate::message::{
    RemoteRequest,
    RemoteResponse,
    Request,
    RequestBody,
    RequestView,
    Response,
    ResponseBody,
    ResponseView,
};
use std::collections::HashMap;
use vstd::prelude::*;

verus! {

/// The byte that ends a message.
pub const LINE_FEED: u8 = 10;

/// An identifier or a count on the wire.
pub open spec fn number_json(n: usize) -> Json {
    Json::Int(n as int)
}

/// A list of texts on the wire.
pub open spec fn texts_json(items: Seq<Seq<char>>) -> Json {
    Json::List(items.map_values(|text: Seq<char>| Json::Text(text)))
}

/// A byte string on the wire.
pub open spec fn bytes_json(data: Seq<u8>) -> Json {
    Json::List(data.map_values(|byte: u8| Json::Int(byte as int)))
}

/// One variant of a choice on the wire.
pub open spec fn variant_json(tag: Seq<char>, content: Json) -> Json {
    Json::Dict(map![tag => content])
}

/// A command on the wire.
pub open spec fn command_json(command: CommandView) -> Json {
    match command {
        CommandView::Unknown(name, args) => variant_json(
            "Unknown"@,
            Json::List(seq![Json::Text(name), texts_json(args)]),
        ),
        CommandView::SetDirectory(path) => variant_json("SetDirectory"@, Json::Text(path)),
        CommandView::Edit(path) => variant_json("Edit"@, Json::Text(path)),
    }
}

/// A condition on the wire.
pub open spec fn condition_json(condition: Condition) -> Json {
    match condition {
        None => Json::Null,
        Some(ExitStatus::Success) => Json::Text("Success"@),
        Some(ExitStatus::Failure) => Json::Text("Failure"@),
    }
}

/// The condition that a gate map holds under the process whose numeral is
/// `name`, if `name` is the numeral of one of its processes.
pub open spec fn gate_named(block_for: Map<usize, Condition>, name: Seq<char>) -> Option<
    Condition,
> {
    match numeral_value(name) {
        Some(n) => if n <= usize::MAX && block_for.contains_key(n as usize) {
            Some(block_for[n as usize])
        } else {
            None
        },
        None => None,
    }
}

/// The members of a gate map on the wire: one per process, named by the
/// process's numeral.
pub open spec fn gates_members(block_for: Map<usize, Condition>) -> Map<Seq<char>, Json> {
    Map::new(
        |name: Seq<char>| gate_named(block_for, name) is Some,
        |name: Seq<char>| condition_json(gate_named(block_for, name)->Some_0),
    )
}

/// A gate map on the wire.
pub open spec fn gates_json(block_for: Map<usize, Condition>) -> Json {
    Json::Dict(gates_members(block_for))
}

/// A process's wiring on the wire.
pub open spec fn wiring_json(wiring: Wiring) -> Json {
    Json::Dict(
        map![
            "id"@ => number_json(wiring.id),
            "stdin"@ => number_json(wiring.stdin),
            "stdout"@ => number_json(wiring.stdout),
            "stderr"@ => number_json(wiring.stderr),
        ],
    )
}

/// What a request asks for, on the wire.
pub open spec fn request_body_json(body: RequestBody) -> Json {
    match body {
        RequestBody::BeginCommand { block_for, process, command } => variant_json(
            "BeginCommand"@,
            Json::Dict(
                map![
                    "block_for"@ => gates_json(block_for),
                    "process"@ => wiring_json(process),
                    "command"@ => command_json(command),
                ],
            ),
        ),
        RequestBody::CancelCommand { id } => variant_json(
            "CancelCommand"@,
            Json::Dict(map!["id"@ => number_json(id)]),
        ),
        RequestBody::BeginRemote { id, command } => variant_json(
            "BeginRemote"@,
            Json::Dict(map!["id"@ => number_json(id), "command"@ => command_json(command)]),
        ),
        RequestBody::OpenFile { id, path } => variant_json(
            "OpenFile"@,
            Json::Dict(map!["id"@ => number_json(id), "path"@ => Json::Text(path)]),
        ),
        RequestBody::EndRemote { id } => variant_json(
            "EndRemote"@,
            Json::Dict(map!["id"@ => number_json(id)]),
        ),
        RequestBody::ListDirectory { id, path } => variant_json(
            "ListDirectory"@,
            Json::Dict(map!["id"@ => number_json(id), "path"@ => Json::Text(path)]),
        ),
        RequestBody::FinishEdit { id, data } => variant_json(
            "FinishEdit"@,
            Json::Dict(map!["id"@ => number_json(id), "data"@ => bytes_json(data)]),
        ),
        RequestBody::PipeData { id, data } => variant_json(
            "PipeData"@,
            Json::Dict(map!["id"@ => number_json(id), "data"@ => bytes_json(data)]),
        ),
        RequestBody::PipeRead { id, count_bytes } => variant_json(
            "PipeRead"@,
            Json::Dict(
                map!["id"@ => number_json(id), "count_bytes"@ => number_json(count_bytes)],
            ),
        ),
    }
}

/// What a response reports, on the wire.
pub open spec fn response_body_json(body: ResponseBody) -> Json {
    match body {
        ResponseBody::CommandDone { id, exit_code } => variant_json(
            "CommandDone"@,
            Json::Dict(map!["id"@ => number_json(id), "exit_code"@ => Json::Int(exit_code as int)]),
        ),
        ResponseBody::DirectoryListing { id, items } => variant_json(
            "DirectoryListing"@,
            Json::Dict(map!["id"@ => number_json(id), "items"@ => texts_json(items)]),
        ),
        ResponseBody::EditRequest { command_id, edit_id, name, data } => variant_json(
            "EditRequest"@,
            Json::Dict(
                map![
                    "command_id"@ => number_json(command_id),
                    "edit_id"@ => number_json(edit_id),
                    "name"@ => Json::Text(name),
                    "data"@ => bytes_json(data),
                ],
            ),
        ),
        ResponseBody::PipeData { id, data } => variant_json(
            "PipeData"@,
            Json::Dict(map!["id"@ => number_json(id), "data"@ => bytes_json(data)]),
        ),
        ResponseBody::PipeRead { id, count_bytes } => variant_json(
            "PipeRead"@,
            Json::Dict(
                map!["id"@ => number_json(id), "count_bytes"@ => number_json(count_bytes)],
            ),
        ),
    }
}

/// A request as a JSON document.
pub open spec fn request_json(request: RequestView) -> Json {
    Json::Dict(
        map![
            "remote_id"@ => number_json(request.remote_id),
            "message"@ => request_body_json(request.message),
        ],
    )
}

/// A response as a JSON document.
pub open spec fn response_json(response: ResponseView) -> Json {
    Json::Dict(
        map![
            "remote_id"@ => number_json(response.remote_id),
            "message"@ => response_body_json(response.message),
        ],
    )
}

/// The bytes of a request on the wire: its document, then a line feed.
pub open spec fn request_wire(request: RequestView) -> Seq<u8> {
    json_bytes(request_json(request)).push(LINE_FEED)
}

/// The bytes of a response on the wire: its document, then a line feed.
pub open spec fn response_wire(response: ResponseView) -> Seq<u8> {
    json_bytes(response_json(response)).push(LINE_FEED)
}

fn number_value(n: usize) -> (value: serde_json::Value)
    ensures
        json_of(value) == number_json(n),
{
    unsigned_value(n as u64)
}

fn texts_value(items: &Vec<String>) -> (value: serde_json::Value)
    ensures
        json_of(value) == texts_json(items.deep_view()),
{
    let mut values: Vec<serde_json::Value> = Vec::new();
    let mut i: usize = 0;
    while i < items.len()
        invariant
            i <= items.len(),
            values@.len() == i,
            forall|k: int| 0 <= k < i ==> json_of(#[trigger] values@[k]) == Json::Text(items@[k]@),
        decreases items.len() - i,
    {
        values.push(text_value(items[i].as_str()));
        i = i + 1;
    }
    assert(jsons_of(values@) =~= items.deep_view().map_values(|text: Seq<char>| Json::Text(text)));
    list_value(values)
}

fn bytes_value(data: &Vec<u8>) -> (value: serde_json::Value)
    ensures
        json_of(value) == bytes_json(data@),
{
    let mut values: Vec<serde_json::Value> = Vec::new();
    let mut i: usize = 0;
    while i < data.len()
        invariant
            i <= data.len(),
            values@.len() == i,
            forall|k: int| 0 <= k < i ==> json_of(#[trigger] values@[k]) == Json::Int(data@[k] as int),
        decreases data.len() - i,
    {
        values.push(unsigned_value(data[i] as u64));
        i = i + 1;
    }
    assert(jsons_of(values@) =~= data@.map_values(|byte: u8| Json::Int(byte as int)));
    list_value(values)
}

fn variant_value(tag: &str, content: serde_json::Value) -> (value: serde_json::Value)
    ensures
        json_of(value) == variant_json(tag@, json_of(content)),
{
    let mut object = empty_object();
    object_insert(&mut object, tag, content);
    object_value(object)
}

fn command_value(command: &Command) -> (value: serde_json::Value)
    ensures
        json_of(value) == command_json(command@),
{
    match command {
        Command::Unknown(name, args) => {
            let mut parts: Vec<serde_json::Value> = Vec::new();
            parts.push(text_value(name.as_str()));
            parts.push(texts_value(args));
            assert(jsons_of(parts@) =~= seq![Json::Text(name@), texts_json(args.deep_view())]);
            variant_value("Unknown", list_value(parts))
        },
        Command::SetDirectory(path) => variant_value("SetDirectory", text_value(path.as_str())),
        Command::Edit(path) => variant_value("Edit", text_value(path.as_str())),
    }
}

fn condition_value(condition: &Condition) -> (value: serde_json::Value)
    ensures
        json_of(value) == condition_json(*condition),
{
    match condition {
        None => null_value(),
        Some(ExitStatus::Success) => text_value("Success"),
        Some(ExitStatus::Failure) => text_value("Failure"),
    }
}

/// Adding one process to a gate map adds one member to what it is on the
/// wire: the one named by the process's numeral.
proof fn lemma_gates_members_insert(block_for: Map<usize, Condition>, process: usize, condition: Condition)
    ensures
        gates_members(block_for.insert(process, condition)) == gates_members(block_for).insert(
            decimal(process as nat),
            condition_json(condition),
        ),
{
    let grown = block_for.insert(process, condition);
    lemma_numeral_of_decimal(process as nat);
    assert forall|name: Seq<char>| #[trigger] gate_named(grown, name) == (if name == decimal(
        process as nat,
    ) {
        Some(condition)
    } else {
        gate_named(block_for, name)
    }) by {
        if numeral_value(name) is Some {
            lemma_decimal_of_numeral(name);
        }
    }
    assert(gates_members(grown) =~= gates_members(block_for).insert(
        decimal(process as nat),
        condition_json(condition),
    ));
}

fn gates_value(block_for: &HashMap<usize, Condition>) -> (value: serde_json::Value)
    ensures
        json_of(value) == gates_json(block_for@),
{
    broadcast use vstd::std_specs::hash::group_hash_axioms;

    let keys: Vec<usize> = gate_keys(block_for);
    let mut object = empty_object();
    let ghost mut done: Map<usize, Condition> = Map::empty();
    assert(gates_members(done) =~= members_of(object));
    let mut i: usize = 0;
    while i < keys.len()
        invariant
            i <= keys.len(),
            keys@.to_set() == block_for@.dom(),
            members_of(object) == gates_members(done),
            done.dom() == keys@.subrange(0, i as int).to_set(),
            forall|process: usize| #[trigger]
                done.contains_key(process) ==> done[process] == block_for@[process],
        decreases keys.len() - i,
    {
        let process: usize = keys[i];
        assert(keys@.to_set().contains(process));
        let condition: Option<&Condition> = block_for.get(&process);
        match condition {
            Some(condition) => {
                let name: String = decimal_text(process);
                object_insert(&mut object, name.as_str(), condition_value(condition));
                proof {
                    lemma_gates_members_insert(done, process, *condition);
                    assert(keys@.subrange(0, i + 1) =~= keys@.subrange(0, i as int).push(process));
                    keys@.subrange(0, i as int).lemma_push_to_set_commute(process);
                    done = done.insert(process, *condition);
                    assert(done.dom() =~= keys@.subrange(0, i + 1).to_set());
                }
            },
            None => {
                assert(false);
            },
        }
        i = i + 1;
    }
    assert(keys@.subrange(0, i as int) =~= keys@);
    assert(done =~= block_for@);
    object_value(object)
}

fn wiring_value(process: &AbstractProcess) -> (value: serde_json::Value)
    ensures
        json_of(value) == wiring_json(process@),
{
    let mut object = empty_object();
    object_insert(&mut object, "id", number_value(process.id.number()));
    object_insert(&mut object, "stdin", number_value(process.stdin));
    object_insert(&mut object, "stdout", number_value(process.stdout));
    object_insert(&mut object, "stderr", number_value(process.stderr));
    object_value(object)
}

/// An object of one identifier and one further member.
fn id_and_value(id: usize, name: &str, member: serde_json::Value) -> (value: serde_json::Value)
    ensures
        json_of(value) == Json::Dict(map!["id"@ => number_json(id), name@ => json_of(member)]),
{
    let mut object = empty_object();
    object_insert(&mut object, "id", number_value(id));
    object_insert(&mut object, name, member);
    object_value(object)
}

/// An object of one identifier.
fn id_value(id: usize) -> (value: serde_json::Value)
    ensures
        json_of(value) == Json::Dict(map!["id"@ => number_json(id)]),
{
    let mut object = empty_object();
    object_insert(&mut object, "id", number_value(id));
    object_value(object)
}

fn request_body_value(message: &RemoteRequest) -> (value: serde_json::Value)
    ensures
        json_of(value) == request_body_json(message@),
{
    match message {
        RemoteRequest::BeginCommand { block_for, process, command } => {
            let mut object = empty_object();
            object_insert(&mut object, "block_for", gates_value(block_for));
            object_insert(&mut object, "process", wiring_value(process));
            object_insert(&mut object, "command", command_value(command));
            variant_value("BeginCommand", object_value(object))
        },
        RemoteRequest::CancelCommand { id } => variant_value("CancelCommand", id_value(id.number())),
        RemoteRequest::BeginRemote { id, command } => variant_value(
            "BeginRemote",
            id_and_value(*id, "command", command_value(command)),
        ),
        RemoteRequest::OpenFile { id, path } => variant_value(
            "OpenFile",
            id_and_value(*id, "path", text_value(path.as_str())),
        ),
        RemoteRequest::EndRemote { id } => variant_value("EndRemote", id_value(*id)),
        RemoteRequest::ListDirectory { id, path } => variant_value(
            "ListDirectory",
            id_and_value(*id, "path", text_value(path.as_str())),
        ),
        RemoteRequest::FinishEdit { id, data } => variant_value(
            "FinishEdit",
            id_and_value(*id, "data", bytes_value(data)),
        ),
        RemoteRequest::PipeData { id, data } => variant_value(
            "PipeData",
            id_and_value(*id, "data", bytes_value(data)),
        ),
        RemoteRequest::PipeRead { id, count_bytes } => variant_value(
            "PipeRead",
            id_and_value(*id, "count_bytes", number_value(*count_bytes)),
        ),
    }
}

fn response_body_value(message: &RemoteResponse) -> (value: serde_json::Value)
    ensures
        json_of(value) == response_body_json(message@),
{
    match message {
        RemoteResponse::CommandDone { id, exit_code } => variant_value(
            "CommandDone",
            id_and_value(id.number(), "exit_code", signed_value(*exit_code)),
        ),
        RemoteResponse::DirectoryListing { id, items } => variant_value(
            "DirectoryListing",
            id_and_value(*id, "items", texts_value(items)),
        ),
        RemoteResponse::EditRequest { command_id, edit_id, name, data } => {
            let mut object = empty_object();
            object_insert(&mut object, "command_id", number_value(command_id.number()));
            object_insert(&mut object, "edit_id", number_value(*edit_id));
            object_insert(&mut object, "name", text_value(name.as_str()));
            object_insert(&mut object, "data", bytes_value(data));
            variant_value("EditRequest", object_value(object))
        },
        RemoteResponse::PipeData { id, data } => variant_value(
            "PipeData",
            id_and_value(*id, "data", bytes_value(data)),
        ),
        RemoteResponse::PipeRead { id, count_bytes } => variant_value(
            "PipeRead",
            id_and_value(*id, "count_bytes", number_value(*count_bytes)),
        ),
    }
}

impl Request {
    /// The request as a JSON value.
    pub fn to_value(&self) -> (value: serde_json::Value)
        ensures
            json_of(value) == request_json(self@),
    {
        let mut object = empty_object();
        object_insert(&mut object, "remote_id", number_value(self.remote_id));
        object_insert(&mut object, "message", request_body_value(&self.message.0));
        object_value(object)
    }

    /// The request as it travels: its JSON document and a line feed.
    pub fn encode(&self) -> (bytes: Vec<u8>)
        ensures
            bytes@ == request_wire(self@),
    {
        let value = self.to_value();
        let mut bytes: Vec<u8> = value_bytes(&value);
        bytes.push(LINE_FEED);
        bytes
    }
}

impl Response {
    /// The response as a JSON value.
    pub fn to_value(&self) -> (value: serde_json::Value)
        ensures
            json_of(value) == response_json(self@),
    {
        let mut object = empty_object();
        object_insert(&mut object, "remote_id", number_value(self.remote_id));
        object_insert(&mut object, "message", response_body_value(&self.message.0));
        object_value(object)
    }

    /// The response as it travels: its JSON document and a line feed.
    pub fn encode(&self) -> (bytes: Vec<u8>)
        ensures
            bytes@ == response_wire(self@),
    {
        let value = self.to_value();
        let mut bytes: Vec<u8> = value_bytes(&value);
        bytes.push(LINE_FEED);
        bytes
    }
}

/// The bytes of the request that asks `remote` for `message`.
pub(crate) fn ser_to_endpoint(remote: RemoteId, message: RemoteRequest) -> (bytes: Vec<u8>)
    ensures
        bytes@ == request_wire(RequestView { remote_id: remote@, message: message@ }),
{
    Request::new(remote.number(), message).encode()
}

/// The bytes of the response that reports `message` to `remote`.
pub(crate) fn ser_to_frontend(remote: RemoteId, message: RemoteResponse) -> (bytes: Vec<u8>)
    ensures
        bytes@ == response_wire(ResponseView { remote_id: remote@, message: message@ }),
{
    Response::new(remote.number(), message).encode()
}

} // verus!
