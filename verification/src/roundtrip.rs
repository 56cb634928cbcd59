//! Writing and reading are inverse: whatever message is written as a JSON
//! document, reading that document gives the message back.
//!
//! These are the documents that `to_value` builds and `from_value` reads. The
//! step between a document and its text is `serde_json`'s, in both
//! directions, and nothing is stated of it here.

use crate::command::{CommandView, Condition, Wiring};
use crate::decimal::{lemma_numeral_of_decimal, numeral_value};
use crate::decode::{
    all_gates,
    bytes_of,
    command_of,
    condition_of,
    gates_of,
    request_body_of,
    request_of,
    response_body_of,
    response_of,
    texts_of,
    variant_of,
    wiring_of,
};
use crate::json::Json;
use crate::message::{RequestBody, RequestView, ResponseBody, ResponseView};
use crate::wire::{
    bytes_json,
    command_json,
    condition_json,
    gate_named,
    gates_json,
    gates_members,
    number_json,
    request_body_json,
    request_json,
    response_body_json,
    response_json,
    texts_json,
    variant_json,
    wiring_json,
};
use vstd::prelude::*;

verus! {

/// The names of the variants of a command differ from one another.
proof fn lemma_command_tags()
    ensures
        "Unknown"@.len() == 7,
        "SetDirectory"@.len() == 12,
        "Edit"@.len() == 4,
{
    reveal_strlit("Unknown");
    reveal_strlit("SetDirectory");
    reveal_strlit("Edit");
}

/// The names of the members of a message differ wherever two of them stand
/// in one object.
proof fn lemma_member_names()
    ensures
        "id"@.len() == 2,
        "stdin"@.len() == 5,
        "stdout"@.len() == 6,
        "stderr"@.len() == 6,
        "stdout"@[3] == 'o',
        "stderr"@[3] == 'e',
        "command"@.len() == 7,
        "process"@.len() == 7,
        "command"@[0] == 'c',
        "process"@[0] == 'p',
        "block_for"@.len() == 9,
        "path"@.len() == 4,
        "data"@.len() == 4,
        "name"@.len() == 4,
        "data"@[0] == 'd',
        "name"@[0] == 'n',
        "count_bytes"@.len() == 11,
        "exit_code"@.len() == 9,
        "items"@.len() == 5,
        "command_id"@.len() == 10,
        "edit_id"@.len() == 7,
        "remote_id"@.len() == 9,
        "message"@.len() == 7,
{
    reveal_strlit("id");
    reveal_strlit("stdin");
    reveal_strlit("stdout");
    reveal_strlit("stderr");
    reveal_strlit("command");
    reveal_strlit("process");
    reveal_strlit("block_for");
    reveal_strlit("path");
    reveal_strlit("data");
    reveal_strlit("name");
    reveal_strlit("count_bytes");
    reveal_strlit("exit_code");
    reveal_strlit("items");
    reveal_strlit("command_id");
    reveal_strlit("edit_id");
    reveal_strlit("remote_id");
    reveal_strlit("message");
}

/// The names of the variants of a request differ from one another.
proof fn lemma_request_tags()
    ensures
        "BeginCommand"@.len() == 12,
        "CancelCommand"@.len() == 13,
        "BeginRemote"@.len() == 11,
        "OpenFile"@.len() == 8,
        "EndRemote"@.len() == 9,
        "ListDirectory"@.len() == 13,
        "FinishEdit"@.len() == 10,
        "PipeData"@.len() == 8,
        "PipeRead"@.len() == 8,
        "CancelCommand"@[0] == 'C',
        "ListDirectory"@[0] == 'L',
        "OpenFile"@[0] == 'O',
        "PipeData"@[0] == 'P',
        "PipeRead"@[0] == 'P',
        "PipeData"@[4] == 'D',
        "PipeRead"@[4] == 'R',
{
    reveal_strlit("BeginCommand");
    reveal_strlit("CancelCommand");
    reveal_strlit("BeginRemote");
    reveal_strlit("OpenFile");
    reveal_strlit("EndRemote");
    reveal_strlit("ListDirectory");
    reveal_strlit("FinishEdit");
    reveal_strlit("PipeData");
    reveal_strlit("PipeRead");
}

/// The names of the variants of a response differ from one another.
proof fn lemma_response_tags()
    ensures
        "CommandDone"@.len() == 11,
        "DirectoryListing"@.len() == 16,
        "EditRequest"@.len() == 11,
        "PipeData"@.len() == 8,
        "PipeRead"@.len() == 8,
        "CommandDone"@[0] == 'C',
        "EditRequest"@[0] == 'E',
        "PipeData"@[4] == 'D',
        "PipeRead"@[4] == 'R',
{
    reveal_strlit("CommandDone");
    reveal_strlit("DirectoryListing");
    reveal_strlit("EditRequest");
    reveal_strlit("PipeData");
    reveal_strlit("PipeRead");
}

/// The two words for an exit status differ.
proof fn lemma_status_words()
    ensures
        "Success"@[0] == 'S',
        "Failure"@[0] == 'F',
{
    reveal_strlit("Success");
    reveal_strlit("Failure");
}

/// A list of texts that is written and read comes back as it was.
pub proof fn lemma_texts_round_trip(items: Seq<Seq<char>>)
    ensures
        texts_of(texts_json(items)) == Some(items),
{
    let written = items.map_values(|text: Seq<char>| Json::Text(text));
    assert(texts_of(texts_json(items))->Some_0 =~= items);
}

/// A byte string that is written and read comes back as it was.
pub proof fn lemma_bytes_round_trip(data: Seq<u8>)
    ensures
        bytes_of(bytes_json(data)) == Some(data),
{
    let written = data.map_values(|byte: u8| Json::Int(byte as int));
    assert(bytes_of(bytes_json(data))->Some_0 =~= data);
}

/// A variant that is written and read comes back under its own name.
pub proof fn lemma_variant_round_trip(tag: Seq<char>, content: Json)
    ensures
        variant_of(variant_json(tag, content)) == Some((tag, content)),
{
    let members = map![tag => content];
    assert(members.dom() =~= set![tag]);
    let chosen = choose|t: Seq<char>| members.dom() == set![t];
    assert(set![chosen].contains(tag));
}

/// A command that is written and read comes back as it was.
pub proof fn lemma_command_round_trip(command: CommandView)
    ensures
        command_of(command_json(command)) == Some(command),
{
    lemma_command_tags();
    match command {
        CommandView::Unknown(name, args) => {
            lemma_texts_round_trip(args);
            lemma_variant_round_trip(
                "Unknown"@,
                Json::List(seq![Json::Text(name), texts_json(args)]),
            );
        },
        CommandView::SetDirectory(path) => {
            lemma_variant_round_trip("SetDirectory"@, Json::Text(path));
        },
        CommandView::Edit(path) => {
            lemma_variant_round_trip("Edit"@, Json::Text(path));
        },
    }
}

/// A condition that is written and read comes back as it was.
pub proof fn lemma_condition_round_trip(condition: Condition)
    ensures
        condition_of(condition_json(condition)) == Some(condition),
{
    lemma_status_words();
}

/// A gate map that is written and read comes back as it was.
pub proof fn lemma_gates_round_trip(block_for: Map<usize, Condition>)
    ensures
        gates_of(gates_json(block_for)) == Some(block_for),
{
    let members = gates_members(block_for);
    assert forall|name: Seq<char>| #[trigger] members.contains_key(name) implies {
        &&& numeral_value(name) is Some
        &&& numeral_value(name)->Some_0 <= usize::MAX
        &&& condition_of(members[name]) is Some
    } by {
        lemma_condition_round_trip(gate_named(block_for, name)->Some_0);
    }
    assert(all_gates(members));
    let read = gates_of(gates_json(block_for))->Some_0;
    assert forall|process: usize| read.contains_key(process) <==> block_for.contains_key(
        process,
    ) by {
        lemma_numeral_of_decimal(process as nat);
    }
    assert forall|process: usize| read.contains_key(process) implies read[process]
        == block_for[process] by {
        lemma_numeral_of_decimal(process as nat);
        lemma_condition_round_trip(block_for[process]);
    }
    assert(read =~= block_for);
}

/// A wiring that is written and read comes back as it was.
pub proof fn lemma_wiring_round_trip(wiring: Wiring)
    ensures
        wiring_of(wiring_json(wiring)) == Some(wiring),
{
    lemma_member_names();
}

/// What a request asks for, written and read, comes back as it was.
pub proof fn lemma_request_body_round_trip(body: RequestBody)
    ensures
        request_body_of(request_body_json(body)) == Some(body),
{
    lemma_request_tags();
    lemma_member_names();
    match body {
        RequestBody::BeginCommand { block_for, process, command } => {
            lemma_gates_round_trip(block_for);
            lemma_wiring_round_trip(process);
            lemma_command_round_trip(command);
            lemma_variant_round_trip(
                "BeginCommand"@,
                Json::Dict(
                    map![
                        "block_for"@ => gates_json(block_for),
                        "process"@ => wiring_json(process),
                        "command"@ => command_json(command),
                    ],
                ),
            );
        },
        RequestBody::CancelCommand { id } => {
            lemma_variant_round_trip(
                "CancelCommand"@,
                Json::Dict(map!["id"@ => number_json(id)]),
            );
        },
        RequestBody::BeginRemote { id, command } => {
            lemma_command_round_trip(command);
            lemma_variant_round_trip(
                "BeginRemote"@,
                Json::Dict(
                    map![
                        "id"@ => number_json(id),
                        "command"@ => command_json(command),
                    ],
                ),
            );
        },
        RequestBody::OpenFile { id, path } => {
            lemma_variant_round_trip(
                "OpenFile"@,
                Json::Dict(map!["id"@ => number_json(id), "path"@ => Json::Text(path)]),
            );
        },
        RequestBody::EndRemote { id } => {
            lemma_variant_round_trip(
                "EndRemote"@,
                Json::Dict(map!["id"@ => number_json(id)]),
            );
        },
        RequestBody::ListDirectory { id, path } => {
            lemma_variant_round_trip(
                "ListDirectory"@,
                Json::Dict(map!["id"@ => number_json(id), "path"@ => Json::Text(path)]),
            );
        },
        RequestBody::FinishEdit { id, data } => {
            lemma_bytes_round_trip(data);
            lemma_variant_round_trip(
                "FinishEdit"@,
                Json::Dict(map!["id"@ => number_json(id), "data"@ => bytes_json(data)]),
            );
        },
        RequestBody::PipeData { id, data } => {
            lemma_bytes_round_trip(data);
            lemma_variant_round_trip(
                "PipeData"@,
                Json::Dict(map!["id"@ => number_json(id), "data"@ => bytes_json(data)]),
            );
        },
        RequestBody::PipeRead { id, count_bytes } => {
            lemma_variant_round_trip(
                "PipeRead"@,
                Json::Dict(
                    map![
                        "id"@ => number_json(id),
                        "count_bytes"@ => number_json(count_bytes),
                    ],
                ),
            );
        },
    }
}

/// What a response reports, written and read, comes back as it was.
pub proof fn lemma_response_body_round_trip(body: ResponseBody)
    ensures
        response_body_of(response_body_json(body)) == Some(body),
{
    lemma_response_tags();
    lemma_member_names();
    match body {
        ResponseBody::CommandDone { id, exit_code } => {
            lemma_variant_round_trip(
                "CommandDone"@,
                Json::Dict(
                    map![
                        "id"@ => number_json(id),
                        "exit_code"@ => Json::Int(exit_code as int),
                    ],
                ),
            );
        },
        ResponseBody::DirectoryListing { id, items } => {
            lemma_texts_round_trip(items);
            lemma_variant_round_trip(
                "DirectoryListing"@,
                Json::Dict(map!["id"@ => number_json(id), "items"@ => texts_json(items)]),
            );
        },
        ResponseBody::EditRequest { command_id, edit_id, name, data } => {
            lemma_bytes_round_trip(data);
            lemma_variant_round_trip(
                "EditRequest"@,
                Json::Dict(
                    map![
                        "command_id"@ => number_json(command_id),
                        "edit_id"@ => number_json(edit_id),
                        "name"@ => Json::Text(name),
                        "data"@ => bytes_json(data),
                    ],
                ),
            );
        },
        ResponseBody::PipeData { id, data } => {
            lemma_bytes_round_trip(data);
            lemma_variant_round_trip(
                "PipeData"@,
                Json::Dict(map!["id"@ => number_json(id), "data"@ => bytes_json(data)]),
            );
        },
        ResponseBody::PipeRead { id, count_bytes } => {
            lemma_variant_round_trip(
                "PipeRead"@,
                Json::Dict(
                    map![
                        "id"@ => number_json(id),
                        "count_bytes"@ => number_json(count_bytes),
                    ],
                ),
            );
        },
    }
}

/// Every request, written as a document and read from it, comes back as it
/// was.
pub proof fn lemma_request_round_trip(request: RequestView)
    ensures
        request_of(request_json(request)) == Some(request),
{
    lemma_member_names();
    lemma_request_body_round_trip(request.message);
}

/// Every response, written as a document and read from it, comes back as it
/// was.
pub proof fn lemma_response_round_trip(response: ResponseView)
    ensures
        response_of(response_json(response)) == Some(response),
{
    lemma_member_names();
    lemma_response_body_round_trip(response.message);
}

} // verus!
