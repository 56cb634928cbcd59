use protocol::{
    BackendHandler, Command, Condition, Endpoint, EndpointHandler, ExitStatus, ProcessId,
    ReadPipe, Request, Response, Transport, WritePipe, WriteProcess,
};
use std::collections::HashMap;

struct Recorder {
    sent: Vec<Vec<u8>>,
    fail: bool,
}

impl Recorder {
    fn new() -> Recorder {
        Recorder { sent: Vec::new(), fail: false }
    }
}

impl Transport for Recorder {
    fn send(&mut self, msg: &[u8]) -> Result<(), failure::Error> {
        self.sent.push(msg.to_vec());
        if self.fail {
            Err(failure::err_msg("link down"))
        } else {
            Ok(())
        }
    }
}

struct Notes {
    events: Vec<String>,
    reply: Option<Vec<u8>>,
}

impl Notes {
    fn new() -> Notes {
        Notes { events: Vec::new(), reply: None }
    }
}

impl EndpointHandler<Recorder> for Notes {
    fn command_done(
        endpoint: &mut Endpoint<Recorder, Notes>,
        id: ProcessId,
        exit_code: i64,
    ) -> Result<(), failure::Error> {
        endpoint.handler.events.push(format!("command_done {} {}", id.number(), exit_code));
        Ok(())
    }

    fn directory_listing(
        endpoint: &mut Endpoint<Recorder, Notes>,
        id: usize,
        items: Vec<String>,
    ) -> Result<(), failure::Error> {
        endpoint.handler.events.push(format!("directory_listing {} {:?}", id, items));
        Ok(())
    }

    fn edit_request(
        endpoint: &mut Endpoint<Recorder, Notes>,
        edit_id: usize,
        command_id: ProcessId,
        name: String,
        data: Vec<u8>,
    ) -> Result<(), failure::Error> {
        endpoint.handler.events.push(format!(
            "edit_request {} {} {} {:?}",
            edit_id,
            command_id.number(),
            name,
            data
        ));
        if let Some(reply) = endpoint.handler.reply.take() {
            endpoint.finish_edit(command_id, edit_id, reply)?;
        }
        Ok(())
    }

    fn pipe(
        endpoint: &mut Endpoint<Recorder, Notes>,
        id: ReadPipe,
        data: Vec<u8>,
    ) -> Result<(), failure::Error> {
        endpoint.handler.events.push(format!("pipe {} {:?}", id.number(), data));
        if data.is_empty() {
            return Err(failure::err_msg("end of stream"));
        }
        Ok(())
    }

    fn pipe_read(
        endpoint: &mut Endpoint<Recorder, Notes>,
        id: WritePipe,
        count_bytes: usize,
    ) -> Result<(), failure::Error> {
        endpoint.handler.events.push(format!("pipe_read {} {}", id.number(), count_bytes));
        Ok(())
    }
}

struct Seen {
    processes: Vec<WriteProcess>,
    cancelled: Vec<ProcessId>,
}

impl Seen {
    fn new() -> Seen {
        Seen { processes: Vec::new(), cancelled: Vec::new() }
    }
}

impl BackendHandler for Seen {
    fn begin_command(
        &mut self,
        _block_for: HashMap<usize, Condition>,
        process: WriteProcess,
        _command: Command,
    ) -> Result<(), failure::Error> {
        self.processes.push(process);
        Ok(())
    }

    fn cancel_command(&mut self, id: ProcessId) -> Result<(), failure::Error> {
        self.cancelled.push(id);
        Ok(())
    }

    fn begin_remote(&mut self, _id: usize, _command: Command) -> Result<(), failure::Error> {
        Ok(())
    }

    fn open_file(&mut self, _id: WritePipe, _path: String) -> Result<(), failure::Error> {
        Ok(())
    }

    fn end_remote(&mut self, _id: usize) -> Result<(), failure::Error> {
        Ok(())
    }

    fn list_directory(&mut self, _id: usize, _path: String) -> Result<(), failure::Error> {
        Ok(())
    }

    fn finish_edit(&mut self, _id: usize, _data: Vec<u8>) -> Result<(), failure::Error> {
        Ok(())
    }

    fn pipe_data(&mut self, _id: usize, _data: Vec<u8>) -> Result<(), failure::Error> {
        Ok(())
    }

    fn pipe_read(&mut self, _id: usize, _count_bytes: usize) -> Result<(), failure::Error> {
        Ok(())
    }
}

fn fresh() -> Endpoint<Recorder, Notes> {
    Endpoint::new(Recorder::new(), Notes::new())
}

fn text(bytes: &[u8]) -> String {
    String::from_utf8(bytes.to_vec()).unwrap()
}

fn ls() -> Command {
    Command::Unknown("ls".to_string(), Vec::new())
}

fn process_of(bytes: &[u8]) -> WriteProcess {
    let mut seen = Seen::new();
    Request::decode(bytes).unwrap().route(&mut seen).unwrap();
    assert_eq!(seen.processes.len(), 1);
    seen.processes[0]
}

#[test]
fn new_endpoint_has_only_the_root() {
    let endpoint = fresh();
    let root = endpoint.root();
    assert_eq!(root.number(), 0);
    assert!(endpoint.is_remote(root));
    assert_eq!(endpoint.parent(root), None);
    assert_eq!(endpoint.ids_left(), usize::MAX - 1);
    assert!(!endpoint.is_open(0));
    assert!(!endpoint.is_open(1));
    assert!(endpoint.trans.sent.is_empty());
}

#[test]
fn scenario_simple_command() {
    let mut endpoint = fresh();
    let root = endpoint.root();
    let process = endpoint.command(root, ls(), HashMap::new(), None).unwrap();
    assert_eq!(endpoint.trans.sent.len(), 1);
    assert_eq!(
        text(&endpoint.trans.sent[0]),
        "{\"message\":{\"BeginCommand\":{\"block_for\":{},\"command\":{\"Unknown\":[\"ls\",[]]},\"process\":{\"id\":1,\"stderr\":4,\"stdin\":2,\"stdout\":3}}},\"remote_id\":0}\n"
    );
    assert_eq!(Request::decode(&endpoint.trans.sent[0]).unwrap().remote_id, 0);
    assert_eq!(process.id.number(), 1);
    assert_eq!(process.stdin.number(), 2);
    assert_eq!(process.stdout.number(), 3);
    assert_eq!(process.stderr.number(), 4);
    assert_ne!(process.stdin.number(), process.stdout.number());
    assert_ne!(process.stdin.number(), process.stderr.number());
    assert_ne!(process.stdout.number(), process.stderr.number());
    assert!(endpoint.is_open(3));
    assert!(endpoint.is_open(4));
    assert!(!endpoint.is_open(2));
    assert_eq!(endpoint.owner(process.id), Some(root));
}

#[test]
fn scenario_nested_remote_and_command() {
    let mut endpoint = fresh();
    let root = endpoint.root();
    let remote = endpoint
        .remote(root, Command::Unknown("ssh host".to_string(), Vec::new()))
        .unwrap();
    assert_eq!(remote.number(), 1);
    assert_eq!(
        text(&endpoint.trans.sent[0]),
        "{\"message\":{\"BeginRemote\":{\"command\":{\"Unknown\":[\"ssh host\",[]]},\"id\":1}},\"remote_id\":0}\n"
    );
    assert!(endpoint.is_remote(remote));
    assert_eq!(endpoint.parent(remote), Some(root));
    let process = endpoint.command(remote, ls(), HashMap::new(), None).unwrap();
    assert_eq!(endpoint.trans.sent.len(), 2);
    let request = Request::decode(&endpoint.trans.sent[1]).unwrap();
    assert_eq!(request.remote_id, 1);
    assert_ne!(request.remote_id, 0);
    assert_eq!(
        text(&endpoint.trans.sent[1]),
        "{\"message\":{\"BeginCommand\":{\"block_for\":{},\"command\":{\"Unknown\":[\"ls\",[]]},\"process\":{\"id\":2,\"stderr\":5,\"stdin\":3,\"stdout\":4}}},\"remote_id\":1}\n"
    );
    assert_eq!(endpoint.owner(process.id), Some(remote));
}

#[test]
fn scenario_redirect_to_file() {
    let mut endpoint = fresh();
    let root = endpoint.root();
    let handle = endpoint.open_file(root, "/tmp/out".to_string()).unwrap();
    assert_eq!(handle.number(), 1);
    assert_eq!(
        text(&endpoint.trans.sent[0]),
        "{\"message\":{\"OpenFile\":{\"id\":1,\"path\":\"/tmp/out\"}},\"remote_id\":0}\n"
    );
    assert!(endpoint.is_open(handle.number()));
    let process = endpoint.command(root, ls(), HashMap::new(), Some(handle)).unwrap();
    assert_eq!(process.stdout.number(), handle.number());
    let running = process_of(&endpoint.trans.sent[1]);
    assert_eq!(running.stdout.number(), handle.number());
    assert_eq!(
        text(&endpoint.trans.sent[1]),
        "{\"message\":{\"BeginCommand\":{\"block_for\":{},\"command\":{\"Unknown\":[\"ls\",[]]},\"process\":{\"id\":2,\"stderr\":4,\"stdin\":3,\"stdout\":1}}},\"remote_id\":0}\n"
    );
    assert!(!endpoint.is_open(handle.number()));
    assert!(endpoint.is_open(4));
}

#[test]
fn consumed_handle_is_never_issued_again() {
    let mut endpoint = fresh();
    let root = endpoint.root();
    let handle = endpoint.open_file(root, "/tmp/out".to_string()).unwrap();
    endpoint.command(root, ls(), HashMap::new(), Some(handle)).unwrap();
    for _ in 0..20 {
        let process = endpoint.command(root, ls(), HashMap::new(), None).unwrap();
        assert_ne!(process.id.number(), handle.number());
        assert_ne!(process.stdin.number(), handle.number());
        assert_ne!(process.stdout.number(), handle.number());
        assert_ne!(process.stderr.number(), handle.number());
        let file = endpoint.open_file(root, "/tmp/other".to_string()).unwrap();
        assert_ne!(file.number(), handle.number());
        let remote = endpoint.remote(root, ls()).unwrap();
        assert_ne!(remote.number(), handle.number());
        assert!(!endpoint.is_open(handle.number()));
    }
}

#[test]
fn scenario_edit_round_trip() {
    let mut endpoint = fresh();
    let root = endpoint.root();
    let remote = endpoint.remote(root, ls()).unwrap();
    for _ in 0..3 {
        endpoint.open_file(remote, "/tmp/scratch".to_string()).unwrap();
    }
    let process = endpoint
        .command(remote, Command::Edit("file.txt".to_string()), HashMap::new(), None)
        .unwrap();
    assert_eq!(process.id.number(), 5);
    let running = process_of(&endpoint.trans.sent[4]);

    let mut backend = protocol::Backend::new(Recorder::new());
    backend.edit_request(running.id, 9, "file.txt".to_string(), b"old".to_vec()).unwrap();
    assert_eq!(backend.trans.sent.len(), 1);
    assert_eq!(
        text(&backend.trans.sent[0]),
        "{\"message\":{\"EditRequest\":{\"command_id\":5,\"data\":[111,108,100],\"edit_id\":9,\"name\":\"file.txt\"}},\"remote_id\":0}\n"
    );

    let response = Response::decode(&backend.trans.sent[0]).unwrap();
    assert!(endpoint.accepts(&response));
    endpoint.handler.reply = Some(b"new".to_vec());
    endpoint.receive(response).unwrap();
    assert_eq!(endpoint.handler.events, vec!["edit_request 9 5 file.txt [111, 108, 100]".to_string()]);
    assert_eq!(endpoint.trans.sent.len(), 6);
    assert_eq!(
        text(&endpoint.trans.sent[5]),
        "{\"message\":{\"FinishEdit\":{\"data\":[110,101,119],\"id\":9}},\"remote_id\":1}\n"
    );
    assert_eq!(endpoint.owner(process.id), Some(remote));
}

#[test]
fn finish_edit_goes_to_the_owning_remote() {
    let mut endpoint = fresh();
    let root = endpoint.root();
    let first = endpoint.remote(root, ls()).unwrap();
    let second = endpoint.remote(first, ls()).unwrap();
    let process = endpoint.command(second, ls(), HashMap::new(), None).unwrap();
    endpoint.finish_edit(process.id, 77, Vec::new()).unwrap();
    assert_eq!(
        text(&endpoint.trans.sent[3]),
        "{\"message\":{\"FinishEdit\":{\"data\":[],\"id\":77}},\"remote_id\":2}\n"
    );
    assert_eq!(endpoint.owner(process.id), Some(second));
    assert_eq!(endpoint.ids_left(), usize::MAX - 7);
}

#[test]
fn pipes_have_one_number_on_both_sides() {
    let mut endpoint = fresh();
    let root = endpoint.root();
    let started = endpoint.command(root, ls(), HashMap::new(), None).unwrap();
    let running = process_of(&endpoint.trans.sent[0]);
    assert_eq!(started.id, running.id);
    assert_eq!(started.stdin.number(), running.stdin.number());
    assert_eq!(started.stdout.number(), running.stdout.number());
    assert_eq!(started.stderr.number(), running.stderr.number());
    let written: WritePipe = started.stdin;
    let read: ReadPipe = running.stdin;
    assert_eq!(written.number(), read.number());
    let read: ReadPipe = started.stdout;
    let written: WritePipe = running.stdout;
    assert_eq!(written.number(), read.number());
}

#[test]
fn gates_travel_with_the_command() {
    let mut endpoint = fresh();
    let root = endpoint.root();
    let first = endpoint.command(root, ls(), HashMap::new(), None).unwrap();
    let second = endpoint.command(root, ls(), HashMap::new(), None).unwrap();
    let mut block_for: HashMap<usize, Condition> = HashMap::new();
    block_for.insert(first.id.number(), Some(ExitStatus::Success));
    block_for.insert(second.id.number(), None);
    endpoint
        .command(root, Command::SetDirectory("/srv".to_string()), block_for, None)
        .unwrap();
    assert_eq!(
        text(&endpoint.trans.sent[2]),
        "{\"message\":{\"BeginCommand\":{\"block_for\":{\"1\":\"Success\",\"5\":null},\"command\":{\"SetDirectory\":\"/srv\"},\"process\":{\"id\":9,\"stderr\":12,\"stdin\":10,\"stdout\":11}}},\"remote_id\":0}\n"
    );
}

#[test]
fn close_remote_tells_the_parent() {
    let mut endpoint = fresh();
    let root = endpoint.root();
    let outer = endpoint.remote(root, ls()).unwrap();
    let inner = endpoint.remote(outer, ls()).unwrap();
    assert_eq!(endpoint.parent(inner), Some(outer));
    endpoint.close_remote(inner).unwrap();
    assert_eq!(
        text(&endpoint.trans.sent[2]),
        "{\"message\":{\"EndRemote\":{\"id\":2}},\"remote_id\":1}\n"
    );
    assert!(!endpoint.is_remote(inner));
    assert!(endpoint.is_remote(outer));
    assert!(endpoint.is_remote(root));
    endpoint.close_remote(outer).unwrap();
    assert_eq!(
        text(&endpoint.trans.sent[3]),
        "{\"message\":{\"EndRemote\":{\"id\":1}},\"remote_id\":0}\n"
    );
    assert!(!endpoint.is_remote(outer));
    assert!(endpoint.is_remote(root));
    assert_eq!(endpoint.parent(root), None);
}

#[test]
fn closing_a_remote_leaves_its_processes_registered() {
    let mut endpoint = fresh();
    let root = endpoint.root();
    let remote = endpoint.remote(root, ls()).unwrap();
    let process = endpoint.command(remote, ls(), HashMap::new(), None).unwrap();
    endpoint.close_remote(remote).unwrap();
    assert_eq!(endpoint.owner(process.id), Some(remote));
    assert!(!endpoint.is_remote(remote));
}

#[test]
fn close_process_tells_the_owner() {
    let mut endpoint = fresh();
    let root = endpoint.root();
    let remote = endpoint.remote(root, ls()).unwrap();
    let process = endpoint.command(remote, ls(), HashMap::new(), None).unwrap();
    endpoint.close_process(process.id).unwrap();
    assert_eq!(
        text(&endpoint.trans.sent[2]),
        "{\"message\":{\"CancelCommand\":{\"id\":2}},\"remote_id\":1}\n"
    );
    assert_eq!(endpoint.owner(process.id), None);
    assert!(endpoint.is_open(process.stdout.number()));
    assert!(endpoint.is_open(process.stderr.number()));
    let mut seen = Seen::new();
    Request::decode(&endpoint.trans.sent[2]).unwrap().route(&mut seen).unwrap();
    assert_eq!(seen.cancelled, vec![process.id]);
}

#[test]
fn failed_send_is_passed_on_as_it_is() {
    let mut endpoint = fresh();
    let root = endpoint.root();
    endpoint.trans.fail = true;
    let error = endpoint.remote(root, ls()).unwrap_err();
    assert_eq!(error.to_string(), "link down");
    assert_eq!(endpoint.trans.sent.len(), 1);
    let error = endpoint.open_file(root, "/tmp/out".to_string()).unwrap_err();
    assert_eq!(error.to_string(), "link down");
    let error = endpoint.command(root, ls(), HashMap::new(), None).unwrap_err();
    assert_eq!(error.to_string(), "link down");
    assert_eq!(endpoint.trans.sent.len(), 3);
}

#[test]
fn failed_remote_spends_its_number() {
    let mut endpoint = fresh();
    let root = endpoint.root();
    endpoint.trans.fail = true;
    assert!(endpoint.remote(root, ls()).is_err());
    assert_eq!(endpoint.ids_left(), usize::MAX - 2);
    endpoint.trans.fail = false;
    let remote = endpoint.remote(root, ls()).unwrap();
    assert_eq!(remote.number(), 2);
    assert!(endpoint.is_remote(remote));
}

#[test]
fn failed_command_opens_pipes_and_registers_nothing() {
    let mut endpoint = fresh();
    let root = endpoint.root();
    let handle = endpoint.open_file(root, "/tmp/out".to_string()).unwrap();
    endpoint.trans.fail = true;
    assert!(endpoint.command(root, ls(), HashMap::new(), Some(handle)).is_err());
    let running = process_of(&endpoint.trans.sent[1]);
    assert_eq!(running.id.number(), 2);
    assert_eq!(running.stdout.number(), 1);
    assert_eq!(endpoint.owner(running.id), None);
    assert!(!endpoint.is_open(handle.number()));
    assert!(endpoint.is_open(running.stderr.number()));
    assert_eq!(endpoint.ids_left(), usize::MAX - 5);
}

#[test]
fn failed_open_file_leaves_the_pipe_open() {
    let mut endpoint = fresh();
    let root = endpoint.root();
    endpoint.trans.fail = true;
    assert!(endpoint.open_file(root, "/tmp/out".to_string()).is_err());
    assert!(endpoint.is_open(1));
    assert_eq!(endpoint.ids_left(), usize::MAX - 2);
}

#[test]
fn failed_close_still_forgets() {
    let mut endpoint = fresh();
    let root = endpoint.root();
    let remote = endpoint.remote(root, ls()).unwrap();
    let process = endpoint.command(root, ls(), HashMap::new(), None).unwrap();
    endpoint.trans.fail = true;
    assert_eq!(endpoint.close_process(process.id).unwrap_err().to_string(), "link down");
    assert_eq!(endpoint.owner(process.id), None);
    assert_eq!(endpoint.close_remote(remote).unwrap_err().to_string(), "link down");
    assert!(!endpoint.is_remote(remote));
}

#[test]
fn failed_finish_edit_changes_nothing() {
    let mut endpoint = fresh();
    let root = endpoint.root();
    let process = endpoint.command(root, ls(), HashMap::new(), None).unwrap();
    let left = endpoint.ids_left();
    endpoint.trans.fail = true;
    assert_eq!(
        endpoint.finish_edit(process.id, 1, b"x".to_vec()).unwrap_err().to_string(),
        "link down"
    );
    assert_eq!(endpoint.owner(process.id), Some(root));
    assert_eq!(endpoint.ids_left(), left);
}

#[test]
fn receive_hands_each_response_to_its_callback() {
    let mut endpoint = fresh();
    let root = endpoint.root();
    let process = endpoint.command(root, ls(), HashMap::new(), None).unwrap();
    let lines: Vec<&[u8]> = vec![
        b"{\"remote_id\":0,\"message\":{\"CommandDone\":{\"id\":1,\"exit_code\":-3}}}\n",
        b"{\"remote_id\":0,\"message\":{\"DirectoryListing\":{\"id\":8,\"items\":[\"a\",\"b c\"]}}}\n",
        b"{\"remote_id\":0,\"message\":{\"EditRequest\":{\"command_id\":1,\"edit_id\":4,\"name\":\"n\",\"data\":[1,2]}}}\n",
        b"{\"remote_id\":0,\"message\":{\"PipeData\":{\"id\":3,\"data\":[255,0]}}}\n",
        b"{\"remote_id\":0,\"message\":{\"PipeRead\":{\"id\":4,\"count_bytes\":4096}}}\n",
    ];
    for line in lines {
        let response = Response::decode(line).unwrap();
        assert!(endpoint.accepts(&response));
        endpoint.receive(response).unwrap();
    }
    assert_eq!(
        endpoint.handler.events,
        vec![
            "command_done 1 -3".to_string(),
            "directory_listing 8 [\"a\", \"b c\"]".to_string(),
            "edit_request 4 1 n [1, 2]".to_string(),
            "pipe 3 [255, 0]".to_string(),
            "pipe_read 4 4096".to_string(),
        ]
    );
    assert_eq!(process.stdout.number(), 3);
    assert_eq!(endpoint.trans.sent.len(), 1);
}

#[test]
fn receive_gives_back_what_the_callback_returned() {
    let mut endpoint = fresh();
    let root = endpoint.root();
    endpoint.command(root, ls(), HashMap::new(), None).unwrap();
    let response =
        Response::decode(b"{\"remote_id\":0,\"message\":{\"PipeData\":{\"id\":3,\"data\":[]}}}")
            .unwrap();
    let error = endpoint.receive(response).unwrap_err();
    assert_eq!(error.to_string(), "end of stream");
}

#[test]
fn responses_for_unknown_pipes_are_not_accepted() {
    let mut endpoint = fresh();
    let root = endpoint.root();
    let process = endpoint.command(root, ls(), HashMap::new(), None).unwrap();
    let unknown =
        Response::decode(b"{\"remote_id\":0,\"message\":{\"PipeData\":{\"id\":9,\"data\":[]}}}")
            .unwrap();
    assert!(!endpoint.accepts(&unknown));
    let stdin = Response::decode(
        b"{\"remote_id\":0,\"message\":{\"PipeRead\":{\"id\":2,\"count_bytes\":1}}}",
    )
    .unwrap();
    assert_eq!(process.stdin.number(), 2);
    assert!(!endpoint.accepts(&stdin));
    let done = Response::decode(
        b"{\"remote_id\":0,\"message\":{\"CommandDone\":{\"id\":9,\"exit_code\":0}}}",
    )
    .unwrap();
    assert!(endpoint.accepts(&done));
}

#[test]
fn every_remote_has_an_older_parent_and_the_root_stays() {
    let mut endpoint = fresh();
    let root = endpoint.root();
    let mut open = vec![root];
    for round in 0..30usize {
        let parent = open[(round * 7) % open.len()];
        assert!(endpoint.is_remote(parent));
        let child = endpoint.remote(parent, ls()).unwrap();
        assert_eq!(endpoint.parent(child), Some(parent));
        assert!(parent.number() < child.number());
        open.push(child);
        if round % 3 == 2 {
            let closing = open.remove(1 + (round % (open.len() - 1)));
            endpoint.close_remote(closing).unwrap();
            assert!(!endpoint.is_remote(closing));
        }
        assert!(endpoint.is_remote(root));
        assert_eq!(endpoint.parent(root), None);
        for remote in &open {
            assert!(endpoint.is_remote(*remote));
            if remote.number() != 0 {
                let parent = endpoint.parent(*remote).unwrap();
                assert!(parent.number() < remote.number());
            }
        }
    }
}

#[test]
fn numbers_are_shared_by_remotes_processes_and_pipes() {
    let mut endpoint = fresh();
    let root = endpoint.root();
    let mut seen = std::collections::HashSet::new();
    assert!(seen.insert(root.number()));
    for _ in 0..10 {
        let remote = endpoint.remote(root, ls()).unwrap();
        assert!(seen.insert(remote.number()));
        let handle = endpoint.open_file(remote, "f".to_string()).unwrap();
        assert!(seen.insert(handle.number()));
        let process = endpoint.command(remote, ls(), HashMap::new(), None).unwrap();
        assert!(seen.insert(process.id.number()));
        assert!(seen.insert(process.stdin.number()));
        assert!(seen.insert(process.stdout.number()));
        assert!(seen.insert(process.stderr.number()));
    }
    let largest = seen.iter().max().unwrap();
    assert_eq!(*largest, 60);
    assert_eq!(endpoint.ids_left(), usize::MAX - 61);
}
