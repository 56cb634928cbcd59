use protocol::{Backend, Outbox, Response, Transport};

#[test]
fn outbox_keeps_what_it_is_given() {
    let mut outbox = Outbox::new();
    assert!(outbox.messages.is_empty());
    outbox.send(b"one").unwrap();
    outbox.send(b"").unwrap();
    outbox.send(b"three").unwrap();
    assert_eq!(outbox.messages, vec![b"one".to_vec(), Vec::new(), b"three".to_vec()]);
}

#[test]
fn backend_writes_into_an_outbox() {
    let mut backend = Backend::new(Outbox::new());
    backend.directory_listing(2, vec!["x".to_string()]).unwrap();
    assert_eq!(backend.trans.messages.len(), 1);
    let response = Response::decode(&backend.trans.messages[0]).unwrap();
    assert_eq!(response.remote_id, 0);
    assert_eq!(
        String::from_utf8(response.encode()).unwrap(),
        "{\"message\":{\"DirectoryListing\":{\"id\":2,\"items\":[\"x\"]}},\"remote_id\":0}\n"
    );
}
