use http_server::{step, Action, Event, State};

/// Serves one read against a directory held in memory, and returns what was
/// sent, if anything.
fn serve(data: &[u8], data_dir: Option<&str>, disk: &mut Vec<(Vec<u8>, Vec<u8>)>) -> Option<Vec<u8>> {
    let mut state = State::AwaitingRequest;
    let mut event = Event::Received(data.to_vec());
    for _ in 0..3 {
        let (next, action) = step(state, event, data_dir.map(|d| d.to_string()));
        state = next;
        event = match action {
            Action::Close => {
                assert_eq!(state, State::Closed);
                return None;
            }
            Action::Send(bytes) => {
                assert_eq!(state, State::Closed);
                return Some(bytes);
            }
            Action::ReadFile { path } => {
                assert_eq!(state, State::AwaitingFileRead);
                Event::FileRead(disk.iter().find(|(p, _)| *p == path).map(|(_, c)| c.clone()))
            }
            Action::WriteFile { path, content } => {
                assert_eq!(state, State::AwaitingFileWrite);
                disk.retain(|(p, _)| *p != path);
                disk.push((path, content));
                Event::FileWritten(true)
            }
        };
    }
    panic!("the connection did not end");
}

#[test]
fn get_root_is_served() {
    let mut disk = Vec::new();
    let sent = serve(b"GET / HTTP/1.1\r\nHost: localhost:4221\r\n\r\n", None, &mut disk);
    assert_eq!(sent, Some(b"HTTP/1.1 200 OK\r\nContent-Length: 0\r\n\r\n".to_vec()));
}

#[test]
fn get_echo_is_served() {
    let mut disk = Vec::new();
    let sent = serve(b"GET /echo/hello/world HTTP/1.1\r\n\r\n", None, &mut disk);
    assert_eq!(
        sent,
        Some(
            b"HTTP/1.1 200 OK\r\nContent-Type: text/plain\r\nContent-Length: 11\r\n\r\nhello/world"
                .to_vec()
        )
    );
}

#[test]
fn get_user_agent_is_served() {
    let mut disk = Vec::new();
    let sent = serve(
        b"GET /user-agent HTTP/1.1\r\nHost: localhost\r\nUser-Agent: curl/8.0\r\n\r\n",
        None,
        &mut disk,
    );
    assert_eq!(
        sent,
        Some(
            b"HTTP/1.1 200 OK\r\nContent-Type: text/plain\r\nContent-Length: 8\r\n\r\ncurl/8.0"
                .to_vec()
        )
    );
    let sent = serve(b"GET /user-agent HTTP/1.1\r\nHost: localhost\r\n\r\n", None, &mut disk);
    assert_eq!(
        sent,
        Some(
            b"HTTP/1.1 200 OK\r\nContent-Type: text/plain\r\nContent-Length: 7\r\n\r\nUnknown"
                .to_vec()
        )
    );
}

#[test]
fn get_nonexistent_is_not_found() {
    let mut disk = Vec::new();
    let sent = serve(b"GET /nonexistent HTTP/1.1\r\n\r\n", Some("/srv"), &mut disk);
    assert_eq!(sent, Some(b"HTTP/1.1 404 Not Found\r\nContent-Length: 0\r\n\r\n".to_vec()));
}

#[test]
fn upload_then_download_returns_the_body() {
    let mut disk = Vec::new();
    let sent = serve(
        b"POST /files/report.txt HTTP/1.1\r\nContent-Length: 5\r\n\r\nhello",
        Some("/srv"),
        &mut disk,
    );
    assert_eq!(sent, Some(b"HTTP/1.1 201 Created\r\nContent-Length: 0\r\n\r\n".to_vec()));
    assert_eq!(disk, vec![(b"/srv/report.txt".to_vec(), b"hello".to_vec())]);
    let sent = serve(b"GET /files/report.txt HTTP/1.1\r\n\r\n", Some("/srv"), &mut disk);
    assert_eq!(
        sent,
        Some(
            b"HTTP/1.1 200 OK\r\nContent-Type: application/octet-stream\r\nContent-Length: 5\r\n\r\nhello"
                .to_vec()
        )
    );
}

#[test]
fn missing_file_is_not_found() {
    let mut disk = Vec::new();
    let sent = serve(b"GET /files/absent HTTP/1.1\r\n\r\n", Some("/srv"), &mut disk);
    assert_eq!(sent, Some(b"HTTP/1.1 404 Not Found\r\nContent-Length: 0\r\n\r\n".to_vec()));
}

#[test]
fn missing_directory_is_an_internal_error() {
    let mut disk = Vec::new();
    let sent = serve(b"GET /files/x HTTP/1.1\r\n\r\n", None, &mut disk);
    assert_eq!(
        sent,
        Some(b"HTTP/1.1 500 Internal Server Error\r\nContent-Length: 0\r\n\r\n".to_vec())
    );
    let sent = serve(b"POST /files/x HTTP/1.1\r\n\r\nabc", None, &mut disk);
    assert_eq!(
        sent,
        Some(b"HTTP/1.1 500 Internal Server Error\r\nContent-Length: 0\r\n\r\n".to_vec())
    );
    assert!(disk.is_empty());
}

#[test]
fn undecodable_reads_close_without_a_response() {
    let mut disk = Vec::new();
    assert_eq!(serve(b"", None, &mut disk), None);
    assert_eq!(serve(b"GET /", None, &mut disk), None);
    assert_eq!(serve(b"GET\r\n/ HTTP/1.1\r\n", None, &mut disk), None);
    assert_eq!(serve(b"PATCH / HTTP/1.1\r\n\r\n", None, &mut disk), None);
}

#[test]
fn failed_transport_closes() {
    let (state, action) = step(State::AwaitingRequest, Event::TransportFailed, None);
    assert_eq!(state, State::Closed);
    assert!(matches!(action, Action::Close));
}

#[test]
fn failed_write_closes_without_a_response() {
    let (state, action) = step(
        State::AwaitingRequest,
        Event::Received(b"POST /files/a HTTP/1.1\r\n\r\nx".to_vec()),
        Some("/srv".to_string()),
    );
    assert_eq!(state, State::AwaitingFileWrite);
    assert!(matches!(action, Action::WriteFile { .. }));
    let (state, action) = step(state, Event::FileWritten(false), Some("/srv".to_string()));
    assert_eq!(state, State::Closed);
    assert!(matches!(action, Action::Close));
}

#[test]
fn events_that_are_not_awaited_close() {
    let cases = vec![
        (State::AwaitingRequest, Event::FileRead(Some(b"x".to_vec()))),
        (State::AwaitingRequest, Event::FileWritten(true)),
        (State::AwaitingFileRead, Event::Received(b"GET / HTTP/1.1\r\n\r\n".to_vec())),
        (State::AwaitingFileRead, Event::FileWritten(true)),
        (State::AwaitingFileRead, Event::TransportFailed),
        (State::AwaitingFileWrite, Event::FileRead(None)),
        (State::AwaitingFileWrite, Event::Received(Vec::new())),
        (State::Closed, Event::Received(b"GET / HTTP/1.1\r\n\r\n".to_vec())),
        (State::Closed, Event::FileRead(None)),
        (State::Closed, Event::FileWritten(true)),
    ];
    for (state, event) in cases {
        let (next, action) = step(state, event, Some("/srv".to_string()));
        assert_eq!(next, State::Closed);
        assert!(matches!(action, Action::Close));
    }
}

#[test]
fn sent_bytes_are_the_encoded_response() {
    let (_, action) = step(State::AwaitingFileRead, Event::FileRead(Some(vec![1, 2, 3])), None);
    let expected = http_server::handle_file(Some(vec![1, 2, 3])).to_byte_vector();
    match action {
        Action::Send(bytes) => assert_eq!(bytes, expected),
        other => panic!("{:?}", other),
    }
}
