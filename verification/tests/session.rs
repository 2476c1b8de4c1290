use bytes::Bytes;
use dray::error::{Error, StorageErrorKind};
use dray::handle_id::render_handle;
use dray::handle_table::{HandleState, HandleTable};
use dray::protocol::request::extended::Extended;
use dray::protocol::request::fsetstat::Fsetstat;
use dray::protocol::request::handle::Handle;
use dray::protocol::request::init::Init;
use dray::protocol::request::mkdir::Mkdir;
use dray::protocol::request::open::Open;
use dray::protocol::request::opendir::Opendir;
use dray::protocol::request::path::Path;
use dray::protocol::request::read::Read;
use dray::protocol::request::realpath::Realpath;
use dray::protocol::request::rename::Rename;
use dray::protocol::request::rmdir::Rmdir;
use dray::protocol::request::setstat::Setstat;
use dray::protocol::request::symlink::Symlink;
use dray::protocol::request::write::Write;
use dray::protocol::request::Request;
use dray::protocol::response::attrs::Attrs;
use dray::protocol::response::data::Data;
use dray::protocol::response::name::{File, Name};
use dray::protocol::response::status::StatusCode;
use dray::protocol::response::version::Version;
use dray::protocol::response::Response;
use dray::sftp_session::{Exchange, SftpSession, Step};
use dray::storage::{StorageCall, StorageOutcome};

const READ: u32 = 0x01;
const WRITE: u32 = 0x02;

fn status(id: u32, code: StatusCode) -> Result<Step, Error> {
    Ok(Step::Respond(Response::status(id, code)))
}

fn call(call: StorageCall) -> Result<Step, Error> {
    Ok(Step::Call(call))
}

fn answer(id: u32, code: StatusCode) -> Result<Response, Error> {
    Ok(Response::status(id, code))
}

fn exchange(session: &mut SftpSession, request: Request, outcome: StorageOutcome) -> Response {
    match session.handle_request(request) {
        Ok(Step::Respond(response)) => response,
        Ok(Step::Call(_)) => session.complete(outcome).unwrap(),
        Err(error) => panic!("refused: {:?}", error),
    }
}

fn file(name: &str) -> File {
    File {
        name: String::from(name),
        size: 7,
        is_directory: false,
        permissions: 0o600,
        modified: 1_600_000_000,
    }
}

fn handle_of(response: Response) -> String {
    match response {
        Response::Handle(h) => h.handle,
        other => panic!("no handle: {:?}", other),
    }
}

fn open_request(id: u32, path: &str, flags: u32) -> Request {
    Request::Open(Open {
        id,
        path: String::from(path),
        flags,
    })
}

fn open(session: &mut SftpSession, id: u32, path: &str, flags: u32, stream: &str) -> String {
    let expected = if flags & WRITE != 0 {
        StorageCall::OpenWrite {
            path: String::from(path),
        }
    } else {
        StorageCall::OpenRead {
            path: String::from(path),
        }
    };
    assert_eq!(
        session.handle_request(open_request(id, path, flags)),
        call(expected)
    );
    handle_of(
        session
            .complete(StorageOutcome::Stream(String::from(stream)))
            .unwrap(),
    )
}

fn opendir(session: &mut SftpSession, id: u32, path: &str) -> String {
    let request = Request::Opendir(Opendir {
        id,
        path: String::from(path),
    });
    handle_of(exchange(session, request, StorageOutcome::Done))
}

fn close(id: u32, handle: &str) -> Request {
    Request::Close(Handle {
        id,
        handle: String::from(handle),
    })
}

fn write(id: u32, handle: &str, offset: u64, data: &'static [u8]) -> Request {
    Request::Write(Write {
        id,
        handle: String::from(handle),
        offset,
        data: Bytes::from_static(data),
    })
}

fn read(id: u32, handle: &str) -> Request {
    Request::Read(Read {
        id,
        handle: String::from(handle),
        offset: 10,
        length: 20,
    })
}

fn readdir(id: u32, handle: &str) -> Request {
    Request::Readdir(Handle {
        id,
        handle: String::from(handle),
    })
}

fn list(prefix: &str, token: Option<&str>) -> StorageCall {
    StorageCall::ListPrefix {
        prefix: String::from(prefix),
        continuation_token: token.map(String::from),
        max_results: 1000,
    }
}

fn page(names: &[&str], next: Option<&str>) -> StorageOutcome {
    StorageOutcome::Page {
        entries: names.iter().map(|n| file(n)).collect(),
        next_token: next.map(String::from),
    }
}

#[test]
fn init_is_answered_with_the_server_version() {
    let bytes = [0u8, 0, 0, 2, 1, 3];
    assert_eq!(
        Request::try_from(&bytes[..]),
        Ok(Request::Init(Init { version: 3 }))
    );
    let mut session = SftpSession::new(String::from("alice"), 1);
    assert_eq!(
        session.receive(&bytes),
        Ok(Exchange::Reply(
            Response::Version(Version { version: 3 })
                .encode()
                .unwrap()
        ))
    );
}

#[test]
fn a_higher_version_is_not_negotiated() {
    let mut session = SftpSession::new(String::from("alice"), 1);
    assert_eq!(
        session.handle_request(Request::Init(Init { version: 6 })),
        Ok(Step::Respond(Response::Version(Version { version: 3 })))
    );
    assert_eq!(
        session.receive(&[0, 0, 0, 2, 1, 200]),
        Ok(Exchange::Reply(vec![0, 0, 0, 5, 2, 0, 0, 0, 3]))
    );
}

#[test]
fn open_write_close_then_write_again() {
    let mut session = SftpSession::new(String::from("alice"), 1);
    let h = open(&mut session, 1, "foo.txt", WRITE, "upload-1");

    assert_eq!(
        session.handle_request(write(2, &h, 0, b"AB")),
        call(StorageCall::WriteData {
            stream: String::from("upload-1"),
            data: Bytes::from_static(b"AB"),
        })
    );
    assert_eq!(
        session.complete(StorageOutcome::Done),
        answer(2, StatusCode::Okay)
    );

    assert_eq!(
        session.handle_request(close(3, &h)),
        call(StorageCall::CloseStream {
            stream: String::from("upload-1")
        })
    );
    assert_eq!(
        session.complete(StorageOutcome::Done),
        answer(3, StatusCode::Okay)
    );

    assert_eq!(
        session.handle_request(write(4, &h, 0, b"CD")),
        status(4, StatusCode::InvalidHandle)
    );
    assert_eq!(session.open_handles(), 0);
}

#[test]
fn a_write_out_of_place_is_refused_and_not_applied() {
    let mut session = SftpSession::new(String::from("alice"), 1);
    let h = open(&mut session, 1, "foo.txt", WRITE, "upload-1");

    assert_eq!(
        session.handle_request(write(2, &h, 5, b"AB")),
        status(2, StatusCode::Failure)
    );
    assert!(session.is_idle());

    assert_eq!(
        exchange(&mut session, write(3, &h, 0, b"AB"), StorageOutcome::Done),
        Response::status(3, StatusCode::Okay)
    );

    assert_eq!(
        session.handle_request(write(4, &h, 0, b"CD")),
        status(4, StatusCode::Failure)
    );
    assert_eq!(
        session.handle_request(write(5, &h, 3, b"CD")),
        status(5, StatusCode::Failure)
    );
    assert_eq!(
        session.handle_request(write(6, &h, 2, b"CDE")),
        call(StorageCall::WriteData {
            stream: String::from("upload-1"),
            data: Bytes::from_static(b"CDE"),
        })
    );
    assert_eq!(
        session.complete(StorageOutcome::Done),
        answer(6, StatusCode::Okay)
    );
    assert!(matches!(
        session.handle_request(write(7, &h, 5, b"")),
        Ok(Step::Call(_))
    ));
}

#[test]
fn a_write_that_storage_refused_does_not_move_the_stream() {
    let mut session = SftpSession::new(String::from("alice"), 1);
    let h = open(&mut session, 1, "foo.txt", WRITE, "upload-1");
    assert_eq!(
        exchange(
            &mut session,
            write(2, &h, 0, b"AB"),
            StorageOutcome::Failed(StorageErrorKind::PermissionDenied)
        ),
        Response::status(2, StatusCode::PermissionDenied)
    );
    assert_eq!(
        session.handle_request(write(4, &h, 2, b"AB")),
        status(4, StatusCode::Failure)
    );
    assert!(matches!(
        session.handle_request(write(3, &h, 0, b"AB")),
        Ok(Step::Call(_))
    ));
}

#[test]
fn one_request_at_a_time() {
    let mut session = SftpSession::new(String::from("alice"), 1);
    assert!(session.is_idle());
    assert_eq!(session.complete(StorageOutcome::Done), Err(Error::Fatal));
    assert_eq!(session.resume(StorageOutcome::Done), Err(Error::Fatal));

    assert!(matches!(
        session.handle_request(open_request(1, "a", READ)),
        Ok(Step::Call(_))
    ));
    assert!(!session.is_idle());
    assert_eq!(
        session.handle_request(Request::Init(Init { version: 3 })),
        Err(Error::Fatal)
    );
    assert_eq!(session.receive(&[0, 0, 0, 2, 1, 3]), Err(Error::Fatal));
    assert_eq!(session.receive(&[]), Err(Error::Fatal));
    assert_eq!(session.open_handles(), 0);

    let h = handle_of(
        session
            .complete(StorageOutcome::Stream(String::from("s")))
            .unwrap(),
    );
    assert_eq!(h, render_handle(1, 0));
    assert!(session.is_idle());
    assert_eq!(session.complete(StorageOutcome::Done), Err(Error::Fatal));
}

#[test]
fn handles_are_distinct_and_closing_empties_the_table() {
    let mut session = SftpSession::new(String::from("alice"), 9);
    let mut handles = vec![];
    for i in 0..5u32 {
        handles.push(opendir(&mut session, i, "/"));
    }
    handles.push(open(&mut session, 5, "a", READ, "r"));
    handles.push(open(&mut session, 6, "b", WRITE, "w"));
    assert_eq!(session.open_handles(), 7);
    for (i, a) in handles.iter().enumerate() {
        assert_eq!(*a, render_handle(9, i as u64));
        for b in &handles[i + 1..] {
            assert_ne!(a, b);
        }
    }
    for (i, h) in handles.iter().enumerate() {
        let id = 10 + i as u32;
        assert_eq!(
            exchange(&mut session, close(id, h), StorageOutcome::Done),
            Response::status(id, StatusCode::Okay)
        );
    }
    assert_eq!(session.open_handles(), 0);
    for h in &handles {
        assert_eq!(
            session.handle_request(close(99, h)),
            status(99, StatusCode::InvalidHandle)
        );
    }
    let next = opendir(&mut session, 100, "/");
    assert_eq!(next, render_handle(9, 7));
}

#[test]
fn closing_in_any_order_empties_the_table() {
    let mut session = SftpSession::new(String::from("alice"), 3);
    let handles = vec![
        opendir(&mut session, 1, "/"),
        open(&mut session, 2, "a", READ, "r"),
        opendir(&mut session, 3, "/x"),
        open(&mut session, 4, "b", WRITE, "w"),
        open(&mut session, 5, "c", READ, "r2"),
    ];
    for (id, i) in [3usize, 0, 4, 1, 2].into_iter().enumerate() {
        assert_eq!(
            exchange(
                &mut session,
                close(id as u32, &handles[i]),
                StorageOutcome::Done
            ),
            Response::status(id as u32, StatusCode::Okay)
        );
        assert_eq!(session.open_handles(), 4 - id);
    }
    for h in &handles {
        assert_eq!(
            session.handle_request(close(9, h)),
            status(9, StatusCode::InvalidHandle)
        );
    }
}

#[test]
fn a_close_that_storage_refused_still_closes() {
    let mut session = SftpSession::new(String::from("alice"), 3);
    let h = open(&mut session, 1, "a", WRITE, "w");
    assert_eq!(
        exchange(
            &mut session,
            close(2, &h),
            StorageOutcome::Failed(StorageErrorKind::Other)
        ),
        Response::status(2, StatusCode::Failure)
    );
    assert_eq!(session.open_handles(), 0);
    assert_eq!(
        session.handle_request(close(3, &h)),
        status(3, StatusCode::InvalidHandle)
    );
}

#[test]
fn a_handle_of_another_session_is_invalid() {
    let mut one = SftpSession::new(String::from("alice"), 1);
    let mut two = SftpSession::new(String::from("bob"), 2);
    let h1 = opendir(&mut one, 1, "/");
    let h2 = opendir(&mut two, 1, "/");
    assert_ne!(h1, h2);
    assert_eq!(
        two.handle_request(readdir(2, &h1)),
        status(2, StatusCode::InvalidHandle)
    );
    assert_eq!(
        one.handle_request(close(3, &h2)),
        status(3, StatusCode::InvalidHandle)
    );
    assert_eq!(
        one.handle_request(close(4, "not a handle")),
        status(4, StatusCode::InvalidHandle)
    );
    assert_eq!(one.user(), "alice");
    assert_eq!(two.user(), "bob");
}

#[test]
fn find_knows_what_is_open() {
    let mut session = SftpSession::new(String::from("alice"), 1);
    let dir = opendir(&mut session, 1, "d/");
    assert_eq!(
        session.find(&dir),
        Ok(&HandleState::DirListing {
            prefix: String::from("d/"),
            continuation_token: None
        })
    );
    assert_eq!(session.find(&render_handle(1, 1)), Err(Error::NoSuchHandle));
    assert_eq!(session.find(&render_handle(2, 0)), Err(Error::NoSuchHandle));
    assert_eq!(session.find(&String::from("d/")), Err(Error::NoSuchHandle));
    exchange(&mut session, close(2, &dir), StorageOutcome::Done);
    assert_eq!(session.find(&dir), Err(Error::NoSuchHandle));
    assert_eq!(
        Response::failure(3, Error::NoSuchHandle),
        Response::status(3, StatusCode::InvalidHandle)
    );
}

#[test]
fn a_listing_is_read_page_by_page_to_its_end() {
    let mut session = SftpSession::new(String::from("alice"), 1);
    let h = opendir(&mut session, 1, "photos/");
    let pages: Vec<(Vec<&str>, Option<&str>)> = vec![
        (vec!["a", "b"], Some("t1")),
        (vec!["c"], Some("t2")),
        (vec![], Some("t3")),
        (vec!["d"], Some("t4")),
        (vec![], None),
    ];
    let mut token: Option<&str> = None;
    let mut listed: Vec<String> = vec![];
    let mut ended = false;
    for (i, (names, next)) in pages.into_iter().enumerate() {
        assert!(!ended);
        let id = 10 + i as u32;
        assert_eq!(
            session.handle_request(readdir(id, &h)),
            call(list("photos/", token))
        );
        token = next;
        match session.complete(page(&names, next)).unwrap() {
            Response::Name(Name { id: got, files }) => {
                assert_eq!(got, id);
                assert_eq!(files.len(), names.len());
                listed.extend(files.into_iter().map(|f| f.name));
            }
            other => {
                assert_eq!(other, Response::status(id, StatusCode::Eof));
                ended = true;
            }
        }
    }
    assert!(ended);
    assert_eq!(listed, vec!["a", "b", "c", "d"]);
}

#[test]
fn an_empty_listing_ends_at_once() {
    let mut session = SftpSession::new(String::from("alice"), 1);
    let h = opendir(&mut session, 1, "empty/");
    assert_eq!(
        exchange(&mut session, readdir(2, &h), page(&[], None)),
        Response::status(2, StatusCode::Eof)
    );
}

#[test]
fn a_last_page_with_entries_is_handed_on() {
    let mut session = SftpSession::new(String::from("alice"), 1);
    let h = opendir(&mut session, 1, "p/");
    assert_eq!(
        exchange(&mut session, readdir(2, &h), page(&["a"], None)),
        Response::Name(Name {
            id: 2,
            files: vec![file("a")]
        })
    );
    assert_eq!(
        session.handle_request(readdir(3, &h)),
        call(list("p/", None))
    );
}

#[test]
fn a_listing_that_failed_keeps_its_token() {
    let mut session = SftpSession::new(String::from("alice"), 1);
    let h = opendir(&mut session, 1, "p/");
    exchange(&mut session, readdir(2, &h), page(&["a"], Some("t1")));
    assert_eq!(
        exchange(
            &mut session,
            readdir(3, &h),
            StorageOutcome::Failed(StorageErrorKind::Other)
        ),
        Response::status(3, StatusCode::Failure)
    );
    assert_eq!(
        session.handle_request(readdir(4, &h)),
        call(list("p/", Some("t1")))
    );
}

#[test]
fn readdir_wants_a_listing_and_read_wants_a_read_stream() {
    let mut session = SftpSession::new(String::from("alice"), 1);
    let dir = opendir(&mut session, 1, "/");
    let reading = open(&mut session, 2, "r", READ, "r-1");
    let writing = open(&mut session, 3, "w", WRITE, "w-1");
    assert_eq!(
        session.handle_request(readdir(4, &reading)),
        status(4, StatusCode::InvalidHandle)
    );
    assert_eq!(
        session.handle_request(readdir(5, &writing)),
        status(5, StatusCode::InvalidHandle)
    );
    assert_eq!(
        session.handle_request(read(6, &dir)),
        status(6, StatusCode::InvalidHandle)
    );
    assert_eq!(
        session.handle_request(read(7, &writing)),
        status(7, StatusCode::InvalidHandle)
    );
    assert_eq!(
        session.handle_request(write(8, &reading, 0, b"x")),
        status(8, StatusCode::InvalidHandle)
    );
    assert_eq!(
        session.handle_request(write(9, &dir, 0, b"x")),
        status(9, StatusCode::InvalidHandle)
    );
    assert_eq!(
        session.handle_request(read(10, &reading)),
        call(StorageCall::ReadData {
            stream: String::from("r-1"),
            offset: 10,
            length: 20
        })
    );
    assert_eq!(session.open_handles(), 3);
}

#[test]
fn read_gives_data_until_the_stream_is_at_its_end() {
    let mut session = SftpSession::new(String::from("alice"), 1);
    let h = open(&mut session, 1, "r", READ, "r-1");
    assert_eq!(
        exchange(&mut session, read(2, &h), StorageOutcome::Data(vec![1, 2, 3])),
        Response::Data(Data {
            id: 2,
            data: vec![1, 2, 3]
        })
    );
    assert_eq!(
        exchange(&mut session, read(3, &h), StorageOutcome::Data(vec![])),
        Response::status(3, StatusCode::Eof)
    );
    assert_eq!(
        exchange(
            &mut session,
            read(4, &h),
            StorageOutcome::Failed(StorageErrorKind::NotFound)
        ),
        Response::status(4, StatusCode::NoSuchFile)
    );
    assert_eq!(
        exchange(&mut session, read(5, &h), StorageOutcome::Done),
        Response::status(5, StatusCode::Failure)
    );
}

#[test]
fn open_goes_by_its_flags() {
    let mut session = SftpSession::new(String::from("alice"), 1);
    assert_eq!(
        session.handle_request(open_request(1, "p", 0x08)),
        status(1, StatusCode::Failure)
    );
    assert_eq!(
        session.handle_request(open_request(1, "p", READ)),
        call(StorageCall::OpenRead {
            path: String::from("p")
        })
    );
    assert_eq!(
        session.complete(StorageOutcome::Failed(StorageErrorKind::NotFound)),
        answer(1, StatusCode::NoSuchFile)
    );
    assert_eq!(
        session.handle_request(open_request(2, "p", WRITE | 0x08 | 0x10)),
        call(StorageCall::OpenWrite {
            path: String::from("p")
        })
    );
    assert_eq!(
        session.complete(StorageOutcome::Done),
        answer(2, StatusCode::Failure)
    );
    assert_eq!(
        session.handle_request(open_request(3, "p", READ | WRITE)),
        call(StorageCall::OpenWrite {
            path: String::from("p")
        })
    );
    assert_eq!(session.open_handles(), 0);
}

#[test]
fn paths_go_straight_to_storage() {
    let mut session = SftpSession::new(String::from("alice"), 1);
    let p = || String::from("p");
    let path = |id: u32| Path { id, path: p() };
    let requests: Vec<(fn(u32) -> Request, StorageCall)> = vec![
        (
            |id| {
                Request::Remove(Path {
                    id,
                    path: String::from("p"),
                })
            },
            StorageCall::RemoveFile { path: p() },
        ),
        (
            |id| {
                Request::Mkdir(Mkdir {
                    id,
                    path: String::from("p"),
                })
            },
            StorageCall::CreateDir { path: p() },
        ),
        (
            |id| {
                Request::Rmdir(Rmdir {
                    id,
                    path: String::from("p"),
                })
            },
            StorageCall::RemoveDir { path: p() },
        ),
        (
            |id| {
                Request::Rename(Rename {
                    id,
                    old_path: String::from("p"),
                    new_path: String::from("q"),
                })
            },
            StorageCall::Rename {
                old_path: p(),
                new_path: String::from("q"),
            },
        ),
    ];
    for (make, expected) in requests {
        assert_eq!(session.handle_request(make(1)), call(expected));
        assert_eq!(
            session.complete(StorageOutcome::Done),
            answer(1, StatusCode::Okay)
        );
        assert_eq!(
            exchange(
                &mut session,
                make(2),
                StorageOutcome::Failed(StorageErrorKind::PermissionDenied)
            ),
            Response::status(2, StatusCode::PermissionDenied)
        );
        assert_eq!(
            exchange(&mut session, make(3), StorageOutcome::Data(vec![1])),
            Response::status(3, StatusCode::Failure)
        );
    }
    for make in [Request::Stat, Request::Lstat] {
        assert_eq!(
            session.handle_request(make(path(5))),
            call(StorageCall::Metadata { path: p() })
        );
        assert_eq!(
            session.complete(StorageOutcome::Metadata(file("p"))),
            Ok(Response::Attrs(Attrs {
                id: 5,
                file: file("p")
            }))
        );
        assert_eq!(
            exchange(
                &mut session,
                make(path(6)),
                StorageOutcome::Failed(StorageErrorKind::NotFound)
            ),
            Response::status(6, StatusCode::NoSuchFile)
        );
    }
}

#[test]
fn fstat_looks_up_the_path_of_the_handle() {
    let mut session = SftpSession::new(String::from("alice"), 1);
    let dir = opendir(&mut session, 1, "d/");
    let reading = open(&mut session, 2, "r.txt", READ, "r-1");
    let writing = open(&mut session, 3, "w.txt", WRITE, "w-1");
    for (handle, path) in [(&dir, "d/"), (&reading, "r.txt"), (&writing, "w.txt")] {
        let request = Request::Fstat(Handle {
            id: 4,
            handle: handle.clone(),
        });
        assert_eq!(
            session.handle_request(request),
            call(StorageCall::Metadata {
                path: String::from(path)
            })
        );
        assert_eq!(
            session.complete(StorageOutcome::Metadata(file(path))),
            Ok(Response::Attrs(Attrs {
                id: 4,
                file: file(path)
            }))
        );
    }
    assert_eq!(
        session.handle_request(Request::Fstat(Handle {
            id: 5,
            handle: render_handle(1, 77)
        })),
        status(5, StatusCode::InvalidHandle)
    );
}

#[test]
fn realpath_answers_with_the_path_itself() {
    let mut session = SftpSession::new(String::from("alice"), 1);
    let realpath = |path: &str| {
        Request::Realpath(Realpath {
            id: 1,
            path: String::from(path),
        })
    };
    assert_eq!(
        session.handle_request(realpath("/some/../path")),
        Ok(Step::Respond(Response::Name(Name {
            id: 1,
            files: vec![File {
                name: String::from("/some/../path"),
                size: 0,
                is_directory: true,
                permissions: 0,
                modified: 0
            }]
        })))
    );
    assert_eq!(
        session.handle_request(realpath("")),
        status(1, StatusCode::BadMessage)
    );
    assert_eq!(
        session.handle_request(realpath("a\0b")),
        status(1, StatusCode::BadMessage)
    );
}

#[test]
fn what_is_not_supported_says_so() {
    let mut session = SftpSession::new(String::from("alice"), 1);
    for request in [
        Request::Setstat(Setstat { id: 1 }),
        Request::Fsetstat(Fsetstat { id: 1 }),
        Request::Symlink(Symlink { id: 1 }),
        Request::Extended(Extended { id: 1 }),
    ] {
        assert_eq!(
            session.handle_request(request),
            status(1, StatusCode::OpUnsupported)
        );
        assert!(session.is_idle());
    }
    assert_eq!(
        session.receive(&[0, 0, 0, 9, 200, 0, 0, 0, 5, 1, 2, 3, 4]),
        Ok(Exchange::Reply(
            Response::status(5, StatusCode::OpUnsupported).to_bytes()
        ))
    );
    assert_eq!(
        session.receive(&[0, 0, 0, 9, 10, 0, 0, 0, 5, 1, 2, 3, 4]),
        Ok(Exchange::Reply(
            Response::status(0, StatusCode::OpUnsupported).to_bytes()
        ))
    );
}

#[test]
fn bytes_that_are_no_request_get_a_status() {
    let mut session = SftpSession::new(String::from("alice"), 1);
    assert_eq!(
        session.receive(&[0, 0, 0]),
        Ok(Exchange::Reply(
            Response::status(0, StatusCode::BadMessage).to_bytes()
        ))
    );
    assert_eq!(
        session.receive(&[0, 0, 0, 1, 99]),
        Ok(Exchange::Reply(
            Response::status(0, StatusCode::OpUnsupported).to_bytes()
        ))
    );
    assert_eq!(
        SftpSession::build_invalid_request_message_response(Error::BadMessage),
        Response::status(0, StatusCode::BadMessage)
    );
    assert!(session.is_idle());
}

#[test]
fn receive_and_resume_speak_bytes() {
    let mut session = SftpSession::new(String::from("alice"), 1);
    let stat = Request::Stat(Path {
        id: 3,
        path: String::from("p"),
    });
    assert_eq!(
        session.receive(&stat.encode().unwrap()),
        Ok(Exchange::Call(StorageCall::Metadata {
            path: String::from("p")
        }))
    );
    assert_eq!(
        session.resume(StorageOutcome::Metadata(file("p"))),
        Response::Attrs(Attrs {
            id: 3,
            file: file("p")
        })
        .encode()
    );
}

#[test]
fn release_all_lets_go_of_every_stream() {
    let mut session = SftpSession::new(String::from("alice"), 1);
    let first = open(&mut session, 1, "a", READ, "s-a");
    opendir(&mut session, 2, "/");
    open(&mut session, 3, "b", WRITE, "s-b");
    open(&mut session, 4, "c", READ, "s-c");
    exchange(&mut session, close(5, &first), StorageOutcome::Done);
    assert!(matches!(
        session.handle_request(open_request(6, "d", READ)),
        Ok(Step::Call(_))
    ));
    assert_eq!(
        session.release_all(),
        vec![
            StorageCall::CloseStream {
                stream: String::from("s-b")
            },
            StorageCall::CloseStream {
                stream: String::from("s-c")
            },
        ]
    );
    assert_eq!(session.open_handles(), 0);
    assert!(session.is_idle());
    assert_eq!(session.release_all(), vec![]);
    assert_eq!(opendir(&mut session, 7, "/"), render_handle(1, 4));
}

#[test]
fn the_table_gives_numbers_out_once() {
    let mut table = HandleTable::new();
    assert!(table.is_empty());
    assert!(!table.is_full());
    let state = |n: u64| HandleState::WriteStream {
        stream: String::from("s"),
        path: String::from("p"),
        written: n,
    };
    assert_eq!(table.open(state(0)), Some(0));
    assert_eq!(table.open(state(1)), Some(1));
    assert_eq!(table.len(), 2);
    assert_eq!(table.get(1), Some(&state(1)));
    assert_eq!(table.get(2), None);
    assert!(table.update(1, state(5)));
    assert!(!table.update(2, state(5)));
    assert_eq!(table.close(1), Some(state(5)));
    assert_eq!(table.close(1), None);
    assert_eq!(table.open(state(2)), Some(2));
    assert_eq!(table.drain(), vec![String::from("s"), String::from("s")]);
    assert!(table.is_empty());
    assert_eq!(table.open(state(3)), Some(3));
}
