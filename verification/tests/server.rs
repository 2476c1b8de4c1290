use dray::config::{DrayConfig, S3Config};
use dray::error::{Error, StorageErrorKind};
use dray::handle_id::render_handle;
use dray::protocol::request::init::Init;
use dray::protocol::request::open::Open;
use dray::protocol::request::Request;
use dray::protocol::response::status::StatusCode;
use dray::protocol::response::Response;
use dray::sftp_session::Exchange;
use dray::storage::{StorageCall, StorageOutcome};
use dray::{Auth, DraySshServer};

fn config() -> DrayConfig {
    DrayConfig {
        host: String::from("0.0.0.0:2222"),
        s3: S3Config {
            s3_endpoint_name: None,
            s3_endpoint_region: String::from("eu-central-1"),
            s3_bucket: String::from("bucket"),
        },
    }
}

fn logged_in(connection: &mut DraySshServer) {
    assert_eq!(
        connection.auth_publickey(
            String::from("alice"),
            Ok(vec![String::from("fp")]),
            &String::from("fp"),
        ),
        Ok(Auth::Accept)
    );
}

#[test]
fn a_key_among_the_users_keys_is_accepted() {
    let mut server = DraySshServer::new(config());
    let mut connection = server.accept().unwrap();
    assert!(!connection.has_session());
    assert_eq!(
        connection.auth_publickey(
            String::from("alice"),
            Ok(vec![String::from("fp-1"), String::from("fp-2")]),
            &String::from("fp-2")
        ),
        Ok(Auth::Accept)
    );
    assert!(connection.has_session());
    assert_eq!(connection.config(), &config());
    assert_eq!(connection.config().duplicate(), config());
}

#[test]
fn any_other_key_is_rejected() {
    let mut connection = DraySshServer::new(config()).accept().unwrap();
    assert_eq!(
        connection.auth_publickey(
            String::from("alice"),
            Ok(vec![String::from("fp-1")]),
            &String::from("fp-3")
        ),
        Ok(Auth::Reject)
    );
    assert!(!connection.has_session());
}

#[test]
fn an_unknown_user_has_no_keys_and_is_rejected() {
    let mut connection = DraySshServer::new(config()).accept().unwrap();
    assert_eq!(
        connection.auth_publickey(String::from("nobody"), Ok(vec![]), &String::from("fp-1")),
        Ok(Auth::Reject)
    );
    assert!(!connection.has_session());
}

#[test]
fn a_failed_lookup_fails_the_attempt() {
    let mut connection = DraySshServer::new(config()).accept().unwrap();
    assert_eq!(
        connection.auth_publickey(
            String::from("alice"),
            Err(StorageErrorKind::Other),
            &String::from("fp-1")
        ),
        Err(Error::StorageFailure {
            kind: StorageErrorKind::Other
        })
    );
    assert!(!connection.has_session());
}

#[test]
fn only_the_sftp_subsystem_is_offered() {
    let server = DraySshServer::new(config());
    assert!(server.subsystem_request("sftp"));
    assert!(!server.subsystem_request("shell"));
    assert!(!server.subsystem_request("SFTP"));
    assert!(!server.subsystem_request(""));
}

#[test]
fn data_without_a_session_is_fatal() {
    let mut connection = DraySshServer::new(config()).accept().unwrap();
    assert_eq!(connection.data(&[0, 0, 0, 2, 1, 3]), Err(Error::Fatal));
    assert_eq!(
        connection.data(&[0, 0]),
        Ok(Exchange::Reply(
            Response::status(0, StatusCode::BadMessage).to_bytes()
        ))
    );
    assert_eq!(connection.resume(StorageOutcome::Done), Err(Error::Fatal));
    assert_eq!(connection.disconnect(), vec![]);
}

#[test]
fn a_connection_runs_from_login_to_its_end() {
    let mut server = DraySshServer::new(config());
    let mut first = server.accept().unwrap();
    let mut second = server.accept().unwrap();
    logged_in(&mut first);
    logged_in(&mut second);
    assert_eq!(
        first.data(&Request::Init(Init { version: 3 }).encode().unwrap()),
        Ok(Exchange::Reply(vec![0, 0, 0, 5, 2, 0, 0, 0, 3]))
    );
    let opening = Request::Open(Open {
        id: 1,
        path: String::from("f"),
        flags: 0x02,
    })
    .encode()
    .unwrap();
    let mut names = vec![];
    for connection in [&mut first, &mut second] {
        assert_eq!(
            connection.data(&opening),
            Ok(Exchange::Call(StorageCall::OpenWrite {
                path: String::from("f")
            }))
        );
        assert_eq!(connection.data(&opening), Err(Error::Fatal));
        let bytes = connection
            .resume(StorageOutcome::Stream(String::from("up")))
            .unwrap();
        names.push(bytes[13..].to_vec());
    }
    assert_eq!(names[0], render_handle(0, 0).into_bytes());
    assert_eq!(names[1], render_handle(1, 0).into_bytes());
    assert_eq!(
        first.disconnect(),
        vec![StorageCall::CloseStream {
            stream: String::from("up")
        }]
    );
    assert!(!first.has_session());
    assert!(second.has_session());
}

#[test]
fn logging_in_again_starts_a_new_session() {
    let mut connection = DraySshServer::new(config()).accept().unwrap();
    logged_in(&mut connection);
    let opening = Request::Open(Open {
        id: 1,
        path: String::from("f"),
        flags: 0x01,
    })
    .encode()
    .unwrap();
    assert!(matches!(connection.data(&opening), Ok(Exchange::Call(_))));
    logged_in(&mut connection);
    assert_eq!(connection.resume(StorageOutcome::Done), Err(Error::Fatal));
    assert_eq!(connection.disconnect(), vec![]);
}
