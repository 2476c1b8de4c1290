use bytes::Bytes;
use dray::error::{Error, StorageErrorKind};
use dray::handle_id::{parse_handle_name, render_handle};
use dray::protocol::request::extended::Extended;
use dray::protocol::request::fsetstat::Fsetstat;
use dray::protocol::request::handle::Handle;
use dray::protocol::request::init::Init;
use dray::protocol::request::mkdir::Mkdir;
use dray::protocol::request::open::Open;
use dray::protocol::request::opendir::Opendir;
use dray::protocol::request::path::Path;
use dray::protocol::request::read::Read;
use dray::protocol::request::realpath::Realpath;
use dray::protocol::request::rename::Rename;
use dray::protocol::request::rmdir::Rmdir;
use dray::protocol::request::setstat::Setstat;
use dray::protocol::request::symlink::Symlink;
use dray::protocol::request::write::Write;
use dray::protocol::request::Request;
use dray::protocol::response::attrs::Attrs;
use dray::protocol::response::data::Data;
use dray::protocol::response::name::{File, Name};
use dray::protocol::response::status::{Status, StatusCode};
use dray::protocol::response::version::Version;
use dray::protocol::response::Response;
use dray::protocol::{frame_message, split_frame};
use dray::try_buf::{
    try_get_blob, try_get_bytes, try_get_string, try_get_u32, try_get_u64, try_get_u8,
    try_put_bytes, try_put_str,
};

fn round_trip(request: Request) {
    let bytes = request.encode().unwrap();
    assert_eq!(Request::try_from(bytes.as_slice()), Ok(request));
}

fn file(name: &str, size: u64, is_directory: bool) -> File {
    File {
        name: String::from(name),
        size,
        is_directory,
        permissions: 0o644,
        modified: 0x01020304,
    }
}

#[test]
fn primitives_are_big_endian() {
    let mut buf = Bytes::from(vec![
        0x7f, 0x01, 0x02, 0x03, 0x04, 0x01, 0x02, 0x03, 0x04, 0x05, 0x06, 0x07, 0x08, 0xff,
    ]);
    assert_eq!(try_get_u8(&mut buf), Ok(0x7f));
    assert_eq!(try_get_u32(&mut buf), Ok(0x01020304));
    assert_eq!(try_get_u64(&mut buf), Ok(0x0102030405060708));
    assert_eq!(&buf[..], &[0xff]);
}

#[test]
fn primitives_leave_a_short_buffer_alone() {
    let mut buf = Bytes::from(vec![0x01, 0x02, 0x03]);
    assert_eq!(try_get_u32(&mut buf), Err(Error::BadMessage));
    assert_eq!(try_get_u64(&mut buf), Err(Error::BadMessage));
    assert_eq!(try_get_bytes(&mut buf, 4), Err(Error::BadMessage));
    assert_eq!(&buf[..], &[0x01, 0x02, 0x03]);
    assert_eq!(try_get_bytes(&mut buf, 2), Ok(Bytes::from(vec![0x01, 0x02])));
    assert_eq!(&buf[..], &[0x03]);
    assert_eq!(try_get_u8(&mut buf), Ok(0x03));
    assert_eq!(try_get_u8(&mut buf), Err(Error::BadMessage));
}

#[test]
fn blobs_and_strings_carry_their_length() {
    let mut buf = vec![];
    try_put_str(&mut buf, "héllo").unwrap();
    try_put_bytes(&mut buf, &[9, 8, 7]).unwrap();
    assert_eq!(
        buf,
        vec![0, 0, 0, 6, b'h', 0xc3, 0xa9, b'l', b'l', b'o', 0, 0, 0, 3, 9, 8, 7]
    );
    let mut bytes = Bytes::from(buf);
    assert_eq!(try_get_string(&mut bytes), Ok(String::from("héllo")));
    assert_eq!(try_get_blob(&mut bytes), Ok(Bytes::from(vec![9, 8, 7])));
    assert_eq!(bytes.len(), 0);
}

#[test]
fn text_that_is_not_utf8_is_a_bad_message() {
    let mut bytes = Bytes::from(vec![0, 0, 0, 2, 0xc3, 0x28, 0x55]);
    assert_eq!(try_get_string(&mut bytes), Err(Error::BadMessage));
    assert_eq!(&bytes[..], &[0x55]);
}

#[test]
fn a_string_with_its_bytes_missing_is_a_bad_message() {
    let mut bytes = Bytes::from(vec![0, 0, 0, 5, b'a', b'b']);
    assert_eq!(try_get_string(&mut bytes), Err(Error::BadMessage));
    assert_eq!(&bytes[..], &[b'a', b'b']);
}

#[test]
fn frames_hold_length_opcode_payload() {
    assert_eq!(
        frame_message(16, &[1, 2, 3]),
        Ok(vec![0, 0, 0, 4, 16, 1, 2, 3])
    );
    assert_eq!(
        split_frame(&[0, 0, 0, 4, 16, 1, 2, 3, 99]),
        Ok((16, Bytes::from(vec![1, 2, 3])))
    );
    assert_eq!(split_frame(&[0, 0, 0, 1, 16]), Ok((16, Bytes::new())));
}

#[test]
fn broken_frames_are_bad_messages() {
    assert_eq!(split_frame(&[]), Err(Error::BadMessage));
    assert_eq!(split_frame(&[0, 0, 0, 1]), Err(Error::BadMessage));
    assert_eq!(split_frame(&[0, 0, 0, 0, 1]), Err(Error::BadMessage));
    assert_eq!(split_frame(&[0, 0, 0, 3, 1, 7]), Err(Error::BadMessage));
}

#[test]
fn init_on_the_wire() {
    let request = Request::Init(Init { version: 3 });
    assert_eq!(request.encode(), Ok(vec![0, 0, 0, 2, 1, 3]));
    assert_eq!(
        Request::try_from(&[0, 0, 0, 2, 1, 3][..]),
        Ok(Request::Init(Init { version: 3 }))
    );
}

#[test]
fn write_on_the_wire() {
    let request = Request::Write(Write {
        id: 0x0a0b0c0d,
        handle: String::from("h1"),
        offset: 0x0102030405060708,
        data: Bytes::from(vec![0xaa, 0xbb]),
    });
    assert_eq!(
        request.encode(),
        Ok(vec![
            0, 0, 0, 25, 6, 0x0a, 0x0b, 0x0c, 0x0d, 0, 0, 0, 2, b'h', b'1', 1, 2, 3, 4, 5, 6, 7,
            8, 0, 0, 0, 2, 0xaa, 0xbb
        ])
    );
}

#[test]
fn every_request_reads_back_as_written() {
    round_trip(Request::Init(Init { version: 3 }));
    round_trip(Request::Open(Open {
        id: 1,
        path: String::from("/dir/file.txt"),
        flags: 0x1a,
    }));
    round_trip(Request::Close(Handle {
        id: 2,
        handle: String::from("0000000000000000000000000000002a"),
    }));
    round_trip(Request::Read(Read {
        id: 3,
        handle: String::from("handle"),
        offset: u64::MAX,
        length: 4096,
    }));
    round_trip(Request::Write(Write {
        id: 4,
        handle: String::from("handle"),
        offset: 1 << 40,
        data: Bytes::from(vec![0, 1, 2, 255]),
    }));
    round_trip(Request::Lstat(Path {
        id: 5,
        path: String::from("ä/ö"),
    }));
    round_trip(Request::Fstat(Handle {
        id: 6,
        handle: String::new(),
    }));
    round_trip(Request::Setstat(Setstat { id: 7 }));
    round_trip(Request::Opendir(Opendir {
        id: 9,
        path: String::from("/"),
    }));
    round_trip(Request::Readdir(Handle {
        id: 10,
        handle: String::from("h"),
    }));
    round_trip(Request::Remove(Path {
        id: 11,
        path: String::from("gone"),
    }));
    round_trip(Request::Mkdir(Mkdir {
        id: 12,
        path: String::from("new"),
    }));
    round_trip(Request::Rmdir(Rmdir {
        id: 13,
        path: String::from("old"),
    }));
    round_trip(Request::Realpath(Realpath {
        id: 14,
        path: String::from("."),
    }));
    round_trip(Request::Stat(Path {
        id: 15,
        path: String::from("🦀"),
    }));
    round_trip(Request::Rename(Rename {
        id: 16,
        old_path: String::from("a"),
        new_path: String::from("b"),
    }));
    round_trip(Request::Symlink(Symlink { id: 17 }));
    round_trip(Request::Extended(Extended { id: u32::MAX }));
}

#[test]
fn a_payload_short_of_its_fields_is_a_bad_message() {
    let least: [(u8, usize); 19] = [
        (1, 1),
        (3, 12),
        (4, 8),
        (5, 20),
        (6, 20),
        (7, 8),
        (8, 8),
        (9, 4),
        (10, 4),
        (11, 8),
        (12, 8),
        (13, 8),
        (14, 8),
        (15, 8),
        (16, 8),
        (17, 8),
        (18, 12),
        (20, 4),
        (200, 4),
    ];
    for (opcode, min) in least {
        for len in 0..min {
            let payload = vec![0u8; len];
            let bytes = frame_message(opcode, &payload).unwrap();
            assert_eq!(
                Request::try_from(bytes.as_slice()),
                Err(Error::BadMessage),
                "opcode {} with {} bytes",
                opcode,
                len
            );
        }
        let payload = vec![0u8; min];
        let bytes = frame_message(opcode, &payload).unwrap();
        if opcode == 10 {
            assert_eq!(
                Request::try_from(bytes.as_slice()),
                Err(Error::Unimplemented)
            );
        } else {
            assert!(Request::try_from(bytes.as_slice()).is_ok());
        }
        for cut in 0..bytes.len() {
            assert_eq!(
                Request::try_from(&bytes[..cut]),
                Err(Error::BadMessage),
                "opcode {} cut to {} bytes",
                opcode,
                cut
            );
        }
    }
}

#[test]
fn an_unknown_opcode_is_unimplemented() {
    for opcode in [0u8, 2, 19, 21, 101, 199, 201, 255] {
        let bytes = frame_message(opcode, &[0, 0, 0, 1]).unwrap();
        assert_eq!(
            Request::try_from(bytes.as_slice()),
            Err(Error::Unimplemented)
        );
    }
    assert_eq!(
        Request::try_from(&[0, 0, 0, 9, 99, 1][..]),
        Err(Error::BadMessage)
    );
}

#[test]
fn bytes_after_the_last_field_are_ignored() {
    assert_eq!(
        Request::try_from(&[0, 0, 0, 5, 1, 0, 0, 0, 3][..]),
        Ok(Request::Init(Init { version: 0 }))
    );
    assert_eq!(
        Request::try_from(&[0, 0, 0, 7, 9, 0, 0, 0, 5, 1, 2, 3, 4][..]),
        Ok(Request::Setstat(Setstat { id: 5 }))
    );
}

#[test]
fn realpath_parse_bytes_wants_a_path_that_can_be_resolved() {
    assert_eq!(
        Realpath::parse_bytes(&[0, 0, 0, 1, 0, 0, 0, 2, b'/', b'a']),
        Ok(Realpath {
            id: 1,
            path: String::from("/a")
        })
    );
    assert_eq!(
        Realpath::parse_bytes(&[0, 0, 0, 1, 0, 0, 0, 0]),
        Err(Error::BadMessage)
    );
    assert_eq!(
        Realpath::parse_bytes(&[0, 0, 0, 1, 0, 0, 0, 3, b'a', 0, b'b']),
        Err(Error::BadMessage)
    );
    assert_eq!(
        Realpath::parse_bytes(&[0, 0, 0, 1, 0, 0, 0, 3, b'a']),
        Err(Error::BadMessage)
    );
    assert_eq!(
        Realpath::try_from(&[0, 0, 0, 1, 0, 0, 0, 0][..]),
        Ok(Realpath {
            id: 1,
            path: String::new()
        })
    );
    assert!(!Realpath {
        id: 0,
        path: String::from("a\0")
    }
    .is_well_formed());
    assert!(Realpath {
        id: 0,
        path: String::from(".")
    }
    .is_well_formed());
}

#[test]
fn status_on_the_wire() {
    let response = Response::status(7, StatusCode::Okay);
    assert_eq!(
        response.encode(),
        Ok(vec![
            0, 0, 0, 24, 101, 0, 0, 0, 7, 0, 0, 0, 0, 0, 0, 0, 7, b'S', b'u', b'c', b'c', b'e',
            b's', b's', 0, 0, 0, 0
        ])
    );
}

#[test]
fn fsetstat_is_refused_by_the_decoder() {
    assert_eq!(
        Fsetstat::try_from(&[0, 0, 0, 1, 0, 0, 0, 1, b'h', 0, 0, 0, 0][..]),
        Err(Error::Unimplemented)
    );
    assert_eq!(
        Fsetstat::try_from(&[0, 0, 0, 1][..]),
        Err(Error::Unimplemented)
    );
    assert_eq!(Fsetstat::try_from(&[0, 0, 1][..]), Err(Error::BadMessage));
    assert_eq!(Fsetstat::try_from(&[][..]), Err(Error::BadMessage));
    let written = Request::Fsetstat(Fsetstat { id: 8 }).encode().unwrap();
    assert_eq!(written, vec![0, 0, 0, 5, 10, 0, 0, 0, 8]);
    assert_eq!(
        Request::try_from(written.as_slice()),
        Err(Error::Unimplemented)
    );
    assert_eq!(
        Request::try_from(&[0, 0, 0, 3, 10, 0, 0][..]),
        Err(Error::BadMessage)
    );
}

#[test]
fn status_parse_bytes_takes_no_status() {
    let payload = Status::new(9, StatusCode::Okay).payload().unwrap();
    assert_eq!(Status::parse_bytes(&payload), Err(Error::Failure));
    assert_eq!(
        Status::parse_bytes(&[0, 0, 0, 1, 0, 0, 0, 4, 0, 0, 0, 1, b'x', 0, 0, 0, 2, b'e', b'n']),
        Err(Error::Failure)
    );
    assert_eq!(Status::parse_bytes(&[]), Err(Error::BadMessage));
    assert_eq!(
        Status::parse_bytes(&[0, 0, 0, 1, 0, 0, 0, 10, 0, 0, 0, 0, 0, 0, 0, 0]),
        Err(Error::BadMessage)
    );
    assert_eq!(
        Status::parse_bytes(&[0, 0, 0, 1, 0, 0, 0, 4, 0, 0, 0, 0]),
        Err(Error::BadMessage)
    );
}

#[test]
fn status_try_from_reads_what_payload_writes() {
    let codes = [
        StatusCode::Okay,
        StatusCode::Eof,
        StatusCode::NoSuchFile,
        StatusCode::PermissionDenied,
        StatusCode::Failure,
        StatusCode::BadMessage,
        StatusCode::NoConnection,
        StatusCode::ConnectionLost,
        StatusCode::OpUnsupported,
        StatusCode::InvalidHandle,
    ];
    for (number, code) in codes.iter().enumerate() {
        assert_eq!(code.code(), number as u32);
        assert_eq!(StatusCode::from_code(number as u32), Some(*code));
        let status = Status::new(9, *code);
        assert_eq!(status.error_message, code.message());
        let payload = status.payload().unwrap();
        assert_eq!(Status::try_from(payload.as_slice()), Ok(status));
    }
    assert_eq!(StatusCode::from_code(10), None);
    assert_eq!(
        Status::try_from(&[0, 0, 0, 1, 0, 0, 0, 10, 0, 0, 0, 0, 0, 0, 0, 0][..]),
        Err(Error::BadMessage)
    );
    assert_eq!(
        Status::try_from(&[0, 0, 0, 1, 0, 0, 0, 4, 0, 0, 0, 0][..]),
        Err(Error::BadMessage)
    );
    assert_eq!(
        Status::try_from(
            &[0, 0, 0, 1, 0, 0, 0, 4, 0, 0, 0, 1, b'x', 0, 0, 0, 2, b'e', b'n'][..]
        ),
        Ok(Status {
            id: 1,
            status_code: StatusCode::Failure,
            error_message: String::from("x")
        })
    );
}

#[test]
fn errors_map_to_fixed_status_codes() {
    assert_eq!(Error::BadMessage.status_code(), StatusCode::BadMessage);
    assert_eq!(Error::Unimplemented.status_code(), StatusCode::OpUnsupported);
    assert_eq!(Error::NoSuchHandle.status_code(), StatusCode::InvalidHandle);
    assert_eq!(Error::Failure.status_code(), StatusCode::Failure);
    assert_eq!(Error::Fatal.status_code(), StatusCode::Failure);
    assert_eq!(
        Error::StorageFailure {
            kind: StorageErrorKind::NotFound
        }
        .status_code(),
        StatusCode::NoSuchFile
    );
    assert_eq!(
        Error::StorageFailure {
            kind: StorageErrorKind::PermissionDenied
        }
        .status_code(),
        StatusCode::PermissionDenied
    );
    assert_eq!(
        Error::StorageFailure {
            kind: StorageErrorKind::Other
        }
        .status_code(),
        StatusCode::Failure
    );
}

#[test]
fn version_handle_and_data_on_the_wire() {
    assert_eq!(
        Response::Version(Version { version: 3 }).encode(),
        Ok(vec![0, 0, 0, 5, 2, 0, 0, 0, 3])
    );
    assert_eq!(
        Response::Handle(dray::protocol::response::handle::Handle {
            id: 1,
            handle: String::from("ab")
        })
        .encode(),
        Ok(vec![0, 0, 0, 11, 102, 0, 0, 0, 1, 0, 0, 0, 2, b'a', b'b'])
    );
    assert_eq!(
        Response::Data(Data {
            id: 2,
            data: vec![5, 6, 7]
        })
        .encode(),
        Ok(vec![0, 0, 0, 12, 103, 0, 0, 0, 2, 0, 0, 0, 3, 5, 6, 7])
    );
}

#[test]
fn attrs_on_the_wire() {
    let response = Response::Attrs(Attrs {
        id: 3,
        file: file("ignored", 0x0102, true),
    });
    assert_eq!(
        response.encode(),
        Ok(vec![
            0, 0, 0, 29, 105, 0, 0, 0, 3, // frame, opcode, id
            0, 0, 0, 0x0d, // flags
            0, 0, 0, 0, 0, 0, 1, 2, // size
            0, 0, 0x41, 0xa4, // directory, rw-r--r--
            1, 2, 3, 4, // access time
            1, 2, 3, 4, // modification time
        ])
    );
}

#[test]
fn name_on_the_wire() {
    let response = Response::Name(Name {
        id: 4,
        files: vec![file("a", 1, false), file("bc", 2, true)],
    });
    let mut expected = vec![0, 0, 0, 79, 104, 0, 0, 0, 4, 0, 0, 0, 2];
    expected.extend_from_slice(&[0, 0, 0, 1, b'a', 0, 0, 0, 1, b'a']);
    expected.extend_from_slice(&[0, 0, 0, 0x0d, 0, 0, 0, 0, 0, 0, 0, 1]);
    expected.extend_from_slice(&[0, 0, 0x81, 0xa4, 1, 2, 3, 4, 1, 2, 3, 4]);
    expected.extend_from_slice(&[0, 0, 0, 2, b'b', b'c', 0, 0, 0, 2, b'b', b'c']);
    expected.extend_from_slice(&[0, 0, 0, 0x0d, 0, 0, 0, 0, 0, 0, 0, 2]);
    expected.extend_from_slice(&[0, 0, 0x41, 0xa4, 1, 2, 3, 4, 1, 2, 3, 4]);
    assert_eq!(response.encode(), Ok(expected));
    assert_eq!(
        Response::Name(Name {
            id: 4,
            files: vec![]
        })
        .encode(),
        Ok(vec![0, 0, 0, 9, 104, 0, 0, 0, 4, 0, 0, 0, 0])
    );
}

#[test]
fn only_the_low_permission_bits_go_on_the_wire() {
    let mut f = file("x", 0, false);
    f.permissions = 0xffff_f1ff;
    let mut buf = vec![];
    f.put_attrs(&mut buf);
    assert_eq!(&buf[12..16], &[0, 0, 0x81, 0xff]);
}

#[test]
fn to_bytes_is_the_encoding_where_there_is_one() {
    let response = Response::status(1, StatusCode::Eof);
    assert_eq!(Ok(response.to_bytes()), response.encode());
    assert_eq!(response.id(), 1);
    assert_eq!(Response::Version(Version { version: 3 }).id(), 0);
}

#[test]
fn handle_names_are_thirty_two_hex_digits() {
    assert_eq!(
        render_handle(0x0123456789abcdef, 0x2a),
        "0123456789abcdef000000000000002a"
    );
    assert_eq!(
        parse_handle_name("0123456789abcdef000000000000002a"),
        Some((0x0123456789abcdef, 0x2a))
    );
    assert_eq!(
        parse_handle_name(&render_handle(u64::MAX, u64::MAX)),
        Some((u64::MAX, u64::MAX))
    );
    assert_eq!(parse_handle_name(&render_handle(0, 0)), Some((0, 0)));
}

#[test]
fn other_text_is_no_handle_name() {
    assert_eq!(parse_handle_name(""), None);
    assert_eq!(parse_handle_name("HANDLE"), None);
    assert_eq!(parse_handle_name("0123456789abcdef000000000000002"), None);
    assert_eq!(parse_handle_name("0123456789abcdef000000000000002a0"), None);
    assert_eq!(parse_handle_name("0123456789ABCDEF000000000000002a"), None);
    assert_eq!(parse_handle_name("0123456789abcdeg000000000000002a"), None);
    assert_eq!(parse_handle_name("ééééééééééééééééé"), None);
}
