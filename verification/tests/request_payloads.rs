use bytes::{BufMut, Bytes, BytesMut};
use dray::error::Error;
use dray::protocol::request::handle::Handle;
use dray::protocol::request::init::Init;
use dray::protocol::request::write::Write;
use dray::try_buf::try_put_str;
use std::convert::TryInto;

#[test]
fn test_parse_handle() {
    let mut handle_bytes = vec![];

    handle_bytes.put_u32(0x01); // id
    try_put_str(&mut handle_bytes, "HANDLE").unwrap(); // handle

    assert_eq!(
        Handle::try_from(&mut Bytes::from(handle_bytes)),
        Ok(Handle {
            id: 0x01,
            handle: String::from("HANDLE")
        })
    )
}

#[test]
fn test_parse_handle_with_invalid_id() {
    let mut handle_bytes = BytesMut::new();

    handle_bytes.put_u8(0x01); // bad id

    assert_eq!(
        Handle::try_from(&mut handle_bytes.freeze()),
        Err(Error::BadMessage)
    )
}

#[test]
fn test_parse_handle_with_invalid_handle() {
    let mut handle_bytes = BytesMut::new();

    handle_bytes.put_u32(0x01); // id
    handle_bytes.put_u32(0x01); // bad handle length

    assert_eq!(
        Handle::try_from(&mut handle_bytes.freeze()),
        Err(Error::BadMessage)
    )
}

#[test]
fn test_parse_init_message() {
    let mut init_bytes = BytesMut::new();

    init_bytes.put_u8(0x03);

    assert_eq!(
        Init::try_from(&mut init_bytes.freeze()),
        Ok(Init { version: 0x03 })
    );
}

#[test]
fn test_parse_invalid_message() {
    let init_bytes = BytesMut::new();

    assert_eq!(
        Init::try_from(&mut init_bytes.freeze()),
        Err(Error::BadMessage)
    );
}

#[test]
fn test_parse_write() {
    let mut write_bytes = vec![];

    write_bytes.put_u32(0x01); // id

    let handle = "handle".as_bytes();
    write_bytes.put_u32(handle.len().try_into().unwrap()); // handle length
    write_bytes.put_slice(handle); // handle

    write_bytes.put_u64(0x02); // offset

    let data = vec![0x01, 0x02];
    write_bytes.put_u32(data.len().try_into().unwrap()); // data length
    write_bytes.put_slice(data.as_slice()); // data

    assert_eq!(
        Write::try_from(write_bytes.as_slice()),
        Ok(Write {
            id: 0x01,
            handle: String::from("handle"),
            offset: 0x02,
            data: Bytes::from(data),
        })
    )
}

#[test]
fn test_parse_write_with_empty_data() {
    assert_eq!(Write::try_from(&vec![][..]), Err(Error::BadMessage));
}

#[test]
fn test_parse_write_with_invalid_id() {
    let mut write_bytes = vec![];

    write_bytes.put_u8(0x01); // id

    assert_eq!(
        Write::try_from(write_bytes.as_slice()),
        Err(Error::BadMessage)
    );
}

#[test]
fn test_parse_write_with_invalid_handle() {
    let mut write_bytes = vec![];

    write_bytes.put_u32(0x01); // id
    write_bytes.put_u8(0x02); // invalid handle

    assert_eq!(
        Write::try_from(write_bytes.as_slice()),
        Err(Error::BadMessage)
    );
}

#[test]
fn test_parse_write_with_invalid_offset() {
    let mut write_bytes = vec![];

    write_bytes.put_u32(0x01); // id

    let handle = "handle".as_bytes();
    write_bytes.put_u32(handle.len().try_into().unwrap()); // handle length
    write_bytes.put_slice(handle); // handle

    write_bytes.put_u8(0x02); // invalid offset

    assert_eq!(
        Write::try_from(write_bytes.as_slice()),
        Err(Error::BadMessage)
    );
}

#[test]
fn test_parse_write_with_invalid_data_length() {
    let mut write_bytes = vec![];

    write_bytes.put_u32(0x01); // id

    let handle = "handle".as_bytes();
    write_bytes.put_u32(handle.len().try_into().unwrap()); // handle length
    write_bytes.put_slice(handle); // handle

    write_bytes.put_u64(0x02); // offset
    write_bytes.put_u8(0x01); // invalid data length

    assert_eq!(
        Write::try_from(write_bytes.as_slice()),
        Err(Error::BadMessage)
    );
}

#[test]
fn test_parse_write_with_invalid_data() {
    let mut write_bytes = vec![];

    write_bytes.put_u32(0x01); // id

    let handle = "handle".as_bytes();
    write_bytes.put_u32(handle.len().try_into().unwrap()); // handle length
    write_bytes.put_slice(handle); // handle

    write_bytes.put_u64(0x02); // offset
    write_bytes.put_u32(0x02); // data length
    write_bytes.put_u8(0x01); // invalid data

    assert_eq!(
        Write::try_from(write_bytes.as_slice()),
        Err(Error::BadMessage)
    );
}
