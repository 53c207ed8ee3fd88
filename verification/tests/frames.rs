use bytes::BytesMut;
use postgres_raw::client::Client;
use postgres_raw::describe::{describe, internal_describe, DescribeTarget};
use postgres_raw::error::{Error, ErrorKind};
use postgres_raw::query::{
    bind, encode_bind, execute, internal_bind, internal_prepare, prepare, sync,
};
use postgres_raw::simple_query::{encode, internal_simple_query, simple_query};
use postgres_raw::statement::Statement;

fn ok<T>(r: Result<T, Error>) -> T {
    match r {
        Ok(value) => value,
        Err(error) => panic!("unexpected error: {:?}", error.kind()),
    }
}

fn kind_of_err<T>(r: Result<T, Error>) -> ErrorKind {
    match r {
        Ok(_) => panic!("unexpected success"),
        Err(error) => error.kind(),
    }
}

fn pending(client: &mut Client) -> Vec<u8> {
    ok(client.raw_buf(|buf: &mut BytesMut| Ok(buf.to_vec())))
}

fn statement(client: &mut Client, name: &str) -> Statement {
    let made = ok(internal_prepare(client, "SELECT 1", name, &[]));
    let _ = sync(client);
    made
}

const SYNC: [u8; 5] = [b'S', 0, 0, 0, 4];

#[test]
fn sync_with_nothing_pending_is_a_bare_sync_frame() {
    let mut client = Client::new();
    let batch = sync(&mut client);
    assert_eq!(&batch[..], &SYNC[..]);
    assert!(client.is_empty());
    assert_eq!(client.len(), 0);
}

#[test]
fn two_syncs_in_a_row_each_ship_a_bare_sync_frame() {
    let mut client = Client::new();
    let first = sync(&mut client);
    let second = sync(&mut client);
    assert_eq!(&first[..], &SYNC[..]);
    assert_eq!(&second[..], &SYNC[..]);
}

#[test]
fn parse_frame_without_types() {
    let mut client = Client::new();
    let made = ok(prepare::<Error>(&mut client, "SELECT 1", "s", &[]));
    assert_eq!(made.name(), "s");
    assert!(made.param_types().is_empty());
    let mut expected = vec![b'P', 0, 0, 0, 17, b's', 0];
    expected.extend_from_slice(b"SELECT 1\0");
    expected.extend_from_slice(&[0, 0]);
    assert_eq!(pending(&mut client), expected);
    assert_eq!(client.len(), expected.len());
    assert!(!client.is_empty());
}

#[test]
fn parse_frame_with_types() {
    let mut client = Client::new();
    let made = ok(internal_prepare(&mut client, "SELECT 1", "s", &[23, 0x0102_0304]));
    assert_eq!(made.param_types(), &[23, 0x0102_0304][..]);
    let mut expected = vec![b'P', 0, 0, 0, 25, b's', 0];
    expected.extend_from_slice(b"SELECT 1\0");
    expected.extend_from_slice(&[0, 2, 0, 0, 0, 23, 1, 2, 3, 4]);
    assert_eq!(pending(&mut client), expected);
}

#[test]
fn parse_frame_for_the_unnamed_statement() {
    let mut client = Client::new();
    let made = ok(internal_prepare(&mut client, "", "", &[]));
    assert_eq!(made.name(), "");
    assert_eq!(pending(&mut client), vec![b'P', 0, 0, 0, 8, 0, 0, 0, 0]);
}

#[test]
fn parse_frame_carries_names_that_are_not_ascii() {
    let mut client = Client::new();
    let made = ok(internal_prepare(&mut client, "q", "\u{e9}", &[]));
    assert_eq!(made.name(), "\u{e9}");
    assert_eq!(
        pending(&mut client),
        vec![b'P', 0, 0, 0, 11, 0xc3, 0xa9, 0, b'q', 0, 0, 0]
    );
}

#[test]
fn prepare_with_a_zero_byte_in_the_name_fails_and_leaves_pending_alone() {
    let mut client = Client::new();
    ok(internal_describe(&mut client, &DescribeTarget::Statement("a".to_string())));
    let before = pending(&mut client);
    let r = internal_prepare(&mut client, "SELECT 1", "s\0t", &[]);
    assert_eq!(kind_of_err(r), ErrorKind::Encode);
    assert_eq!(pending(&mut client), before);
}

#[test]
fn prepare_with_a_zero_byte_in_the_query_fails_and_leaves_pending_alone() {
    let mut client = Client::new();
    ok(internal_describe(&mut client, &DescribeTarget::Statement("a".to_string())));
    let before = pending(&mut client);
    let r = prepare::<Error>(&mut client, "SELECT\0 1", "s", &[]);
    assert_eq!(kind_of_err(r), ErrorKind::Encode);
    assert_eq!(pending(&mut client), before);
}

#[test]
fn prepare_with_too_many_types_fails_and_leaves_pending_alone() {
    let mut client = Client::new();
    ok(internal_describe(&mut client, &DescribeTarget::Statement("a".to_string())));
    let before = pending(&mut client);
    let types = vec![23u32; 65536];
    let r = internal_prepare(&mut client, "SELECT 1", "s", &types);
    assert_eq!(kind_of_err(r), ErrorKind::Encode);
    assert_eq!(pending(&mut client), before);
}

#[test]
fn prepare_with_the_most_types_succeeds() {
    let mut client = Client::new();
    let types = vec![23u32; 65535];
    let made = ok(internal_prepare(&mut client, "", "", &types));
    assert_eq!(made.param_types().len(), 65535);
    let bytes = pending(&mut client);
    assert_eq!(bytes.len(), 1 + 4 + 2 + 2 + 4 * 65535);
    assert_eq!(&bytes[..9], &[b'P', 0, 4, 0, 4, 0, 0, 0xff, 0xff][..]);
}

#[test]
fn bind_frame_with_a_value_and_a_null() {
    let mut client = Client::new();
    let made = statement(&mut client, "s");
    let params = [Some(BytesMut::from(&[0u8, 0, 0, 42][..])), None];
    let portal = ok(bind::<Error>(&mut client, made, "p", &params));
    assert_eq!(portal.name(), "p");
    assert_eq!(portal.statement().name(), "s");
    let expected = vec![
        b'B', 0, 0, 0, 30, b'p', 0, b's', 0, 0, 1, 0, 1, 0, 2, 0, 0, 0, 4, 0, 0, 0, 42, 0xff,
        0xff, 0xff, 0xff, 0, 1, 0, 1,
    ];
    assert_eq!(pending(&mut client), expected);
}

#[test]
fn bind_frame_without_parameters() {
    let mut client = Client::new();
    let made = statement(&mut client, "");
    let portal = ok(internal_bind(&mut client, made, "", &[]));
    assert_eq!(portal.name(), "");
    assert_eq!(
        pending(&mut client),
        vec![b'B', 0, 0, 0, 16, 0, 0, 0, 1, 0, 1, 0, 0, 0, 1, 0, 1]
    );
}

#[test]
fn bind_frame_with_an_empty_value_is_not_null() {
    let mut client = Client::new();
    let made = statement(&mut client, "");
    ok(internal_bind(&mut client, made, "", &[Some(BytesMut::new())]));
    assert_eq!(
        pending(&mut client),
        vec![b'B', 0, 0, 0, 20, 0, 0, 0, 1, 0, 1, 0, 1, 0, 0, 0, 0, 0, 1, 0, 1]
    );
}

#[test]
fn bind_with_a_zero_byte_in_the_name_fails_and_leaves_pending_alone() {
    let mut client = Client::new();
    let made = ok(internal_prepare(&mut client, "SELECT 1", "s", &[]));
    let before = pending(&mut client);
    let r = bind::<Error>(&mut client, made, "p\0", &[Some(BytesMut::from("foo"))]);
    assert_eq!(kind_of_err(r), ErrorKind::Encode);
    assert_eq!(pending(&mut client), before);
}

#[test]
fn bind_with_too_many_parameters_fails_and_leaves_pending_alone() {
    let mut client = Client::new();
    let made = statement(&mut client, "s");
    let params: Vec<Option<BytesMut>> = (0..65536).map(|_| None).collect();
    let r = internal_bind(&mut client, made, "p", &params);
    assert_eq!(kind_of_err(r), ErrorKind::Encode);
    assert!(client.is_empty());
}

#[test]
fn encode_bind_appends_to_what_the_buffer_holds() {
    let mut client = Client::new();
    let made = statement(&mut client, "s");
    let mut buf = BytesMut::from(&b"xy"[..]);
    ok(encode_bind(&made, &[Some(BytesMut::from("foo"))], "p", &mut buf));
    let expected = vec![
        b'x', b'y', b'B', 0, 0, 0, 25, b'p', 0, b's', 0, 0, 1, 0, 1, 0, 1, 0, 0, 0, 3, b'f', b'o',
        b'o', 0, 1, 0, 1,
    ];
    assert_eq!(&buf[..], &expected[..]);
}

#[test]
fn encode_bind_that_fails_keeps_what_the_buffer_held() {
    let mut client = Client::new();
    let made = statement(&mut client, "s");
    let mut buf = BytesMut::from(&b"xy"[..]);
    let r = encode_bind(&made, &[], "p\0q", &mut buf);
    assert_eq!(kind_of_err(r), ErrorKind::Encode);
    assert_eq!(&buf[..2], &b"xy"[..]);
}

#[test]
fn describe_frames() {
    let mut client = Client::new();
    ok(describe::<Error>(&mut client, DescribeTarget::Statement("s".to_string())));
    ok(describe::<Error>(&mut client, DescribeTarget::Portal("p".to_string())));
    assert_eq!(
        pending(&mut client),
        vec![b'D', 0, 0, 0, 7, b'S', b's', 0, b'D', 0, 0, 0, 7, b'P', b'p', 0]
    );
}

#[test]
fn describe_with_a_zero_byte_fails_and_leaves_pending_alone() {
    let mut client = Client::new();
    ok(internal_describe(&mut client, &DescribeTarget::Statement("s".to_string())));
    let before = pending(&mut client);
    let r = describe::<Error>(&mut client, DescribeTarget::Portal("\0".to_string()));
    assert_eq!(kind_of_err(r), ErrorKind::Encode);
    assert_eq!(pending(&mut client), before);
    let r = internal_describe(&mut client, &DescribeTarget::Statement("a\0".to_string()));
    assert_eq!(kind_of_err(r), ErrorKind::Encode);
    assert_eq!(pending(&mut client), before);
}

#[test]
fn execute_frames() {
    let mut client = Client::new();
    let made = statement(&mut client, "s");
    let portal = ok(internal_bind(&mut client, made, "p", &[]));
    let _ = sync(&mut client);
    ok(execute::<Error>(&mut client, &portal, 0));
    ok(execute::<Error>(&mut client, &portal, 0x0102_0304));
    ok(execute::<Error>(&mut client, &portal, -2));
    let expected = vec![
        b'E', 0, 0, 0, 10, b'p', 0, 0, 0, 0, 0, b'E', 0, 0, 0, 10, b'p', 0, 1, 2, 3, 4, b'E', 0, 0,
        0, 10, b'p', 0, 0xff, 0xff, 0xff, 0xfe,
    ];
    assert_eq!(pending(&mut client), expected);
}

#[test]
fn sync_ships_the_frames_in_the_order_they_were_appended() {
    let mut client = Client::new();
    let made = ok(internal_prepare(&mut client, "SELECT 1", "s", &[]));
    let portal = ok(internal_bind(&mut client, made, "p", &[]));
    ok(internal_describe(&mut client, &DescribeTarget::Portal("p".to_string())));
    ok(execute::<Error>(&mut client, &portal, 0));
    let mut expected = pending(&mut client);
    assert_eq!(expected[0], b'P');
    assert_eq!(expected[18], b'B');
    assert_eq!(expected[37], b'D');
    assert_eq!(expected[45], b'E');
    assert_eq!(expected.len(), 56);
    expected.extend_from_slice(&SYNC);
    let batch = sync(&mut client);
    assert_eq!(&batch[..], &expected[..]);
    assert!(client.is_empty());
    let next = sync(&mut client);
    assert_eq!(&next[..], &SYNC[..]);
}

#[test]
fn simple_query_frame_is_apart_from_what_is_pending() {
    let mut client = Client::new();
    ok(internal_describe(&mut client, &DescribeTarget::Statement("s".to_string())));
    let before = pending(&mut client);
    let batch = ok(simple_query::<Error>(&mut client, "SELECT 1"));
    let mut expected = vec![b'Q', 0, 0, 0, 13];
    expected.extend_from_slice(b"SELECT 1\0");
    assert_eq!(&batch[..], &expected[..]);
    assert_eq!(pending(&mut client), before);
    let batch = ok(internal_simple_query(&mut client, ""));
    assert_eq!(&batch[..], &[b'Q', 0, 0, 0, 5, 0][..]);
    let batch = ok(encode(&mut client, ";"));
    assert_eq!(&batch[..], &[b'Q', 0, 0, 0, 6, b';', 0][..]);
    assert_eq!(pending(&mut client), before);
}

#[test]
fn simple_query_with_a_zero_byte_fails_and_leaves_pending_alone() {
    let mut client = Client::new();
    ok(internal_describe(&mut client, &DescribeTarget::Statement("s".to_string())));
    let before = pending(&mut client);
    assert_eq!(kind_of_err(simple_query::<Error>(&mut client, "SELECT\0")), ErrorKind::Encode);
    assert_eq!(kind_of_err(internal_simple_query(&mut client, "\0")), ErrorKind::Encode);
    assert_eq!(kind_of_err(encode(&mut client, "a\0b")), ErrorKind::Encode);
    assert_eq!(pending(&mut client), before);
}

#[test]
fn with_buf_cuts_back_what_a_failing_writer_left() {
    let mut client = Client::new();
    ok(internal_describe(&mut client, &DescribeTarget::Statement("s".to_string())));
    let before = pending(&mut client);
    let r: Result<(), Error> = client.with_buf(|buf: &mut BytesMut| {
        buf.extend_from_slice(b"half a frame");
        Err(Error::UnexpectedMessage)
    });
    assert_eq!(kind_of_err(r), ErrorKind::UnexpectedMessage);
    assert_eq!(pending(&mut client), before);
    let r: Result<(), Error> = client.raw_buf(|buf: &mut BytesMut| {
        buf.extend_from_slice(b"half a frame");
        Err(Error::Closed)
    });
    assert_eq!(kind_of_err(r), ErrorKind::Closed);
    assert_eq!(pending(&mut client), before);
}

#[test]
fn with_buf_keeps_what_a_writer_that_succeeds_left() {
    let mut client = Client::new();
    let n = ok(client.raw_buf(|buf: &mut BytesMut| {
        buf.extend_from_slice(b"abc");
        Ok(buf.len())
    }));
    assert_eq!(n, 3);
    assert_eq!(pending(&mut client), b"abc".to_vec());
    let taken = ok(client.with_buf(|buf: &mut BytesMut| Ok(buf.split().freeze())));
    assert_eq!(&taken[..], &b"abc"[..]);
    assert!(client.is_empty());
}
