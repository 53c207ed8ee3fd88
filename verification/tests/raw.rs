use bytes::{Bytes, BytesMut};
use postgres_protocol::message::backend::Message;
use postgres_raw::{
    bind, describe, execute, prepare, simple_query, sync, Client, DescribeTarget, Error,
    QueryStream, Row, SimpleColumn, SimpleQueryRow, SimpleQueryStream,
};
use postgres_types::Type;
use std::convert::TryInto;

fn frame(tag: u8, body: &[u8]) -> Vec<u8> {
    let mut bytes = vec![tag];
    bytes.extend_from_slice(&((body.len() + 4) as u32).to_be_bytes());
    bytes.extend_from_slice(body);
    bytes
}

fn command_complete(tag: &str) -> Vec<u8> {
    let mut body = tag.as_bytes().to_vec();
    body.push(0);
    frame(b'C', &body)
}

fn ready_for_query() -> Vec<u8> {
    frame(b'Z', b"I")
}

fn data_row(values: &[Option<&[u8]>]) -> Vec<u8> {
    let mut body = (values.len() as u16).to_be_bytes().to_vec();
    for value in values {
        match value {
            Some(bytes) => {
                body.extend_from_slice(&(bytes.len() as i32).to_be_bytes());
                body.extend_from_slice(bytes);
            }
            None => body.extend_from_slice(&(-1i32).to_be_bytes()),
        }
    }
    frame(b'D', &body)
}

fn row_description(fields: &[(&str, u32, i16)]) -> Vec<u8> {
    let mut body = (fields.len() as u16).to_be_bytes().to_vec();
    for (at, (name, type_oid, format)) in fields.iter().enumerate() {
        body.extend_from_slice(name.as_bytes());
        body.push(0);
        body.extend_from_slice(&16385u32.to_be_bytes());
        body.extend_from_slice(&((at + 1) as i16).to_be_bytes());
        body.extend_from_slice(&type_oid.to_be_bytes());
        body.extend_from_slice(&(-1i16).to_be_bytes());
        body.extend_from_slice(&(-1i32).to_be_bytes());
        body.extend_from_slice(&format.to_be_bytes());
    }
    frame(b'T', &body)
}

/// What a server would send, read message by message and handed to the
/// stream of an extended query.
fn query_stream(served: &[Vec<u8>]) -> Vec<Message> {
    let mut wire = BytesMut::from(&served.concat()[..]);
    let mut items = Vec::new();
    while let Some(message) = Message::parse(&mut wire).unwrap() {
        match QueryStream::poll_next::<Error>(Ok(message)) {
            Some(Ok(message)) => items.push(message),
            _ => panic!("unexpected message"),
        }
    }
    assert!(QueryStream::poll_next::<Error>(Err(Error::Closed)).is_none());
    items
}

/// The same for the stream of a simple query.
fn simple_query_stream(served: &[Vec<u8>]) -> Vec<Message> {
    let mut wire = BytesMut::from(&served.concat()[..]);
    let mut items = Vec::new();
    while let Some(message) = Message::parse(&mut wire).unwrap() {
        match SimpleQueryStream::poll_next::<Error>(Ok(message)) {
            Some(Ok(message)) => items.push(message),
            _ => panic!("unexpected message"),
        }
    }
    assert!(SimpleQueryStream::poll_next::<Error>(Err(Error::Closed)).is_none());
    items
}

fn tags(batch: &Bytes) -> Vec<u8> {
    let mut tags = Vec::new();
    let mut at = 0;
    while at < batch.len() {
        tags.push(batch[at]);
        let len = u32::from_be_bytes(batch[at + 1..at + 5].try_into().unwrap()) as usize;
        at += 1 + len;
    }
    assert_eq!(at, batch.len());
    tags
}

#[test]
fn t_simple_query() {
    let mut client = Client::new();
    let sql = "CREATE TEMPORARY TABLE foo (
                id SERIAL,
                name TEXT
            );
            INSERT INTO foo (name) VALUES ('steven'), ('joe');
            SELECT * FROM foo ORDER BY id;";
    let batch = simple_query::<Error>(&mut client, sql).ok().unwrap();
    assert_eq!(batch[0], b'Q');
    assert_eq!(&batch[5..batch.len() - 1], sql.as_bytes());
    assert_eq!(batch[batch.len() - 1], 0);
    assert_eq!(tags(&batch), vec![b'Q']);

    let messages: Vec<Message> = simple_query_stream(&[
        command_complete("CREATE TABLE"),
        command_complete("INSERT 0 2"),
        row_description(&[("id", 23, 0), ("name", 25, 0)]),
        data_row(&[Some(b"1"), Some(b"steven")]),
        data_row(&[Some(b"2"), Some(b"joe")]),
        command_complete("SELECT 2"),
        ready_for_query(),
    ]);

    assert_eq!(messages.len(), 7);

    let mut itr = messages.into_iter();
    match itr.next().unwrap() {
        Message::CommandComplete(_) => {}
        _ => panic!("unexpected message"),
    }
    match itr.next().unwrap() {
        Message::CommandComplete(_) => {}
        _ => panic!("unexpected message"),
    }
    match itr.next().unwrap() {
        Message::RowDescription(body) => {
            let columns = SimpleColumn::from_row_description_body(body).ok().unwrap();
            assert_eq!(columns[0].name(), "id");
            assert_eq!(columns[0].type_(), &Some(Type::INT4));
            assert_eq!(columns[1].name(), "name");
            assert_eq!(columns[1].type_(), &Some(Type::TEXT));
        }
        _ => panic!("unexpected message"),
    }
    match itr.next().unwrap() {
        Message::DataRow(body) => {
            let row = SimpleQueryRow::new(body).ok().unwrap();
            assert_eq!(row.try_get(0).ok().unwrap(), Some("1"));
            assert_eq!(row.try_get(1).ok().unwrap(), Some("steven"));
        }
        _ => panic!("unexpected message"),
    }
    match itr.next().unwrap() {
        Message::DataRow(body) => {
            let row = SimpleQueryRow::new(body).ok().unwrap();
            assert_eq!(row.try_get(0).ok().unwrap(), Some("2"));
            assert_eq!(row.try_get(1).ok().unwrap(), Some("joe"));
        }
        _ => panic!("unexpected message"),
    }
    match itr.next().unwrap() {
        Message::CommandComplete(_) => {}
        _ => panic!("unexpected message"),
    }
    match itr.next().unwrap() {
        Message::ReadyForQuery(_) => {}
        _ => panic!("unexpected message"),
    }
}

#[test]
fn query_prepare() {
    let mut client = Client::new();

    let insert = prepare::<Error>(
        &mut client,
        "INSERT INTO foo (name) VALUES ($1), ($2)",
        "i",
        &[],
    );
    let select = prepare::<Error>(&mut client, "SELECT id, name FROM foo ORDER BY id", "s", &[]);

    assert!(matches!(insert, Ok(_)));
    assert!(matches!(select, Ok(_)));

    let insert = insert.ok().unwrap();
    assert_eq!(insert.name(), "i");
    assert!(insert.param_types().is_empty());

    let batch = sync(&mut client);
    assert_eq!(tags(&batch), vec![b'P', b'P', b'S']);
    let messages = query_stream(&[frame(b'1', &[]), frame(b'1', &[]), ready_for_query()]);
    assert_eq!(messages.len(), 3);
    assert!(matches!(messages[0], Message::ParseComplete));
    assert!(matches!(messages[2], Message::ReadyForQuery(_)));
}

#[test]
fn query_bind() {
    let mut client = Client::new();

    let insert = prepare::<Error>(
        &mut client,
        "INSERT INTO foo (name) VALUES ($1), ($2)",
        "i",
        &[],
    )
    .ok()
    .unwrap();

    let portal = bind::<Error>(
        &mut client,
        insert,
        "i",
        &[Some(BytesMut::from("foo")), Some(BytesMut::from("foo"))],
    );

    assert!(matches!(portal, Ok(_)));
}

#[test]
fn query_execute_no_data() {
    let mut client = Client::new();

    let insert = prepare::<Error>(
        &mut client,
        "INSERT INTO foo (name) VALUES ($1), ($2)",
        "i",
        &[Type::INT4.oid()],
    )
    .ok()
    .unwrap();
    assert_eq!(insert.param_types(), &[23][..]);

    let id = 1_i32.to_be_bytes();
    let portal = bind::<Error>(
        &mut client,
        insert,
        "i",
        &[
            Some(BytesMut::from(id.as_ref())),
            Some(BytesMut::from("bar")),
        ],
    )
    .ok()
    .unwrap();

    execute::<Error>(&mut client, &portal, 0).ok().unwrap();
    let batch = sync(&mut client);
    assert_eq!(tags(&batch), vec![b'P', b'B', b'E', b'S']);

    let messages: Vec<Message> = query_stream(&[
        frame(b'1', &[]),
        frame(b'2', &[]),
        command_complete("INSERT 0 2"),
        ready_for_query(),
    ]);

    assert_eq!(messages.len(), 4);

    let mut itr = messages.into_iter();
    match itr.next().unwrap() {
        Message::ParseComplete => {}
        _ => panic!("unexpected message"),
    }
    match itr.next().unwrap() {
        Message::BindComplete => {}
        _ => panic!("unexpected message"),
    }
    match itr.next().unwrap() {
        Message::CommandComplete(_) => {}
        _ => panic!("unexpected message"),
    }
    match itr.next().unwrap() {
        Message::ReadyForQuery(_) => {}
        _ => panic!("unexpected message"),
    }
}

#[test]
fn query_execute_with_data_result_binary_format() {
    let mut client = Client::new();

    let select = prepare::<Error>(&mut client, "SELECT * FROM foo WHERE name LIKE $1", "", &[])
        .ok()
        .unwrap();

    let portal = bind::<Error>(&mut client, select, "", &[Some(BytesMut::from("foo%"))])
        .ok()
        .unwrap();

    execute::<Error>(&mut client, &portal, 0).ok().unwrap();
    let batch = sync(&mut client);
    assert_eq!(tags(&batch), vec![b'P', b'B', b'E', b'S']);

    let messages: Vec<Message> = query_stream(&[
        frame(b'1', &[]),
        frame(b'2', &[]),
        data_row(&[Some(&1_i32.to_be_bytes()), Some(b"foo")]),
        data_row(&[Some(&2_i32.to_be_bytes()), Some(b"foobar")]),
        command_complete("SELECT 2"),
        ready_for_query(),
    ]);

    assert_eq!(messages.len(), 6);

    let mut itr = messages.into_iter();
    match itr.next().unwrap() {
        Message::ParseComplete => {}
        _ => panic!("unexpected message"),
    }
    match itr.next().unwrap() {
        Message::BindComplete => {}
        _ => panic!("unexpected message"),
    }
    match itr.next().unwrap() {
        Message::DataRow(body) => {
            let row = Row::new(body).ok().unwrap();
            assert_eq!(
                i32::from_be_bytes(row.get(0).unwrap().try_into().unwrap()),
                1
            );
            assert_eq!(
                String::from_utf8(row.get(1).unwrap().to_vec())
                    .unwrap()
                    .as_str(),
                "foo"
            );
        }
        _ => panic!("unexpected message"),
    }
    match itr.next().unwrap() {
        Message::DataRow(body) => {
            let row = Row::new(body).ok().unwrap();
            assert_eq!(
                i32::from_be_bytes(row.get(0).unwrap().try_into().unwrap()),
                2
            );
            assert_eq!(
                String::from_utf8(row.get(1).unwrap().to_vec())
                    .unwrap()
                    .as_str(),
                "foobar"
            );
        }
        _ => panic!("unexpected message"),
    }
    match itr.next().unwrap() {
        Message::CommandComplete(_) => {}
        _ => panic!("unexpected message"),
    }
    match itr.next().unwrap() {
        Message::ReadyForQuery(_) => {}
        _ => panic!("unexpected message"),
    }
}

#[test]
fn query_execute_with_data_result_text_format() {
    let mut client = Client::new();

    let select = prepare::<Error>(&mut client, "SELECT * FROM foo WHERE name LIKE $1", "", &[])
        .ok()
        .unwrap();

    let portal = bind::<Error>(&mut client, select, "", &[Some(BytesMut::from("foo%"))])
        .ok()
        .unwrap();

    execute::<Error>(&mut client, &portal, 0).ok().unwrap();
    let batch = sync(&mut client);
    assert_eq!(tags(&batch), vec![b'P', b'B', b'E', b'S']);

    let messages: Vec<Message> = query_stream(&[
        frame(b'1', &[]),
        frame(b'2', &[]),
        data_row(&[Some(b"1"), Some(b"foo")]),
        data_row(&[Some(b"2"), Some(b"foobar")]),
        command_complete("SELECT 2"),
        ready_for_query(),
    ]);

    assert_eq!(messages.len(), 6);

    let mut itr = messages.into_iter();
    match itr.next().unwrap() {
        Message::ParseComplete => {}
        _ => panic!("unexpected message"),
    }
    match itr.next().unwrap() {
        Message::BindComplete => {}
        _ => panic!("unexpected message"),
    }
    match itr.next().unwrap() {
        Message::DataRow(body) => {
            let row = Row::new(body).ok().unwrap();
            assert_eq!(
                String::from_utf8(row.get(0).unwrap().to_vec())
                    .unwrap()
                    .as_str(),
                "1"
            );
            assert_eq!(
                String::from_utf8(row.get(1).unwrap().to_vec())
                    .unwrap()
                    .as_str(),
                "foo"
            );
        }
        _ => panic!("unexpected message"),
    }
    match itr.next().unwrap() {
        Message::DataRow(body) => {
            let row = Row::new(body).ok().unwrap();
            assert_eq!(
                String::from_utf8(row.get(0).unwrap().to_vec())
                    .unwrap()
                    .as_str(),
                "2"
            );
            assert_eq!(
                String::from_utf8(row.get(1).unwrap().to_vec())
                    .unwrap()
                    .as_str(),
                "foobar"
            );
        }
        _ => panic!("unexpected message"),
    }
    match itr.next().unwrap() {
        Message::CommandComplete(_) => {}
        _ => panic!("unexpected message"),
    }
    match itr.next().unwrap() {
        Message::ReadyForQuery(_) => {}
        _ => panic!("unexpected message"),
    }
}

#[test]
fn simple_select_one_yields_four_messages() {
    let mut client = Client::new();
    let batch = simple_query::<Error>(&mut client, "SELECT 1").ok().unwrap();
    assert_eq!(&batch[..], &[&[b'Q', 0, 0, 0, 13][..], b"SELECT 1\0"].concat()[..]);
    let messages = simple_query_stream(&[
        row_description(&[("?column?", 23, 0)]),
        data_row(&[Some(b"1")]),
        command_complete("SELECT 1"),
        ready_for_query(),
    ]);
    assert_eq!(messages.len(), 4);
    assert!(matches!(messages[0], Message::RowDescription(_)));
    assert!(matches!(messages[1], Message::DataRow(_)));
    assert!(matches!(messages[2], Message::CommandComplete(_)));
    assert!(matches!(messages[3], Message::ReadyForQuery(_)));
}

#[test]
fn prepared_int4_parameter_comes_back_as_42() {
    let mut client = Client::new();
    let s = prepare::<Error>(&mut client, "SELECT $1::int4", "s", &[]).ok().unwrap();
    let value = 42_i32.to_be_bytes();
    let p = bind::<Error>(&mut client, s, "p", &[Some(BytesMut::from(&value[..]))])
        .ok()
        .unwrap();
    execute::<Error>(&mut client, &p, 0).ok().unwrap();
    let batch = sync(&mut client);
    let mut expected = Vec::new();
    expected.extend_from_slice(&frame(b'P', b"s\0SELECT $1::int4\0\0\0"));
    expected.extend_from_slice(&frame(
        b'B',
        &[b'p', 0, b's', 0, 0, 1, 0, 1, 0, 1, 0, 0, 0, 4, 0, 0, 0, 42, 0, 1, 0, 1],
    ));
    expected.extend_from_slice(&frame(b'E', &[b'p', 0, 0, 0, 0, 0]));
    expected.extend_from_slice(&frame(b'S', &[]));
    assert_eq!(&batch[..], &expected[..]);

    let messages = query_stream(&[
        frame(b'1', &[]),
        frame(b'2', &[]),
        data_row(&[Some(&value)]),
        command_complete("SELECT 1"),
        ready_for_query(),
    ]);
    assert!(matches!(messages[0], Message::ParseComplete));
    assert!(matches!(messages[1], Message::BindComplete));
    let mut rows = 0;
    for message in messages {
        if let Message::DataRow(body) = message {
            let row = Row::new(body).ok().unwrap();
            assert_eq!(i32::from_be_bytes(row.get(0).unwrap().try_into().unwrap()), 42);
            rows += 1;
        }
    }
    assert_eq!(rows, 1);
}

#[test]
fn describe_portal_of_an_insert_yields_no_data() {
    let mut client = Client::new();
    let insert = prepare::<Error>(
        &mut client,
        "INSERT INTO foo (name) VALUES ($1), ($2)",
        "i",
        &[],
    )
    .ok()
    .unwrap();
    let portal = bind::<Error>(
        &mut client,
        insert,
        "i",
        &[Some(BytesMut::from("foo")), Some(BytesMut::from("foo"))],
    )
    .ok()
    .unwrap();
    assert_eq!(portal.name(), "i");
    describe::<Error>(&mut client, DescribeTarget::Portal("i".to_string())).ok().unwrap();
    let batch = sync(&mut client);
    assert_eq!(tags(&batch), vec![b'P', b'B', b'D', b'S']);
    let messages = query_stream(&[
        frame(b'1', &[]),
        frame(b'2', &[]),
        frame(b'n', &[]),
        ready_for_query(),
    ]);
    assert!(matches!(messages[2], Message::NoData));
}

#[test]
fn successive_syncs_each_yield_a_single_ready_for_query() {
    let mut client = Client::new();
    for _ in 0..2 {
        let batch = sync(&mut client);
        assert_eq!(tags(&batch), vec![b'S']);
        let messages = query_stream(&[ready_for_query()]);
        assert_eq!(messages.len(), 1);
        assert!(matches!(messages[0], Message::ReadyForQuery(_)));
    }
}
