use rbus::protocol::{
    channel_name, queue_name, Arguments, Error, Container, ObjectID, Output, Reply, Request,
    Response, RpcError, Values,
};
use rbus::wire::Wire;

fn three() -> Arguments {
    let mut args = Arguments::new();
    args.add(1i64).unwrap();
    args.add(2i64).unwrap();
    args.add(3i64).unwrap();
    args
}

#[test]
fn returns_three_arguments() {
    let args = three();
    assert_eq!(args.len(), 3);
}

#[test]
fn inputs() {
    let args = three();
    assert_eq!(args.len(), 3);

    let (a, b, c): (i64, i64, i64) = args.values().unwrap();
    assert_eq!(a, 1);
    assert_eq!(b, 2);
    assert_eq!(c, 3);
}

#[test]
fn object_id_text_with_and_without_version() {
    assert_eq!(ObjectID::new("calculator", "1.0").to_string(), "calculator@1.0");
    assert_eq!(ObjectID::new("calculator", "").to_string(), "calculator");
    let id = ObjectID::new("tester", "2");
    assert_eq!(id.name, "tester");
    assert_eq!(id.version, "2");
    let copy = id.duplicate();
    assert_eq!(copy.to_string(), "tester@2");
}

#[test]
fn integers_are_messagepack_encoded() {
    // positive fixint, negative fixint, int 64
    assert_eq!(1i64.encode().unwrap(), vec![0x01]);
    assert_eq!((-1i64).encode().unwrap(), vec![0xff]);
    assert_eq!(300u64.encode().unwrap(), vec![0xcd, 0x01, 0x2c]);
    assert_eq!(true.encode().unwrap(), vec![0xc3]);
    assert_eq!(String::from("ab").encode().unwrap(), vec![0xa2, b'a', b'b']);
}

#[test]
fn decoding_the_wrong_kind_fails() {
    let mut args = Arguments::new();
    args.add(String::from("hello")).unwrap();
    let r: Result<i64, Error> = args.decode(0);
    assert!(r.is_err());
    let s: String = args.decode(0).unwrap();
    assert_eq!(s, "hello");
    let b = <bool as Wire>::decode(&vec![0xc2]).unwrap();
    assert!(!b);
    assert!(<u64 as Wire>::decode(&vec![0xff]).is_err());
    let e = <i64 as Wire>::decode(&vec![0xa1, b'x']).unwrap_err();
    assert!(!e.message.is_empty());
}

#[test]
fn values_of_one_two_and_four() {
    let mut args = Arguments::new();
    args.add(String::from("x")).unwrap();
    args.add(7u64).unwrap();
    args.add(false).unwrap();
    args.add(-5i64).unwrap();
    let (s,): (String,) = args.values().unwrap();
    assert_eq!(s, "x");
    let (s, n): (String, u64) = args.values().unwrap();
    assert_eq!((s.as_str(), n), ("x", 7));
    let (s, n, b, i): (String, u64, bool, i64) = args.values().unwrap();
    assert_eq!((s.as_str(), n, b, i), ("x", 7, false, -5));
    let wrong: Result<(u64, u64), Error> = args.values();
    assert!(wrong.is_err());
}

#[test]
fn items_round_trip_through_raw_bytes() {
    let args = three();
    let items = args.into_items();
    assert_eq!(items, vec![vec![1u8], vec![2u8], vec![3u8]]);
    let again = Arguments::from_items(items);
    assert_eq!(again.len(), 3);
    assert_eq!(again.get(1), &vec![2u8]);
    let mut raw = Arguments::new();
    raw.push(vec![0x05]);
    let (v,): (i64,) = raw.values().unwrap();
    assert_eq!(v, 5);
}

#[test]
fn request_answers_on_its_own_id() {
    let req = Request::new(ObjectID::new("calculator", "1.0"), "Add");
    assert_eq!(req.reply_to, req.id);
    assert!(!req.id.is_empty());
    assert_eq!(req.method, "Add");
    assert_eq!(req.arguments.len(), 0);
    let other = Request::new(ObjectID::new("calculator", "1.0"), "Add");
    assert_ne!(req.id, other.id);
    let req = req.arg(1i64).unwrap().arg(String::from("b")).unwrap();
    assert_eq!(req.arguments.len(), 2);
    let (a, b): (i64, String) = req.arguments.values().unwrap();
    assert_eq!((a, b.as_str()), (1, "b"));
}

#[test]
fn response_is_error_only_with_text() {
    let r = Response { id: "x".into(), output: Output::new(), error: None };
    assert!(!r.is_error());
    let r = Response { id: "x".into(), output: Output::new(), error: Some(String::new()) };
    assert!(!r.is_error());
    let r = Response { id: "x".into(), output: Output::new(), error: Some("boom".into()) };
    assert!(r.is_error());
}

#[test]
fn error_messages() {
    assert_eq!(Error::new("cannot divide by zero").message, "cannot divide by zero");
    assert_eq!(RpcError::UnknownMethod("Add".into()).message(), "unknown method 'Add'");
    assert_eq!(RpcError::UnknownObject("calc@1.0".into()).message(), "unknown object 'calc@1.0'");
    assert_eq!(RpcError::Protocol("no connection".into()).message(), "no connection");
    assert_eq!(RpcError::Call(Error::new("bad")).message(), "bad");
}

#[test]
fn queue_and_channel_names() {
    assert_eq!(queue_name("server", "calculator@1.0"), "server.calculator@1.0");
    assert_eq!(channel_name("full-test", "streamer@1.0", "test"), "full-test.streamer@1.0.test");
}

#[test]
fn only_binary_replies_have_a_payload() {
    assert_eq!(Reply::Binary(vec![1, 2]).payload().unwrap(), vec![1, 2]);
    let e = Reply::NotBinary.payload().unwrap_err();
    assert_eq!(e.message, "expecting binary data");
}

#[test]
fn integer_forms_by_size() {
    assert_eq!((-33i64).encode().unwrap(), vec![0xd0, 0xdf]);
    assert_eq!((-32i64).encode().unwrap(), vec![0xe0]);
    assert_eq!(127i64.encode().unwrap(), vec![0x7f]);
    assert_eq!(200i64.encode().unwrap(), vec![0xcc, 200]);
    assert_eq!((-40000i64).encode().unwrap(), vec![0xd2, 0xff, 0xff, 0x63, 0xc0]);
    assert_eq!(70000u64.encode().unwrap(), vec![0xce, 0x00, 0x01, 0x11, 0x70]);
    assert_eq!(
        (1u64 << 40).encode().unwrap(),
        vec![0xcf, 0x00, 0x00, 0x01, 0x00, 0x00, 0x00, 0x00, 0x00]
    );
    assert_eq!(
        i64::MIN.encode().unwrap(),
        vec![0xd3, 0x80, 0x00, 0x00, 0x00, 0x00, 0x00, 0x00, 0x00]
    );
    assert_eq!(false.encode().unwrap(), vec![0xc2]);
    let long = "x".repeat(40);
    let bytes = long.encode().unwrap();
    assert_eq!(&bytes[..2], &[0xd9, 40]);
    assert_eq!(bytes.len(), 42);
    let (back,): (String,) = Arguments::from_items(vec![bytes]).values().unwrap();
    assert_eq!(back, long);
}

#[test]
fn request_id_is_a_uuid_v4_text() {
    let req = Request::new(ObjectID::new("a", ""), "m");
    let id: Vec<char> = req.id.chars().collect();
    assert_eq!(id.len(), 36);
    for (i, c) in id.iter().enumerate() {
        if i == 8 || i == 13 || i == 18 || i == 23 {
            assert_eq!(*c, '-');
        } else {
            assert!(c.is_ascii_digit() || ('a'..='f').contains(c));
        }
    }
    assert_eq!(id[14], '4');
    assert!(matches!(id[19], '8' | '9' | 'a' | 'b'));
}

#[test]
fn values_fail_with_the_first_failure() {
    let mut args = Arguments::new();
    args.add(1i64).unwrap();
    args.add(String::from("x")).unwrap();
    args.add(true).unwrap();
    let first = args.decode::<i64>(1).unwrap_err();
    let second = args.decode::<i64>(2).unwrap_err();
    assert_ne!(first.message, second.message);
    let r: Result<(i64, i64, i64), Error> = args.values();
    assert_eq!(r.unwrap_err().message, first.message);
    let r: Result<(i64, String, i64), Error> = args.values();
    assert_eq!(r.unwrap_err().message, second.message);
}
