use rbus::demo::{hello, ping, CalculatorStub, M};
use rbus::protocol::{Arguments, Container, Values};

fn named(name: &str) -> Arguments {
    let mut a = Arguments::new();
    a.add(String::from(name)).unwrap();
    a
}

#[test]
fn hello_and_ping_greet_by_name() {
    let (h,): (String,) = hello(named("azmy")).unwrap().values().unwrap();
    assert_eq!(h, "hello azmy");
    let (p,): (String,) = ping(named("azmy")).unwrap().values().unwrap();
    assert_eq!(p, "pong azmy");
}

#[test]
fn hello_refuses_a_non_string() {
    let mut a = Arguments::new();
    a.add(3i64).unwrap();
    assert!(hello(a).is_err());
}

#[test]
fn failing_handler() {
    assert_eq!(M::test(Arguments::new()).unwrap_err().message, "failed");
}

#[test]
fn calculator_stub_addresses_calculator() {
    let stub = CalculatorStub::new(42u8);
    assert_eq!(*stub.client(), 42);
    assert_eq!(stub.object().to_string(), "calculator@1.0");
}
