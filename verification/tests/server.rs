use rbus::client::{call_result, request_queue, stream_channel};
use rbus::protocol::{
    Arguments, Error, Container, ObjectID, Output, Request, RpcError, Values,
};
use rbus::server::redis::{
    pull_step, response_for, route, PullAction, PullEvent, Routed, Server, PULL_TIMEOUT,
    RESPONSE_TTL, RETRY_DELAY,
};
use rbus::server::router::{respond, Router, ServerError, Step};
use rbus::server::{ObjectStep, SimpleObject};
use rbus::table::Table;

fn args_of(v: i64) -> Arguments {
    let mut a = Arguments::new();
    a.add(v).unwrap();
    a
}

#[test]
fn router_calls_the_latest_handler_of_a_method() {
    let router: Router<u32> = Router::new(ObjectID::new("tester", "1.0"))
        .handle("hello", 1)
        .handle("ping", 2)
        .handle("hello", 3);
    assert_eq!(router.id().to_string(), "tester@1.0");

    let req = Request::new(router.id(), "hello").arg(5i64).unwrap();
    let id = req.id.clone();
    match router.dispatch_step(req) {
        Step::Call { handler, id: got, arguments } => {
            assert_eq!(*handler, 3);
            assert_eq!(got, id);
            let (v,): (i64,) = arguments.values().unwrap();
            assert_eq!(v, 5);
        }
        Step::Respond(_) => panic!("expected a call"),
    }
    match router.dispatch_step(Request::new(router.id(), "ping")) {
        Step::Call { handler, .. } => assert_eq!(*handler, 2),
        Step::Respond(_) => panic!("expected a call"),
    }
}

#[test]
fn router_answers_unknown_method() {
    let router: Router<u32> = Router::new(ObjectID::new("tester", "1.0")).handle("hello", 1);
    let req = Request::new(router.id(), "missing");
    let id = req.id.clone();
    match router.dispatch_step(req) {
        Step::Respond(resp) => {
            assert_eq!(resp.id, id);
            assert_eq!(resp.output.data.len(), 0);
            assert!(resp.output.error.is_none());
            assert_eq!(resp.error.as_deref(), Some("unknown method 'missing'"));
        }
        Step::Call { .. } => panic!("expected an answer"),
    }
    assert_eq!(ServerError::UnknownMethod("x".into()).message(), "unknown method 'x'");
}

#[test]
fn respond_carries_results_or_message() {
    let ok = respond("id-1".into(), Ok(args_of(9)));
    assert_eq!(ok.id, "id-1");
    assert!(ok.error.is_none());
    assert!(ok.output.error.is_none());
    let (v,): (i64,) = ok.output.data.values().unwrap();
    assert_eq!(v, 9);

    let err = respond("id-2".into(), Err(Error::new("cannot divide by zero")));
    assert_eq!(err.id, "id-2");
    assert_eq!(err.output.data.len(), 0);
    assert_eq!(err.error.as_deref(), Some("cannot divide by zero"));
    // a handler's failure reaches the caller of a router as a protocol error
    match call_result(err) {
        Err(RpcError::Protocol(m)) => assert_eq!(m, "cannot divide by zero"),
        _ => panic!("expected a protocol error"),
    }
}

#[test]
fn simple_object_fails_on_unknown_method() {
    let obj: SimpleObject<&str> =
        SimpleObject::new(ObjectID::new("calculator", "1.0")).handle("Add", "adder");
    match obj.dispatch_step(Request::new(obj.id(), "Add").arg(1i64).unwrap()) {
        ObjectStep::Call { handler, arguments } => {
            assert_eq!(*handler, "adder");
            assert_eq!(arguments.len(), 1);
        }
        ObjectStep::Fail(_) => panic!("expected a call"),
    }
    match obj.dispatch_step(Request::new(obj.id(), "Sub")) {
        ObjectStep::Fail(RpcError::UnknownMethod(m)) => assert_eq!(m, "Sub"),
        _ => panic!("expected unknown method"),
    }
}

#[test]
fn server_pulls_from_one_queue_per_object() {
    let mut server: Server<(), &str> = Server::new((), "server", 3);
    server.register(&ObjectID::new("calculator", "1.0"), "calc");
    server.register(&ObjectID::new("streamer", ""), "stream");
    server.register(&ObjectID::new("calculator", "1.0"), "calc2");
    let queues = server.queues();
    assert_eq!(queues, vec!["server.calculator@1.0".to_string(), "server.streamer".to_string()]);
    assert_eq!(server.stream_channel("streamer", "test"), "server.streamer.test");

    let client_queue = request_queue("server", &ObjectID::new("calculator", "1.0"));
    assert!(queues.contains(&client_queue));
    let absent = request_queue("server", &ObjectID::new("calculator", "2.0"));
    assert!(!queues.contains(&absent));

    let (module, _pool, workers, objects) = server.into_parts();
    assert_eq!(module, "server");
    assert_eq!(workers, 3);
    assert_eq!(objects.len(), 2);
    assert_eq!(objects.get(&"calculator@1.0".to_string()), Some(&"calc2"));
}

#[test]
fn events_are_received_where_they_are_published() {
    let mut server: Server<(), ()> = Server::new((), "full-test", 1);
    let id = ObjectID::new("streamer", "1.0");
    server.register(&id, ());
    let published = server.stream_channel(&id.to_string(), "test");
    let listened = stream_channel("full-test", &id, "test");
    assert_eq!(published, listened);
    assert_eq!(listened, "full-test.streamer@1.0.test");
    assert_ne!(server.stream_channel(&id.to_string(), "other"), listened);
}

#[test]
fn worker_routes_by_object_address() {
    let mut objects: Table<u8> = Table::new();
    objects.insert("calculator@1.0".to_string(), 1);
    let req = Request::new(ObjectID::new("calculator", "1.0"), "Add");
    match route(&objects, req) {
        Routed::Dispatch { object, request } => {
            assert_eq!(*object, 1);
            assert_eq!(request.method, "Add");
        }
        Routed::Respond(_) => panic!("expected dispatch"),
    }
    let req = Request::new(ObjectID::new("nothing", "1.0"), "Add");
    let id = req.id.clone();
    match route(&objects, req) {
        Routed::Respond(resp) => {
            assert_eq!(resp.id, id);
            assert_eq!(resp.error.as_deref(), Some("unknown object 'nothing@1.0'"));
        }
        Routed::Dispatch { .. } => panic!("expected an answer"),
    }
}

#[test]
fn worker_response_and_caller_view() {
    let ok = response_for("r1".into(), Ok(Output::from_outcome(Ok(args_of(4)))));
    assert!(ok.error.is_none());
    let seen = call_result(ok).unwrap();
    assert!(seen.error.is_none());
    let (v,): (i64,) = seen.data.values().unwrap();
    assert_eq!(v, 4);

    // a request that could not be served reaches the caller as a protocol error
    let err = response_for("r2".into(), Err(RpcError::UnknownMethod("Mul".into())));
    assert_eq!(err.error.as_deref(), Some("unknown method 'Mul'"));
    assert_eq!(err.output.data.len(), 0);
    assert!(err.output.error.is_none());
    match call_result(err) {
        Err(RpcError::Protocol(m)) => assert_eq!(m, "unknown method 'Mul'"),
        _ => panic!("expected a protocol error"),
    }
    let err = response_for("r3".into(), Err(RpcError::UnknownObject("nothing@1.0".into())));
    match call_result(err) {
        Err(RpcError::Protocol(m)) => assert_eq!(m, "unknown object 'nothing@1.0'"),
        _ => panic!("expected a protocol error"),
    }
    // even an empty error text is a protocol error
    let mut empty = response_for("r4".into(), Ok(Output::new()));
    empty.error = Some(String::new());
    assert!(!empty.is_error());
    assert!(matches!(call_result(empty), Err(RpcError::Protocol(m)) if m.is_empty()));
}

#[test]
fn output_carries_the_method_outcome() {
    let ok = Output::from_outcome(Ok(args_of(7)));
    assert!(ok.error.is_none());
    let data = ok.into_result().unwrap();
    let (v,): (i64,) = data.values().unwrap();
    assert_eq!(v, 7);

    let failed = Output::from_outcome(Err(Error::new("boom")));
    assert_eq!(failed.data.len(), 0);
    assert_eq!(failed.error.as_ref().map(|e| e.message.as_str()), Some("boom"));
    match failed.into_result() {
        Err(RpcError::Call(e)) => assert_eq!(e.to_string(), "boom"),
        _ => panic!("expected a failed call"),
    }

    let empty = Output::new();
    assert_eq!(empty.data.len(), 0);
    assert!(empty.into_result().unwrap().len() == 0);
}

#[test]
fn pull_loop_decisions() {
    assert!(matches!(pull_step(PullEvent::NoConnection), PullAction::Backoff(2)));
    assert!(matches!(pull_step(PullEvent::PopFailed), PullAction::Backoff(2)));
    assert!(matches!(pull_step(PullEvent::Timeout), PullAction::Retry));
    let req = Request::new(ObjectID::new("a", ""), "m");
    let id = req.id.clone();
    match pull_step(PullEvent::Received(req)) {
        PullAction::Schedule(q) => assert_eq!(q.id, id),
        _ => panic!("expected scheduling"),
    }
    assert_eq!((PULL_TIMEOUT, RESPONSE_TTL, RETRY_DELAY), (10, 300, 2));
}

#[test]
fn table_replaces_in_place() {
    let mut t: Table<i32> = Table::new();
    t.insert("a".into(), 1);
    t.insert("b".into(), 2);
    t.insert("a".into(), 3);
    assert_eq!(t.len(), 2);
    assert_eq!(t.key_at(0), "a");
    assert_eq!(t.key_at(1), "b");
    assert_eq!(t.get(&"a".to_string()), Some(&3));
    assert_eq!(t.get(&"b".to_string()), Some(&2));
    assert_eq!(t.get(&"c".to_string()), None);
}

#[test]
fn divide_by_zero_reaches_the_caller() {
    // the calculator's divide by zero failure travels inside the output of the
    // method and reaches the caller as a failed call
    let obj: SimpleObject<&str> =
        SimpleObject::new(ObjectID::new("calculator", "1.0")).handle("Divide", "div");
    let mut objects: Table<SimpleObject<&str>> = Table::new();
    objects.insert(obj.id().to_string(), obj);
    let req = Request::new(ObjectID::new("calculator", "1.0"), "Divide")
        .arg(10i64)
        .unwrap()
        .arg(0i64)
        .unwrap();
    let id = req.id.clone();
    let ret = match route(&objects, req) {
        Routed::Dispatch { object, request } => match object.dispatch_step(request) {
            ObjectStep::Call { handler, arguments } => {
                assert_eq!(*handler, "div");
                let (a, b): (i64, i64) = arguments.values().unwrap();
                assert_eq!((a, b), (10, 0));
                Ok(Output::from_outcome(Err(Error::new("cannot divide by zero"))))
            }
            ObjectStep::Fail(e) => Err(e),
        },
        Routed::Respond(_) => panic!("expected dispatch"),
    };
    let resp = response_for(id, ret);
    assert!(resp.error.is_none());
    let out = call_result(resp).unwrap();
    match out.into_result() {
        Err(RpcError::Call(err)) => assert_eq!(err.message, "cannot divide by zero"),
        _ => panic!("expected a failed call"),
    }
}

#[test]
fn queues_of_different_modules_can_coincide() {
    // the law that a request reaches a registered object holds within one module only
    let a = request_queue("a.b", &ObjectID::new("c", ""));
    let b = request_queue("a", &ObjectID::new("b.c", ""));
    assert_eq!(a, b);
}
