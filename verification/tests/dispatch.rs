use chrome_native_messaging::{
    read_input, send_message, step, Action, Error, ErrorReply, Event, IoFault, IoKind,
    OnWriteFault,
};
use serde_json::Value;
use std::collections::VecDeque;

fn frame(body: &[u8]) -> Vec<u8> {
    let mut bytes = (body.len() as u32).to_le_bytes().to_vec();
    bytes.extend_from_slice(body);
    bytes
}

fn error_frame(reply: &ErrorReply) -> Value {
    let mut members = serde_json::Map::new();
    members.insert("error".to_string(), Value::String(reply.error.clone()));
    Value::Object(members)
}

fn greeting(name: &str) -> Value {
    let mut members = serde_json::Map::new();
    members.insert("hello".to_string(), Value::String(name.to_string()));
    Value::Object(members)
}

/// Answers a string with a greeting, and anything else with an error.
fn handler(message: Value) -> Result<Value, String> {
    match message {
        Value::String(name) => Ok(greeting(&name)),
        Value::Null => Err("null payload".to_string()),
        _ => Err("unexpected payload".to_string()),
    }
}

/// Runs the loop on streams in memory and counts how often the fault
/// interceptor is installed.
fn serve(
    policy: OnWriteFault,
    input: &mut VecDeque<u8>,
    output: &mut VecDeque<u8>,
) -> (usize, Option<Error>) {
    let mut installs = 0;
    let mut action = step(policy, Event::Started);
    loop {
        let event = match action {
            Action::Install => {
                installs += 1;
                Event::Installed
            }
            Action::Read => Event::Read(read_input(input)),
            Action::Handle(message) => Event::Handled(handler(message)),
            Action::Respond(answer) => Event::Responded(send_message(output, &answer)),
            Action::Report(reply) => Event::Reported(send_message(output, &error_frame(&reply))),
            Action::Stop => return (installs, None),
            Action::Fail(err) => return (installs, Some(err)),
        };
        action = step(policy, event);
    }
}

fn read_all(output: &mut VecDeque<u8>) -> Vec<Value> {
    let mut frames = Vec::new();
    loop {
        match read_input(output) {
            Ok(value) => frames.push(value),
            Err(Error::NoMoreInput) => return frames,
            Err(_) => panic!("the output must be made of whole frames"),
        }
    }
}

#[test]
fn loop_resilience() {
    let mut input = VecDeque::new();
    input.extend(frame(b"\"first\""));
    input.extend(frame(b"{\"broken\": "));
    input.extend(frame(b"\"third\""));
    let mut output = VecDeque::new();

    let (installs, failure) = serve(OnWriteFault::Stop, &mut input, &mut output);
    assert_eq!(installs, 1);
    assert!(failure.is_none());
    assert!(input.is_empty());

    let frames = read_all(&mut output);
    assert_eq!(frames.len(), 3);
    assert_eq!(frames[0], greeting("first"));
    let text = frames[1]["error"].as_str().expect("an error frame");
    assert_eq!(frames[1].as_object().expect("an object").len(), 1);
    assert_eq!(text, "serde error: EOF while parsing a value at line 1 column 11");
    assert_eq!(frames[2], greeting("third"));
}

#[test]
fn loop_on_empty_input_writes_nothing() {
    let mut input = VecDeque::new();
    let mut output = VecDeque::new();
    let (installs, failure) = serve(OnWriteFault::Stop, &mut input, &mut output);
    assert_eq!(installs, 1);
    assert!(failure.is_none());
    assert!(output.is_empty());
}

#[test]
fn loop_reports_the_errors_of_the_handler() {
    let mut input = VecDeque::new();
    input.extend(frame(b"null"));
    input.extend(frame(b"17"));
    input.extend(frame(b"\"you\""));
    let mut output = VecDeque::new();
    let (_, failure) = serve(OnWriteFault::Stop, &mut input, &mut output);
    assert!(failure.is_none());
    let frames = read_all(&mut output);
    assert_eq!(frames.len(), 3);
    assert_eq!(frames[0]["error"], Value::String("null payload".to_string()));
    assert_eq!(frames[1]["error"], Value::String("unexpected payload".to_string()));
    assert_eq!(frames[2], greeting("you"));
}

#[test]
fn loop_reports_an_input_that_ends_inside_a_frame() {
    let mut input = VecDeque::new();
    input.extend(frame(b"\"whole\""));
    input.extend([9u8, 0, 0, 0, b'"']);
    let mut output = VecDeque::new();
    let (_, failure) = serve(OnWriteFault::Stop, &mut input, &mut output);
    assert!(failure.is_none());
    let frames = read_all(&mut output);
    assert_eq!(frames.len(), 2);
    assert_eq!(frames[0], greeting("whole"));
    assert_eq!(
        frames[1]["error"],
        Value::String("io error: failed to fill whole buffer".to_string())
    );
}

#[test]
fn loop_stops_when_an_answer_is_too_large() {
    let name = "n".repeat(1_048_576);
    let mut input = VecDeque::new();
    input.extend(frame(format!("\"{}\"", name).as_bytes()));
    input.extend(frame(b"\"never read\""));
    let mut output = VecDeque::new();
    let (_, failure) = serve(OnWriteFault::Stop, &mut input, &mut output);
    match failure {
        Some(Error::MessageTooLarge { size }) => assert_eq!(size, 1_048_576 + 12),
        _ => panic!("the loop must stop on the answer that cannot be written"),
    }
    assert!(output.is_empty());
    assert!(!input.is_empty());
}

#[test]
fn loop_goes_on_when_told_to_report_write_faults() {
    let name = "n".repeat(1_048_576);
    let mut input = VecDeque::new();
    input.extend(frame(format!("\"{}\"", name).as_bytes()));
    input.extend(frame(b"\"next\""));
    let mut output = VecDeque::new();
    let (_, failure) = serve(OnWriteFault::Report, &mut input, &mut output);
    assert!(failure.is_none());
    let frames = read_all(&mut output);
    assert_eq!(frames.len(), 2);
    assert_eq!(
        frames[0]["error"],
        Value::String("message too large: 1048588 bytes".to_string())
    );
    assert_eq!(frames[1], greeting("next"));
}

#[test]
fn write_faults_stop_the_loop_by_default() {
    assert_eq!(OnWriteFault::default(), OnWriteFault::Stop);
}

#[test]
fn step_installs_then_reads() {
    assert!(matches!(step::<Value>(OnWriteFault::Stop, Event::Started), Action::Install));
    assert!(matches!(step::<Value>(OnWriteFault::Stop, Event::Installed), Action::Read));
}

#[test]
fn step_after_a_read() {
    match step::<Value>(OnWriteFault::Stop, Event::Read(Ok(Value::from(3)))) {
        Action::Handle(message) => assert_eq!(message, Value::from(3)),
        _ => panic!("a message must go to the handler"),
    }
    assert!(matches!(
        step::<Value>(OnWriteFault::Stop, Event::Read(Err(Error::NoMoreInput))),
        Action::Stop
    ));
    assert!(matches!(
        step::<Value>(OnWriteFault::Report, Event::Read(Err(Error::NoMoreInput))),
        Action::Stop
    ));
    let fault = IoFault { kind: IoKind::Other, message: "broken pipe".to_string() };
    match step::<Value>(OnWriteFault::Stop, Event::Read(Err(Error::Io(fault)))) {
        Action::Report(reply) => assert_eq!(reply.error, "io error: broken pipe"),
        _ => panic!("a failed read must be reported"),
    }
    match step::<Value>(
        OnWriteFault::Stop,
        Event::Read(Err(Error::MessageTooLarge { size: 2_000_000 })),
    ) {
        Action::Report(reply) => assert_eq!(reply.error, "message too large: 2000000 bytes"),
        _ => panic!("a failed read must be reported"),
    }
}

#[test]
fn step_after_the_handler() {
    match step(OnWriteFault::Stop, Event::Handled(Ok(41u8))) {
        Action::Respond(answer) => assert_eq!(answer, 41),
        _ => panic!("an answer must be written"),
    }
    match step::<u8>(OnWriteFault::Stop, Event::Handled(Err("no".to_string()))) {
        Action::Report(reply) => assert_eq!(reply.error, "no"),
        _ => panic!("an error of the handler must be reported"),
    }
}

#[test]
fn step_after_a_write() {
    assert!(matches!(step::<Value>(OnWriteFault::Stop, Event::Responded(Ok(()))), Action::Read));
    assert!(matches!(step::<Value>(OnWriteFault::Report, Event::Responded(Ok(()))), Action::Read));
    assert!(matches!(step::<Value>(OnWriteFault::Stop, Event::Reported(Ok(()))), Action::Read));
    let fault = IoFault { kind: IoKind::Other, message: "closed".to_string() };
    assert!(matches!(
        step::<Value>(OnWriteFault::Stop, Event::Reported(Err(Error::Io(fault)))),
        Action::Read
    ));
    let fault = IoFault { kind: IoKind::Other, message: "closed".to_string() };
    match step::<Value>(OnWriteFault::Stop, Event::Responded(Err(Error::Io(fault)))) {
        Action::Fail(Error::Io(fault)) => assert_eq!(fault.message, "closed"),
        _ => panic!("an answer that cannot be written must stop the loop"),
    }
    let fault = IoFault { kind: IoKind::Other, message: "closed".to_string() };
    match step::<Value>(OnWriteFault::Report, Event::Responded(Err(Error::Io(fault)))) {
        Action::Report(reply) => assert_eq!(reply.error, "io error: closed"),
        _ => panic!("an answer that cannot be written must be reported"),
    }
}

#[test]
fn step_never_reports_the_end_of_input() {
    for policy in [OnWriteFault::Stop, OnWriteFault::Report] {
        assert!(matches!(
            step::<Value>(policy, Event::Read(Err(Error::NoMoreInput))),
            Action::Stop
        ));
        assert!(matches!(
            step::<Value>(policy, Event::Responded(Err(Error::NoMoreInput))),
            Action::Fail(Error::NoMoreInput)
        ));
        assert!(matches!(
            step::<Value>(policy, Event::Reported(Err(Error::NoMoreInput))),
            Action::Read
        ));
    }
}
