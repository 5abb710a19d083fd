use gabriele::directive::{directive_from_groups, parse_directive, Directive, DirectiveError};
use gabriele::hal::{ack_poll, cts_poll, plan, AckPoll, CtsPoll, Received, Step, ACK_ATTEMPTS, CTS_ATTEMPTS};
use gabriele::printing::Instruction;

#[test]
fn test_parse_daisy_hot_swap_directive() {
    let res = parse_directive("@>daisy wheels/German.toml");
    assert!(res.is_ok());
    assert_eq!(res.unwrap(), Directive::DaisyHotSwap(String::from("wheels/German.toml")));
}

#[test]
fn unknown_directives_are_rejected() {
    assert_eq!(parse_directive("@>wheel German.toml"), Err(DirectiveError::Unknown));
    assert_eq!(parse_directive("@>daisy"), Err(DirectiveError::Unknown));
    assert_eq!(parse_directive("plain text"), Err(DirectiveError::Unknown));
    assert_eq!(
        directive_from_groups(Some((String::from("daisy"), String::from("x.toml")))),
        Ok(Directive::DaisyHotSwap(String::from("x.toml")))
    );
    assert_eq!(
        directive_from_groups(Some((String::from("other"), String::from("x.toml")))),
        Err(DirectiveError::Unknown)
    );
    assert_eq!(directive_from_groups(None), Err(DirectiveError::Unknown));
}

/// A device that asserts CTS at once and answers status requests from `replies`.
struct FakeDevice {
    written: Vec<u8>,
    replies: Vec<u8>,
}

/// Run the driver on `instructions` the way the serial loop does; `Err`
/// carries the fatal condition the driver would stop with.
fn drive(device: &mut FakeDevice, instructions: &[Instruction]) -> Result<(), &'static str> {
    for item in instructions {
        for step in plan(Received::Item(*item)) {
            match step {
                Step::Sleep(_) => {}
                Step::Write(b) => device.written.push(b),
                Step::AwaitClearToSend => match cts_poll(CTS_ATTEMPTS, true) {
                    CtsPoll::Clear => {}
                    _ => return Err("cts"),
                },
                Step::AwaitAcknowledge => {
                    let mut attempt = 0;
                    loop {
                        let reply = if device.replies.is_empty() { None } else { Some(device.replies.remove(0)) };
                        match ack_poll(attempt, reply) {
                            AckPoll::Acknowledged => break,
                            AckPoll::Retry => attempt += 1,
                            AckPoll::Rejected => return Err("unexpected status code is received"),
                            AckPoll::GiveUp => return Err("no answer is received from the machine"),
                        }
                    }
                }
                Step::Stop => return Ok(()),
            }
        }
    }
    Ok(())
}

#[test]
fn pushes_bytes_into_serial_port() {
    let mut port = FakeDevice { written: vec![], replies: vec![] };
    let res = drive(&mut port, &[Instruction::SendBytes([0x10, 0xA1]), Instruction::Halt]);
    assert_eq!(res, Ok(()));
    assert_eq!(&port.written, &[0x10, 0xA1]);
}

#[test]
fn sends_correct_start_sequence_on_successful_feedback_response() {
    let mut port = FakeDevice { written: vec![], replies: vec![161_u8] };
    let res = drive(&mut port, &[Instruction::Prepare, Instruction::Halt]);
    assert_eq!(res, Ok(()));
    assert_eq!(&port.written, &[0xA1, 0x00, 0xA4, 0x00, 0xA2, 0x00]);
}

#[test]
fn breaks_start_sequence_on_absence_of_the_feedback_response() {
    let mut port = FakeDevice { written: vec![], replies: vec![] };
    let res = drive(&mut port, &[Instruction::Prepare, Instruction::Halt]);
    assert_eq!(res, Err("no answer is received from the machine"));
    assert_eq!(&port.written, &[0xA1, 0x00, 0xA4, 0x00]);
}

#[test]
fn unexpected_status_stops_the_start_sequence() {
    let mut port = FakeDevice { written: vec![], replies: vec![0x42, 160_u8] };
    let res = drive(&mut port, &[Instruction::Prepare]);
    assert_eq!(res, Err("unexpected status code is received"));
    assert_eq!(&port.written, &[0xA1, 0x00, 0xA4, 0x00]);
}

#[test]
fn sends_correct_shutdown_sequence() {
    let mut port = FakeDevice { written: vec![], replies: vec![161_u8] };
    let res = drive(&mut port, &[Instruction::Shutdown, Instruction::SendBytes([1, 2])]);
    assert_eq!(res, Ok(()));
    assert_eq!(&port.written, &[0xA3, 0x00, 0xA0, 0x00]);
}

#[test]
fn shutdown_does_not_wait_for_cts_on_the_last_byte() {
    let steps = plan(Received::Item(Instruction::Shutdown));
    assert_eq!(steps.first(), Some(&Step::Sleep(1000)));
    assert_eq!(&steps[steps.len() - 3..], &[Step::Sleep(10), Step::Write(0x00), Step::Stop]);
}

#[test]
fn byte_pacing_and_idle_steps() {
    assert_eq!(
        plan(Received::Item(Instruction::SendBytes([0x83, 0]))),
        vec![
            Step::Sleep(10),
            Step::Write(0x83),
            Step::AwaitClearToSend,
            Step::Sleep(10),
            Step::Write(0),
            Step::AwaitClearToSend,
            Step::Sleep(50),
        ]
    );
    assert_eq!(plan(Received::Item(Instruction::Idle(200))), vec![Step::Sleep(200)]);
    assert!(plan(Received::Item(Instruction::Empty)).is_empty());
    assert_eq!(plan(Received::Item(Instruction::Halt)), vec![Step::Stop]);
    assert_eq!(plan(Received::Nothing), vec![Step::Sleep(200)]);
    assert_eq!(plan(Received::Disconnected), vec![Step::Stop]);
}

#[test]
fn poll_decisions() {
    assert_eq!(ack_poll(0, Some(0xA1)), AckPoll::Acknowledged);
    assert_eq!(ack_poll(3, Some(0xA0)), AckPoll::Rejected);
    assert_eq!(ack_poll(0, None), AckPoll::Retry);
    assert_eq!(ack_poll(ACK_ATTEMPTS - 1, Some(7)), AckPoll::GiveUp);
    assert_eq!(cts_poll(CTS_ATTEMPTS, true), CtsPoll::Clear);
    assert_eq!(cts_poll(CTS_ATTEMPTS, false), CtsPoll::Retry(CTS_ATTEMPTS - 1));
    assert_eq!(cts_poll(1, false), CtsPoll::TimedOut);
}
