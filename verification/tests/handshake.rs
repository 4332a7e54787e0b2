use cell_spinner::handshake::{
    farewell, greeting, stop_command, ConnectError, Handshake, HandshakeStage, LinkReport,
    LinkRequest, BACKOFF_MS, MAX_PROBES, SETTLE_MS,
};

/// Runs a handshake against a board that gives the listed answers in turn,
/// and returns how it ended with everything that was asked of the port.
fn run(replies: &[[u8; 3]]) -> (Handshake, Vec<LinkRequest>) {
    let (mut handshake, mut request) = Handshake::start();
    let mut asked = vec![request];
    let mut next_reply = 0;
    for _ in 0..200 {
        let report = match request {
            LinkRequest::Finished | LinkRequest::Abandon(_) => return (handshake, asked),
            LinkRequest::ReadReply => {
                let reply = replies[next_reply];
                next_reply += 1;
                LinkReport::Reply(reply)
            }
            _ => LinkReport::Done,
        };
        request = handshake.advance(report);
        asked.push(request);
    }
    panic!("the handshake did not end");
}

#[test]
fn greeting_bytes() {
    assert_eq!(&farewell(), b"bye!");
    assert_eq!(&greeting(), b"hi?");
    assert_eq!(&stop_command(), b"stop");
    assert_eq!(MAX_PROBES, 10);
    assert_eq!(SETTLE_MS, 200);
    assert_eq!(BACKOFF_MS, 500);
}

#[test]
fn handshake_with_a_board_that_answers_at_once() {
    let (handshake, asked) = run(&[*b"ok!"]);
    assert!(handshake.is_connected());
    assert_eq!(handshake.error(), None);
    assert_eq!(handshake.failures, 0);
    assert_eq!(
        asked,
        vec![
            LinkRequest::SendFarewell,
            LinkRequest::Sleep(200),
            LinkRequest::DiscardInput,
            LinkRequest::SendGreeting,
            LinkRequest::ReadReply,
            LinkRequest::Finished,
        ]
    );
}

#[test]
fn handshake_succeeds_after_two_failed_probes() {
    let (handshake, asked) = run(&[*b"str", *b"k!o", *b"ok!"]);
    assert!(handshake.is_connected());
    assert_eq!(handshake.stage, HandshakeStage::Connected);
    assert_eq!(handshake.failures, 2);
    assert_eq!(
        asked,
        vec![
            LinkRequest::SendFarewell,
            LinkRequest::Sleep(200),
            LinkRequest::DiscardInput,
            LinkRequest::SendGreeting,
            LinkRequest::ReadReply,
            LinkRequest::Sleep(500),
            LinkRequest::DiscardInput,
            LinkRequest::SendGreeting,
            LinkRequest::ReadReply,
            LinkRequest::Sleep(500),
            LinkRequest::DiscardInput,
            LinkRequest::SendGreeting,
            LinkRequest::ReadReply,
            LinkRequest::Finished,
        ]
    );
}

#[test]
fn handshake_gives_up_after_ten_wrong_answers() {
    let replies = [*b"no!"; 10];
    let (handshake, asked) = run(&replies);
    assert!(!handshake.is_connected());
    assert_eq!(handshake.stage, HandshakeStage::Failed(ConnectError::NoResponse));
    assert_eq!(handshake.error(), Some(ConnectError::NoResponse));
    assert_eq!(handshake.failures, 10);
    let probes = asked.iter().filter(|r| **r == LinkRequest::SendGreeting).count();
    assert_eq!(probes, 10);
    let waits = asked.iter().filter(|r| **r == LinkRequest::Sleep(500)).count();
    assert_eq!(waits, 9);
    assert_eq!(asked.last(), Some(&LinkRequest::Abandon(ConnectError::NoResponse)));
    assert_eq!(asked.len(), 2 + 10 * 3 + 9 + 1);
}

#[test]
fn handshake_connects_on_the_tenth_probe() {
    let mut replies = vec![*b"???"; 9];
    replies.push(*b"ok!");
    let (handshake, asked) = run(&replies);
    assert!(handshake.is_connected());
    assert_eq!(handshake.failures, 9);
    assert_eq!(asked.last(), Some(&LinkRequest::Finished));
}

#[test]
fn port_error_ends_the_handshake_at_any_stage() {
    for steps in 0..5 {
        let (mut handshake, _) = Handshake::start();
        for _ in 0..steps {
            handshake.advance(LinkReport::Done);
        }
        let request = handshake.advance(LinkReport::Failed);
        assert_eq!(request, LinkRequest::Abandon(ConnectError::LinkFailed));
        assert_eq!(handshake.error(), Some(ConnectError::LinkFailed));
        // once over, the answer stays
        assert_eq!(
            handshake.advance(LinkReport::Reply(*b"ok!")),
            LinkRequest::Abandon(ConnectError::LinkFailed)
        );
    }
}

#[test]
fn report_out_of_turn_ends_the_handshake() {
    let (mut handshake, _) = Handshake::start();
    let request = handshake.advance(LinkReport::Reply(*b"ok!"));
    assert_eq!(request, LinkRequest::Abandon(ConnectError::OutOfTurn));
    assert!(!handshake.is_connected());

    let (mut handshake, _) = Handshake::start();
    for _ in 0..4 {
        handshake.advance(LinkReport::Done);
    }
    assert_eq!(handshake.stage, HandshakeStage::Listening);
    let request = handshake.advance(LinkReport::Done);
    assert_eq!(request, LinkRequest::Abandon(ConnectError::OutOfTurn));
}

#[test]
fn unfinished_handshake_reports_so() {
    let (mut handshake, first) = Handshake::start();
    assert_eq!(first, LinkRequest::SendFarewell);
    assert_eq!(handshake.error(), Some(ConnectError::Unfinished));
    handshake.advance(LinkReport::Done);
    assert_eq!(handshake.error(), Some(ConnectError::Unfinished));
    assert!(!handshake.is_connected());
}

#[test]
fn connected_handshake_stays_connected() {
    let (mut handshake, _) = run(&[*b"ok!"]);
    assert_eq!(handshake.advance(LinkReport::Failed), LinkRequest::Finished);
    assert_eq!(handshake.advance(LinkReport::Done), LinkRequest::Finished);
    assert!(handshake.is_connected());
}

#[test]
fn connect_error_messages_are_distinct() {
    let all = [
        ConnectError::PortInUse,
        ConnectError::NoResponse,
        ConnectError::LinkFailed,
        ConnectError::OutOfTurn,
        ConnectError::Unfinished,
    ];
    for (i, a) in all.iter().enumerate() {
        for (j, b) in all.iter().enumerate() {
            assert_eq!(a.message() == b.message(), i == j);
        }
    }
    assert_eq!(ConnectError::PortInUse.message(), "The port is already in use");
    assert_eq!(ConnectError::NoResponse.message(), "The device did not respond");
}
