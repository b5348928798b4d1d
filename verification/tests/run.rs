use tinyssh::channelrequest::ChannelRequest;
use tinyssh::error::Error;
use tinyssh::messages::{
    ChannelClose, ChannelData, ChannelEof, ChannelExtendedData, ChannelFailure, ChannelOpen,
    ChannelOpenConfirmation, ChannelSuccess, ChannelWindowAdjust, Message, MessageType, Newkeys,
};
use tinyssh::packets::{PacketReader, PacketWriter};
use tinyssh::run::{
    open_channel, quiet, request_exec, EnvVar, Run, RunEvent, RunResult, CLIENT_INITIAL_WINDOW_SIZE,
    CLIENT_MAX_PACKET_SIZE, CLIENT_WIN_TELL_TRIGGER,
};

fn confirmation(window: u32, max_packet: u32) -> ChannelOpenConfirmation {
    ChannelOpenConfirmation {
        client_channel: 0,
        server_channel: 7,
        server_initial_window_size: window,
        server_max_packet_size: max_packet,
    }
}

fn started(window: u32, max_packet: u32) -> Run {
    let reply = Message::ChannelSuccess(ChannelSuccess { recipient_channel: 0 });
    match Run::start(&reply, 0, &confirmation(window, max_packet)) {
        Ok(RunResult::Accepted(run)) => run,
        other => panic!("not accepted: {:?}", other.is_ok()),
    }
}

/// Reads all the messages of a stream of clear packets.
fn messages(wire: &[u8]) -> Vec<Message> {
    let mut reader = PacketReader::new();
    let mut out = Vec::new();
    let mut at = 0;
    while at < wire.len() {
        let (message, n) = reader.recv::<Message>(&wire[at..]).unwrap();
        out.push(message.unwrap());
        at += n;
    }
    out
}

#[test]
fn constants_of_the_channel() {
    assert_eq!(CLIENT_INITIAL_WINDOW_SIZE, u32::MAX);
    assert_eq!(CLIENT_WIN_TELL_TRIGGER, CLIENT_INITIAL_WINDOW_SIZE / 4);
    assert_eq!(CLIENT_MAX_PACKET_SIZE, 256 * 1024);
}

#[test]
fn a_channel_is_opened_with_the_full_window() {
    let mut writer = PacketWriter::new();
    let wire = open_channel(&mut writer, 3).unwrap();
    assert_eq!(
        messages(&wire),
        vec![Message::ChannelOpen(ChannelOpen {
            channel_type: "session".to_string(),
            client_channel: 3,
            client_initial_window_size: u32::MAX,
            client_max_packet_size: 262144,
        })]
    );
}

#[test]
fn variables_go_before_the_command() {
    let mut writer = PacketWriter::new();
    let env = vec![
        EnvVar { name: "LANG".to_string(), value: "C".to_string() },
        EnvVar { name: "TERM".to_string(), value: "dumb".to_string() },
    ];
    let wire = request_exec(&mut writer, 7, "echo hello", &env).unwrap();
    assert_eq!(
        messages(&wire),
        vec![
            Message::ChannelRequest(ChannelRequest::EnvironmentVariable {
                recipient_channel: 7,
                want_reply: false,
                name: "LANG".to_string(),
                value: "C".to_string(),
            }),
            Message::ChannelRequest(ChannelRequest::EnvironmentVariable {
                recipient_channel: 7,
                want_reply: false,
                name: "TERM".to_string(),
                value: "dumb".to_string(),
            }),
            Message::ChannelRequest(ChannelRequest::Exec {
                recipient_channel: 7,
                want_reply: true,
                command: "echo hello".to_string(),
            }),
        ]
    );
    let mut writer = PacketWriter::new();
    let wire = request_exec(&mut writer, 1, "false", &[]).unwrap();
    assert_eq!(
        messages(&wire),
        vec![Message::ChannelRequest(ChannelRequest::Exec {
            recipient_channel: 1,
            want_reply: true,
            command: "false".to_string(),
        })]
    );
}

#[test]
fn the_answer_to_exec_decides() {
    let success = Message::ChannelSuccess(ChannelSuccess { recipient_channel: 0 });
    let run = match Run::start(&success, 0, &confirmation(10, 20)) {
        Ok(RunResult::Accepted(run)) => run,
        _ => panic!("not accepted"),
    };
    assert_eq!(run.exit_status(), None);
    assert!(!run.is_closed());
    let failure = Message::ChannelFailure(ChannelFailure { recipient_channel: 0 });
    assert!(matches!(Run::start(&failure, 0, &confirmation(10, 20)), Ok(RunResult::Refused)));
    let other = Message::Newkeys(Newkeys {});
    assert!(matches!(
        Run::start(&other, 0, &confirmation(10, 20)),
        Err(Error::UnexpectedMessageType(MessageType::Newkeys))
    ));
}

#[test]
fn a_timeout_is_no_event() {
    let mut run = started(100, 100);
    let mut writer = PacketWriter::new();
    assert_eq!(run.poll(None, &mut writer), Ok((RunEvent::Nothing, vec![])));
}

#[test]
fn data_and_stderr_are_surfaced() {
    let mut run = started(100, 100);
    let mut writer = PacketWriter::new();
    let data = Message::ChannelData(ChannelData { recipient_channel: 0, data: b"hello\n".to_vec() });
    assert_eq!(run.poll(Some(data), &mut writer), Ok((RunEvent::Data(b"hello\n".to_vec()), vec![])));
    let stderr =
        Message::ChannelExtendedData(ChannelExtendedData { recipient_channel: 0, data_type: 1, data: b"err\n".to_vec() });
    assert_eq!(run.poll(Some(stderr), &mut writer), Ok((RunEvent::ExtDataStderr(b"err\n".to_vec()), vec![])));
    let other =
        Message::ChannelExtendedData(ChannelExtendedData { recipient_channel: 0, data_type: 2, data: b"x".to_vec() });
    assert_eq!(run.poll(Some(other), &mut writer), Ok((RunEvent::Nothing, vec![])));
    let eof = Message::ChannelEof(ChannelEof { recipient_channel: 0 });
    assert_eq!(run.poll(Some(eof), &mut writer), Ok((RunEvent::Nothing, vec![])));
}

#[test]
fn exit_status_then_close() {
    let mut run = started(100, 100);
    let mut writer = PacketWriter::new();
    let status = Message::ChannelRequest(ChannelRequest::ExitStatus { recipient_channel: 0, exit_status: 1 });
    assert_eq!(run.poll(Some(status), &mut writer), Ok((RunEvent::Nothing, vec![])));
    assert_eq!(run.exit_status(), Some(1));
    let close = Message::ChannelClose(ChannelClose { recipient_channel: 0 });
    let (event, wire) = run.poll(Some(close), &mut writer).unwrap();
    assert_eq!(event, RunEvent::Stopped(Some(1)));
    // the close is mirrored to the server's channel number
    assert_eq!(messages(&wire), vec![Message::ChannelClose(ChannelClose { recipient_channel: 7 })]);
    assert!(run.is_closed());
    // a closed channel takes no more data, and needs no close of ours
    assert_eq!(run.write(b"late", &mut writer).err(), Some(Error::ProcessHasExited));
    assert_eq!(run.close(&mut writer), Ok(vec![]));
}

#[test]
fn close_without_a_status() {
    let mut run = started(100, 100);
    let mut writer = PacketWriter::new();
    let close = Message::ChannelClose(ChannelClose { recipient_channel: 0 });
    let (event, _) = run.poll(Some(close), &mut writer).unwrap();
    assert_eq!(event, RunEvent::Stopped(None));
}

#[test]
fn an_open_channel_is_closed_on_the_way_out() {
    let run = started(100, 100);
    let mut writer = PacketWriter::new();
    let wire = run.close(&mut writer).unwrap();
    assert_eq!(messages(&wire), vec![Message::ChannelClose(ChannelClose { recipient_channel: 7 })]);
}

#[test]
fn any_other_message_is_unexpected() {
    let mut run = started(100, 100);
    let mut writer = PacketWriter::new();
    assert_eq!(
        run.poll(Some(Message::Newkeys(Newkeys {})), &mut writer),
        Err(Error::UnexpectedMessageType(MessageType::Newkeys))
    );
    assert_eq!(
        run.poll(Some(Message::ChannelSuccess(ChannelSuccess { recipient_channel: 0 })), &mut writer),
        Err(Error::UnexpectedMessageType(MessageType::ChannelSuccess))
    );
    let exec = Message::ChannelRequest(ChannelRequest::Exec {
        recipient_channel: 0,
        want_reply: false,
        command: "x".to_string(),
    });
    assert_eq!(run.poll(Some(exec), &mut writer), Err(Error::UnexpectedMessageType(MessageType::ChannelRequest)));
    assert_eq!(run.poll(Some(Message::Ignore), &mut writer), Err(Error::UnexpectedMessageType(MessageType::Ignore)));
}

#[test]
fn the_window_is_refilled_below_a_quarter() {
    let mut run = started(100, 100);
    let mut writer = PacketWriter::new();
    let chunk = 0x4000_0001usize; // a bit more than a quarter of the window
    let mut adjusts = Vec::new();
    let mut left: u64 = u32::MAX as u64;
    for _ in 0..7 {
        let data = Message::ChannelData(ChannelData { recipient_channel: 0, data: vec![0; chunk] });
        let (event, wire) = run.poll(Some(data), &mut writer).unwrap();
        assert!(matches!(event, RunEvent::Data(_)));
        left -= chunk as u64;
        if left < CLIENT_WIN_TELL_TRIGGER as u64 {
            assert_eq!(
                messages(&wire),
                vec![Message::ChannelWindowAdjust(ChannelWindowAdjust {
                    recipient_channel: 7,
                    bytes_to_add: (u32::MAX as u64 - left) as u32,
                })]
            );
            adjusts.push(wire);
            left = u32::MAX as u64;
        } else {
            assert!(wire.is_empty());
        }
    }
    // three chunks leave just under a quarter: an adjust after the third and the sixth
    assert_eq!(adjusts.len(), 2);
}

#[test]
fn more_data_than_the_window_is_invalid() {
    let mut run = started(100, 100);
    let mut writer = PacketWriter::new();
    // bring the window down to just above the trigger
    let big = 0xbfff_fff0usize;
    let data = Message::ChannelData(ChannelData { recipient_channel: 0, data: vec![0; big] });
    let (_, wire) = run.poll(Some(data), &mut writer).unwrap();
    assert!(wire.is_empty());
    // now 0x4000000f bytes are left
    let over = Message::ChannelData(ChannelData { recipient_channel: 0, data: vec![0; 0x4000_0010] });
    assert_eq!(run.poll(Some(over), &mut writer), Err(Error::InvalidData));
    // the channel is unchanged: exactly what is left is still taken
    let exact = Message::ChannelData(ChannelData { recipient_channel: 0, data: vec![0; 0x4000_000f] });
    let (_, wire) = run.poll(Some(exact), &mut writer).unwrap();
    assert_eq!(
        messages(&wire),
        vec![Message::ChannelWindowAdjust(ChannelWindowAdjust { recipient_channel: 7, bytes_to_add: u32::MAX })]
    );
}

#[test]
fn data_is_cut_into_chunks() {
    for (n, m, expected) in [(0usize, 10u32, 0usize), (1, 10, 1), (10, 10, 1), (11, 10, 2), (95, 10, 10), (100, 10, 10), (100, 1, 100), (7, 1000, 1)] {
        let mut run = started(1_000_000, m);
        let mut writer = PacketWriter::new();
        let data: Vec<u8> = (0..n).map(|i| i as u8).collect();
        let out = run.write(&data, &mut writer).unwrap();
        assert_eq!(out.error, None);
        assert_eq!(out.taken, n);
        assert_eq!(out.messages, expected);
        assert_eq!(out.messages, (n + m as usize - 1) / m as usize);
        let sent = messages(&out.wire);
        assert_eq!(sent.len(), expected);
        let mut joined = Vec::new();
        for message in sent {
            match message {
                Message::ChannelData(ChannelData { recipient_channel, data }) => {
                    assert_eq!(recipient_channel, 7);
                    assert!(data.len() <= m as usize);
                    assert!(!data.is_empty());
                    joined.extend(data);
                },
                other => panic!("not data: {:?}", other),
            }
        }
        assert_eq!(joined, data);
    }
}

#[test]
fn a_write_waits_for_the_window() {
    let mut run = started(25, 10);
    let mut writer = PacketWriter::new();
    let data: Vec<u8> = (0..40u8).collect();
    let out = run.write(&data, &mut writer).unwrap();
    // ten, ten, and the five that the window still has room for
    assert_eq!((out.taken, out.messages, out.error), (25, 3, None));
    let sizes: Vec<usize> = messages(&out.wire)
        .into_iter()
        .map(|m| match m {
            Message::ChannelData(d) => d.data.len(),
            _ => 0,
        })
        .collect();
    assert_eq!(sizes, vec![10, 10, 5]);
    // nothing goes while the window is used up
    let stuck = run.write(&data[25..], &mut writer).unwrap();
    assert_eq!((stuck.taken, stuck.messages, stuck.wire.len()), (0, 0, 0));
    // the server grants more
    let adjust = Message::ChannelWindowAdjust(ChannelWindowAdjust { recipient_channel: 0, bytes_to_add: 12 });
    assert_eq!(run.poll(Some(adjust), &mut writer), Ok((RunEvent::Nothing, vec![])));
    let more = run.write(&data[25..], &mut writer).unwrap();
    assert_eq!((more.taken, more.messages), (12, 2));
    let adjust = Message::ChannelWindowAdjust(ChannelWindowAdjust { recipient_channel: 0, bytes_to_add: u32::MAX });
    run.poll(Some(adjust), &mut writer).unwrap();
    let rest = run.write(&data[37..], &mut writer).unwrap();
    assert_eq!((rest.taken, rest.messages), (3, 1));
}

#[test]
fn a_server_that_takes_no_packets_gets_none() {
    let mut run = started(100, 0);
    let mut writer = PacketWriter::new();
    let out = run.write(b"data", &mut writer).unwrap();
    assert_eq!((out.taken, out.messages, out.error), (0, 0, None));
}

#[test]
fn a_half_duplex_write_takes_no_events() {
    assert_eq!(quiet(&RunEvent::Nothing), Ok(()));
    assert_eq!(quiet(&RunEvent::Data(vec![1])), Err(Error::UnexpectedEventDuringWrite));
    assert_eq!(quiet(&RunEvent::Data(vec![])), Err(Error::UnexpectedEventDuringWrite));
    assert_eq!(quiet(&RunEvent::ExtDataStderr(vec![1])), Err(Error::UnexpectedEventDuringWrite));
    assert_eq!(quiet(&RunEvent::Stopped(None)), Err(Error::UnexpectedEventDuringWrite));
    assert_eq!(quiet(&RunEvent::Stopped(Some(0))), Err(Error::UnexpectedEventDuringWrite));
}

#[test]
fn timeouts_bring_nothing_until_the_command_ends() {
    let mut run = started(100, 100);
    let mut writer = PacketWriter::new();
    for _ in 0..25 {
        assert_eq!(run.poll(None, &mut writer), Ok((RunEvent::Nothing, vec![])));
        assert!(!run.is_closed());
    }
    let status = Message::ChannelRequest(ChannelRequest::ExitStatus { recipient_channel: 0, exit_status: 0 });
    assert_eq!(run.poll(Some(status), &mut writer), Ok((RunEvent::Nothing, vec![])));
    assert_eq!(run.poll(None, &mut writer), Ok((RunEvent::Nothing, vec![])));
    let close = Message::ChannelClose(ChannelClose { recipient_channel: 0 });
    let (event, _) = run.poll(Some(close), &mut writer).unwrap();
    assert_eq!(event, RunEvent::Stopped(Some(0)));
}
