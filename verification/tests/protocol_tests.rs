use job_security::protocol::{Error, Event, ExitStatus, MapCodec, ProcessState};
use job_security::util::{idle_poll, IdlePoll, IoOperation, OptionIo};

fn decode_len(v: Vec<u8>) -> usize {
    v.len()
}

fn encode_state(s: ProcessState) -> Vec<u8> {
    match s {
        ProcessState::Running => vec![0],
        ProcessState::Stopped => vec![1],
        ProcessState::Terminated(_) => vec![2],
    }
}

#[test]
fn map_codec_maps_decoded_items() {
    let mut codec: MapCodec<Vec<u8>, Vec<u8>, Vec<u8>, usize, ProcessState, _, _> =
        MapCodec::new(vec![9u8], decode_len, encode_state);
    assert_eq!(codec.map_decoded::<String>(Ok(Some(vec![1, 2, 3]))), Ok(Some(3)));
    assert_eq!(codec.map_decoded::<String>(Ok(None)), Ok(None));
    assert_eq!(codec.map_decoded::<String>(Err("broken".to_string())), Err("broken".to_string()));
    assert_eq!(codec.map_encoded(ProcessState::Stopped), vec![1]);
    codec.inner_mut().push(4);
    assert_eq!(codec.inner_mut().clone(), vec![9, 4]);
}

#[test]
fn option_io_when_empty() {
    assert_eq!(idle_poll(IoOperation::Read), IdlePoll::Pending);
    assert_eq!(idle_poll(IoOperation::Write), IdlePoll::Pending);
    assert_eq!(idle_poll(IoOperation::WriteVectored), IdlePoll::Pending);
    assert_eq!(idle_poll(IoOperation::Flush), IdlePoll::ReadyOk);
    assert_eq!(idle_poll(IoOperation::Shutdown), IdlePoll::ReadyOk);
    let mut io: OptionIo<u8> = OptionIo::default();
    assert!(io.project().is_none());
    let mut io: OptionIo<u8> = OptionIo::from(Some(5));
    *io.project() = Some(6);
    assert_eq!(io.0, Some(6));
}

#[test]
fn protocol_values() {
    let e = Event::StateChanged { id: 1, state: ProcessState::Terminated(ExitStatus::Signaled(9)) };
    assert!(matches!(e.clone(), Event::StateChanged { id: 1, .. }));
    assert_eq!(Error::NotFound { id: None }, Error::NotFound { id: None });
    assert_ne!(Error::AlreadyConnected { id: 1 }, Error::InvalidRequest);
}

#[test]
fn error_messages() {
    assert_eq!(Error::NotFound { id: Some(3) }.message(), "Job Some(3) not found");
    assert_eq!(Error::NotFound { id: None }.message(), "Job None not found");
    assert_eq!(Error::AlreadyConnected { id: 12 }.message(), "Job 12 is already foreground somewhere else");
    assert_eq!(Error::InvalidRequest.message(), "Client sent an invalid request");
}
