use session_manager_wrapper::relay::{
    helper_outcome, replay, step, RelayAction, RelayError, RelayEvent, RelayState,
};

#[test]
fn connect_then_stream() {
    assert_eq!(
        step(RelayState::Connecting, RelayEvent::Connected),
        (RelayState::Streaming, RelayAction::Wait)
    );
    assert_eq!(RelayState::Streaming.result(), None);
}

#[test]
fn connect_failure_is_terminal() {
    let (state, action) = step(RelayState::Connecting, RelayEvent::ConnectFailed);
    assert_eq!(state, RelayState::Closed(Err(RelayError::ConnectFailed)));
    assert_eq!(action, RelayAction::Shutdown);
    assert_eq!(state.result(), Some(Err(RelayError::ConnectFailed)));
    assert_eq!(step(state, RelayEvent::Connected), (state, RelayAction::Wait));
}

#[test]
fn chunks_go_out_and_messages_come_in() {
    assert_eq!(
        step(RelayState::Streaming, RelayEvent::LocalChunk(vec![1, 2, 3])),
        (RelayState::Streaming, RelayAction::SendRemote(vec![1, 2, 3]))
    );
    assert_eq!(
        step(RelayState::Streaming, RelayEvent::RemoteMessage(vec![9, 8])),
        (RelayState::Streaming, RelayAction::WriteLocal(vec![9, 8]))
    );
}

#[test]
fn empty_chunk_is_not_forwarded() {
    assert_eq!(
        step(RelayState::Streaming, RelayEvent::LocalChunk(vec![])),
        (RelayState::Streaming, RelayAction::Wait)
    );
}

#[test]
fn end_of_either_side_closes_cleanly() {
    assert_eq!(
        step(RelayState::Streaming, RelayEvent::LocalEof),
        (RelayState::Closed(Ok(())), RelayAction::Shutdown)
    );
    assert_eq!(
        step(RelayState::Streaming, RelayEvent::RemoteClosed),
        (RelayState::Closed(Ok(())), RelayAction::Shutdown)
    );
    assert_eq!(RelayState::Closed(Ok(())).result(), Some(Ok(())));
}

#[test]
fn io_failure_is_a_stream_failure() {
    assert_eq!(
        step(RelayState::Streaming, RelayEvent::IoFailure),
        (RelayState::Closed(Err(RelayError::StreamFailure)), RelayAction::Shutdown)
    );
}

#[test]
fn echo_round_trip_keeps_bytes_and_order() {
    let chunks: Vec<Vec<u8>> = vec![vec![1, 2], vec![], vec![3], vec![4, 5, 6]];
    let mut state = step(RelayState::Connecting, RelayEvent::Connected).0;
    let mut written: Vec<u8> = Vec::new();
    for chunk in chunks.iter() {
        let (next, action) = step(state, RelayEvent::LocalChunk(chunk.clone()));
        state = next;
        if let RelayAction::SendRemote(sent) = action {
            let (next, action) = step(state, RelayEvent::RemoteMessage(sent));
            state = next;
            match action {
                RelayAction::WriteLocal(bytes) => written.extend(bytes),
                other => panic!("unexpected action {:?}", other),
            }
        }
    }
    assert_eq!(state, RelayState::Streaming);
    assert_eq!(written, vec![1, 2, 3, 4, 5, 6]);
}

#[test]
fn interrupt_shuts_down_and_moves_no_more_bytes() {
    let (state, actions) = replay(
        RelayState::Streaming,
        vec![
            RelayEvent::LocalChunk(vec![1]),
            RelayEvent::Interrupt,
            RelayEvent::LocalChunk(vec![2]),
            RelayEvent::RemoteMessage(vec![3]),
            RelayEvent::Interrupt,
            RelayEvent::Stopped,
            RelayEvent::Interrupt,
        ],
    );
    assert_eq!(state, RelayState::Closed(Ok(())));
    assert_eq!(
        actions,
        vec![
            RelayAction::SendRemote(vec![1]),
            RelayAction::Shutdown,
            RelayAction::Wait,
            RelayAction::Wait,
            RelayAction::Wait,
            RelayAction::Wait,
            RelayAction::Wait,
        ]
    );
}

#[test]
fn interrupt_while_connecting_cancels() {
    assert_eq!(
        step(RelayState::Connecting, RelayEvent::Interrupt),
        (RelayState::Cancelling, RelayAction::Shutdown)
    );
    assert_eq!(RelayState::Cancelling.result(), None);
}

#[test]
fn helper_exit_becomes_the_result() {
    assert_eq!(helper_outcome(Some(true)), Ok(()));
    assert_eq!(helper_outcome(Some(false)), Err(RelayError::StreamFailure));
    assert_eq!(helper_outcome(None), Err(RelayError::ConnectFailed));
}

#[test]
fn replay_of_nothing_changes_nothing() {
    assert_eq!(replay(RelayState::Connecting, vec![]), (RelayState::Connecting, vec![]));
}

#[test]
fn replay_keeps_each_direction_in_order() {
    let (state, actions) = replay(
        RelayState::Connecting,
        vec![
            RelayEvent::LocalChunk(vec![0]),
            RelayEvent::Connected,
            RelayEvent::LocalChunk(vec![1, 2]),
            RelayEvent::RemoteMessage(vec![7]),
            RelayEvent::LocalChunk(vec![3]),
            RelayEvent::RemoteMessage(vec![]),
            RelayEvent::RemoteMessage(vec![8, 9]),
            RelayEvent::RemoteClosed,
            RelayEvent::LocalChunk(vec![4]),
        ],
    );
    assert_eq!(state, RelayState::Closed(Ok(())));
    assert_eq!(
        actions,
        vec![
            RelayAction::Wait,
            RelayAction::Wait,
            RelayAction::SendRemote(vec![1, 2]),
            RelayAction::WriteLocal(vec![7]),
            RelayAction::SendRemote(vec![3]),
            RelayAction::WriteLocal(vec![]),
            RelayAction::WriteLocal(vec![8, 9]),
            RelayAction::Shutdown,
            RelayAction::Wait,
        ]
    );
}
