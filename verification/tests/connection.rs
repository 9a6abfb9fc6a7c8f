use libds::connection::{
    ErrorPoll, Flow, HeaderAction, Health, Phase, Received, Sent, Signal, SignalAction,
    SignalPoll, Stage, Worker, CONTROL_LOCAL_PORT, CONTROL_PERIOD_MS, CONTROL_PORT, MESSAGE_PORT,
    TELEMETRY_PORT,
};
use libds::ds::DriverStationState;
use libds::messages::ds::{GameData, MatchInfo, TcpTag};
use libds::states::MatchType;

fn connected(now: u64) -> (Worker, DriverStationState) {
    let mut worker = Worker::new();
    let mut state = DriverStationState::new();
    assert!(worker.opened(&mut state, now).is_some());
    (worker, state)
}

fn running(stage: Stage, last_sent: u64) -> (Worker, DriverStationState) {
    (Worker { phase: Phase::Connected, stage, last_sent }, DriverStationState::new())
}

fn at(stage: Stage, last_sent: u64) -> Worker {
    Worker { phase: Phase::Connected, stage, last_sent }
}

fn over(stage: Stage, last_sent: u64) -> Worker {
    Worker { phase: Phase::Disconnected, stage, last_sent }
}

#[test]
fn new_worker_is_connecting() {
    let worker = Worker::new();
    assert_eq!(worker, Worker { phase: Phase::Connecting, stage: Stage::Signal, last_sent: 0 });
    assert!(!worker.is_connected());
}

#[test]
fn worker_opens_with_control_packet_and_both_tags() {
    let mut worker = Worker::new();
    let mut state = DriverStationState::new();
    state.set_game_data("lll".to_string());
    state.set_match_info(MatchInfo {
        competition: "cup".to_string(),
        match_type: MatchType::Elimination,
    });
    let opening = worker.opened(&mut state, 30).unwrap();
    assert_eq!(
        opening.control,
        vec![0, 0, 1, 0, 0, 1, 0x0c, 1, 0x0c, 1, 0x0c, 1, 0x0c, 1, 0x0c, 1, 0x0c]
    );
    assert_eq!(opening.game_data, vec![0x00, 0x04, 0x0e, b'l', b'l', b'l']);
    assert_eq!(opening.match_info, vec![0x00, 0x05, 0x07, b'c', b'u', b'p', 3]);
    assert_eq!(worker, at(Stage::Signal, 30));
    assert!(worker.is_connected());
    assert_eq!(state.sequence_num(), 1);
}

#[test]
fn worker_opens_only_once() {
    let (mut worker, mut state) = connected(7);
    assert_eq!(worker.opened(&mut state, 100), None);
    assert_eq!(worker, at(Stage::Signal, 7));
    assert_eq!(state.sequence_num(), 1);
}

#[test]
fn worker_whose_setup_failed_is_disconnected() {
    let mut worker = Worker::new();
    worker.setup_failed();
    assert_eq!(worker.phase, Phase::Disconnected);
    let mut state = DriverStationState::new();
    assert_eq!(worker.opened(&mut state, 5), None);
    assert_eq!(worker, over(Stage::Signal, 0));
    assert_eq!(state.sequence_num(), 0);
}

#[test]
fn no_command_lets_the_pass_go_on() {
    let (mut worker, _) = connected(0);
    assert_eq!(worker.on_signal(SignalPoll::Empty), SignalAction::Proceed);
    assert_eq!(worker, at(Stage::Telemetry, 0));
}

#[test]
fn tag_command_is_framed_and_written() {
    let (mut worker, _) = connected(0);
    let tag = TcpTag::GameData(GameData::new("abc".to_string()));
    assert_eq!(
        worker.on_signal(SignalPoll::Received(Signal::Tcp(tag))),
        SignalAction::Write(vec![0x00, 0x04, 0x0e, 0x61, 0x62, 0x63])
    );
    assert_eq!(worker, at(Stage::Telemetry, 0));
}

#[test]
fn disconnect_command_ends_the_loop() {
    let (mut worker, _) = connected(0);
    assert_eq!(worker.on_signal(SignalPoll::Received(Signal::Disconnect)), SignalAction::Stop);
    assert_eq!(worker, over(Stage::Signal, 0));
}

#[test]
fn closed_command_channel_ends_the_loop() {
    let (mut worker, _) = connected(0);
    assert_eq!(worker.on_signal(SignalPoll::Closed), SignalAction::Stop);
    assert_eq!(worker, over(Stage::Signal, 0));
}

#[test]
fn telemetry_is_taken_into_the_state() {
    let (mut worker, mut state) = running(Stage::Telemetry, 0);
    let flow = worker.on_telemetry(&mut state, Received::Data(vec![0, 9, 1, 0, 0, 12, 0, 1]));
    assert_eq!(flow, Flow::Continue);
    assert!(state.request_time());
    assert_eq!(worker, at(Stage::Header, 0));

    let mut worker = at(Stage::Telemetry, 0);
    let flow = worker.on_telemetry(&mut state, Received::Data(vec![0, 10, 1, 0, 0, 12, 0, 0]));
    assert_eq!(flow, Flow::Continue);
    assert!(!state.request_time());
}

#[test]
fn malformed_telemetry_is_dropped_whole() {
    let mut state = DriverStationState::new();
    let mut worker = at(Stage::Telemetry, 0);
    assert_eq!(
        worker.on_telemetry(&mut state, Received::Data(vec![0, 9, 1, 0, 0, 12, 0, 1])),
        Flow::Continue
    );
    assert!(state.request_time());
    for bytes in [vec![0, 9, 1, 0, 0, 12, 0], vec![0, 9, 1, 0x60, 0, 12, 0, 0], Vec::new()] {
        let mut worker = at(Stage::Telemetry, 0);
        assert_eq!(worker.on_telemetry(&mut state, Received::Data(bytes)), Flow::Continue);
        assert!(state.request_time());
        assert_eq!(worker, at(Stage::Header, 0));
    }
}

#[test]
fn nothing_to_receive_is_no_event() {
    let mut state = DriverStationState::new();
    let mut worker = at(Stage::Telemetry, 0);
    assert_eq!(worker.on_telemetry(&mut state, Received::WouldBlock), Flow::Continue);
    assert_eq!(worker, at(Stage::Header, 0));
    assert_eq!(worker.on_header(Received::WouldBlock), HeaderAction::Proceed);
    assert_eq!(worker, at(Stage::Tick, 0));
    let mut worker = at(Stage::Message, 0);
    assert_eq!(worker.on_message(&mut state, Received::WouldBlock), Flow::Continue);
    assert_eq!(worker, at(Stage::Tick, 0));
    let mut worker = at(Stage::Sent, 0);
    assert_eq!(worker.on_sent(Sent::WouldBlock), Flow::Continue);
    assert_eq!(worker, at(Stage::Signal, 0));
    assert!(!state.request_time());
    assert_eq!(state.sequence_num(), 0);
}

#[test]
fn socket_error_on_telemetry_ends_the_connection() {
    let (mut worker, mut state) = running(Stage::Telemetry, 0);
    assert_eq!(worker.on_telemetry(&mut state, Received::Failed), Flow::Fail);
    assert_eq!(worker, over(Stage::Telemetry, 0));
}

#[test]
fn frame_header_announces_the_payload_length() {
    for (header, len) in [(vec![0x00, 0x05], 5u16), (vec![0x01, 0x02], 258), (vec![0, 0], 0)] {
        let mut worker = at(Stage::Header, 0);
        assert_eq!(worker.on_header(Received::Data(header)), HeaderAction::Read(len));
        assert_eq!(worker, at(Stage::Message, 0));
    }
}

#[test]
fn frame_header_that_is_not_whole_announces_nothing() {
    for header in [vec![0x05], Vec::new()] {
        let mut worker = at(Stage::Header, 0);
        assert_eq!(worker.on_header(Received::Data(header)), HeaderAction::Proceed);
        assert_eq!(worker, at(Stage::Tick, 0));
    }
}

#[test]
fn socket_error_on_the_header_ends_the_connection() {
    let mut worker = at(Stage::Header, 0);
    assert_eq!(worker.on_header(Received::Failed), HeaderAction::Fail);
    assert_eq!(worker, over(Stage::Header, 0));
}

#[test]
fn tcp_message_leaves_the_state_as_it_is() {
    let mut state = DriverStationState::new();
    let mut radio = vec![0x00];
    radio.extend_from_slice(b"radio");
    for frame in [radio, vec![0xee, 1], Vec::new()] {
        let mut worker = at(Stage::Message, 0);
        assert_eq!(worker.on_message(&mut state, Received::Data(frame)), Flow::Continue);
        assert_eq!(worker, at(Stage::Tick, 0));
    }
    assert_eq!(state.sequence_num(), 0);
    assert!(!state.request_time());
}

#[test]
fn socket_error_on_a_message_ends_the_connection() {
    let (mut worker, mut state) = running(Stage::Message, 0);
    assert_eq!(worker.on_message(&mut state, Received::Failed), Flow::Fail);
    assert_eq!(worker, over(Stage::Message, 0));
}

#[test]
fn control_packet_is_due_after_a_period() {
    let (mut worker, mut state) = running(Stage::Tick, 100);
    assert_eq!(worker.on_tick(&mut state, 100), None);
    assert_eq!(worker, at(Stage::Signal, 100));

    let mut worker = at(Stage::Tick, 100);
    assert_eq!(worker.on_tick(&mut state, 119), None);
    assert_eq!(worker, at(Stage::Signal, 100));
    assert_eq!(state.sequence_num(), 0);

    let mut worker = at(Stage::Tick, 100);
    let packet = worker.on_tick(&mut state, 120).unwrap();
    assert_eq!(&packet[..2], &[0x00, 0x00]);
    assert_eq!(packet.len(), 17);
    assert_eq!(worker, at(Stage::Sent, 120));
    assert_eq!(state.sequence_num(), 1);

    let mut worker = at(Stage::Tick, 120);
    assert_eq!(worker.on_tick(&mut state, 139), None);
    let mut worker = at(Stage::Tick, 120);
    assert!(worker.on_tick(&mut state, 1000).is_some());
    assert_eq!(worker, at(Stage::Sent, 1000));
}

#[test]
fn clock_that_ran_backwards_sends_nothing() {
    let (mut worker, mut state) = running(Stage::Tick, 100);
    assert_eq!(worker.on_tick(&mut state, 0), None);
    assert_eq!(worker, at(Stage::Signal, 100));
    let mut worker = at(Stage::Tick, 100);
    assert_eq!(worker.on_tick(&mut state, 99), None);
    assert_eq!(worker.last_sent, 100);
}

#[test]
fn send_that_failed_ends_the_connection() {
    let mut worker = at(Stage::Sent, 0);
    assert_eq!(worker.on_sent(Sent::Done), Flow::Continue);
    assert_eq!(worker, at(Stage::Signal, 0));
    let mut worker = at(Stage::Sent, 0);
    assert_eq!(worker.on_sent(Sent::Failed), Flow::Fail);
    assert_eq!(worker, over(Stage::Sent, 0));
}

/// One pass of the loop over sockets that have nothing to say, at the
/// instant `now`. Tells whether a control packet went out.
fn quiet_pass(worker: &mut Worker, state: &mut DriverStationState, now: u64) -> bool {
    assert_eq!(worker.on_signal(SignalPoll::Empty), SignalAction::Proceed);
    assert_eq!(worker.on_telemetry(state, Received::WouldBlock), Flow::Continue);
    assert_eq!(worker.on_header(Received::WouldBlock), HeaderAction::Proceed);
    match worker.on_tick(state, now) {
        Some(_) => {
            assert_eq!(worker.on_sent(Sent::Done), Flow::Continue);
            true
        }
        None => false,
    }
}

#[test]
fn period_is_counted_from_the_opening_packet() {
    let mut worker = Worker::new();
    let mut state = DriverStationState::new();
    assert!(worker.opened(&mut state, 30).is_some());
    assert!(!quiet_pass(&mut worker, &mut state, 31));
    assert!(!quiet_pass(&mut worker, &mut state, 49));
    assert_eq!(worker, at(Stage::Signal, 30));
    assert!(quiet_pass(&mut worker, &mut state, 50));
    assert_eq!(worker, at(Stage::Signal, 50));
    assert_eq!(state.sequence_num(), 2);
}

#[test]
fn simulated_run_keeps_the_cadence() {
    for step in [1u64, 3, 7, 19, 20, 21, 33] {
        let opened_at = 1000 + step;
        let (mut worker, mut state) = connected(opened_at);
        let mut last = opened_at;
        let mut sent = 0;
        let mut now = opened_at;
        while now <= opened_at + 2000 {
            if quiet_pass(&mut worker, &mut state, now) {
                let gap = now - last;
                assert!(gap >= CONTROL_PERIOD_MS);
                assert!(gap < CONTROL_PERIOD_MS + step);
                last = now;
                sent += 1;
            } else {
                assert!(now - last < CONTROL_PERIOD_MS);
            }
            assert_eq!(worker, at(Stage::Signal, last));
            now += step;
        }
        assert!(sent >= 2000 / (CONTROL_PERIOD_MS + step));
        assert_eq!(state.sequence_num() as u64, 1 + sent);
    }
}

#[test]
fn pass_with_a_frame_takes_telemetry_and_message_before_the_packet() {
    let (mut worker, mut state) = connected(0);
    let tag = TcpTag::GameData(GameData::new("x".to_string()));
    assert_eq!(
        worker.on_signal(SignalPoll::Received(Signal::Tcp(tag))),
        SignalAction::Write(vec![0x00, 0x02, 0x0e, b'x'])
    );
    assert_eq!(
        worker.on_telemetry(&mut state, Received::Data(vec![0, 1, 1, 0, 0, 12, 0, 1])),
        Flow::Continue
    );
    assert_eq!(worker.on_header(Received::Data(vec![0x00, 0x03])), HeaderAction::Read(3));
    let frame = Received::Data(vec![0x00, b'o', b'k']);
    assert_eq!(worker.on_message(&mut state, frame), Flow::Continue);
    let packet = worker.on_tick(&mut state, 25).unwrap();
    assert_eq!(packet.len(), 17 + 5 + 12);
    assert_eq!(&packet[17..19], &[4, 0x10]);
    assert_eq!(worker.on_sent(Sent::Done), Flow::Continue);
    assert_eq!(worker, at(Stage::Signal, 25));
}

#[test]
fn step_out_of_turn_ends_the_connection() {
    let mut state = DriverStationState::new();

    let mut worker = at(Stage::Signal, 0);
    assert_eq!(worker.on_tick(&mut state, 1000), None);
    assert_eq!(worker, over(Stage::Signal, 0));
    assert_eq!(state.sequence_num(), 0);

    let mut worker = at(Stage::Signal, 0);
    assert_eq!(
        worker.on_telemetry(&mut state, Received::Data(vec![0, 9, 1, 0, 0, 12, 0, 1])),
        Flow::Stop
    );
    assert_eq!(worker, over(Stage::Signal, 0));
    assert!(!state.request_time());

    let mut worker = at(Stage::Telemetry, 0);
    assert_eq!(worker.on_signal(SignalPoll::Empty), SignalAction::Stop);
    assert_eq!(worker, over(Stage::Telemetry, 0));

    let mut worker = at(Stage::Tick, 0);
    assert_eq!(worker.on_header(Received::Data(vec![0, 1])), HeaderAction::Stop);
    assert_eq!(worker, over(Stage::Tick, 0));

    let mut worker = at(Stage::Header, 0);
    assert_eq!(worker.on_message(&mut state, Received::Data(vec![0])), Flow::Stop);
    assert_eq!(worker, over(Stage::Header, 0));

    let mut worker = at(Stage::Tick, 0);
    assert_eq!(worker.on_sent(Sent::Done), Flow::Stop);
    assert_eq!(worker, over(Stage::Tick, 0));
}

#[test]
fn worker_that_is_not_open_yet_takes_no_step() {
    let mut state = DriverStationState::new();
    let mut worker = Worker::new();
    assert_eq!(worker.on_signal(SignalPoll::Empty), SignalAction::Stop);
    assert_eq!(worker.on_tick(&mut state, 1000), None);
    assert_eq!(worker, Worker::new());
    assert!(worker.opened(&mut state, 1000).is_some());
}

#[test]
fn disconnected_worker_does_nothing_more() {
    let mut state = DriverStationState::new();
    for stage in
        [Stage::Signal, Stage::Telemetry, Stage::Header, Stage::Message, Stage::Tick, Stage::Sent]
    {
        let mut worker = over(stage, 0);
        assert_eq!(worker.on_signal(SignalPoll::Empty), SignalAction::Stop);
        assert_eq!(
            worker.on_telemetry(&mut state, Received::Data(vec![0, 9, 1, 0, 0, 12, 0, 1])),
            Flow::Stop
        );
        assert_eq!(worker.on_header(Received::Data(vec![0, 1])), HeaderAction::Stop);
        assert_eq!(worker.on_message(&mut state, Received::Data(vec![0])), Flow::Stop);
        assert_eq!(worker.on_tick(&mut state, 10_000), None);
        assert_eq!(worker.on_sent(Sent::Done), Flow::Stop);
        assert_eq!(worker.opened(&mut state, 10_000), None);
        assert_eq!(worker, over(stage, 0));
    }
    assert!(!state.request_time());
    assert_eq!(state.sequence_num(), 0);
}

#[test]
fn socket_error_is_handed_over_only_once() {
    let (mut worker, mut state) = running(Stage::Telemetry, 0);
    assert_eq!(worker.on_telemetry(&mut state, Received::Failed), Flow::Fail);
    assert_eq!(worker.on_telemetry(&mut state, Received::Failed), Flow::Stop);
    assert_eq!(worker.on_message(&mut state, Received::Failed), Flow::Stop);
    assert_eq!(worker.on_header(Received::Failed), HeaderAction::Stop);
    assert_eq!(worker.on_sent(Sent::Failed), Flow::Stop);
}

#[test]
fn health_follows_the_error_channel() {
    assert_eq!(Health::of(ErrorPoll::Empty), Health::Healthy);
    assert_eq!(Health::of(ErrorPoll::Reported), Health::Failed);
    assert_eq!(Health::of(ErrorPoll::Closed), Health::Aborted);
}

#[test]
fn connected_means_a_healthy_connection() {
    assert!(!Health::is_connected(None));
    assert!(Health::is_connected(Some(ErrorPoll::Empty)));
    assert!(!Health::is_connected(Some(ErrorPoll::Reported)));
    assert!(!Health::is_connected(Some(ErrorPoll::Closed)));
}

#[test]
fn endpoints_of_the_link() {
    assert_eq!(CONTROL_PERIOD_MS, 20);
    assert_eq!(CONTROL_PORT, 1110);
    assert_eq!(CONTROL_LOCAL_PORT, 1149);
    assert_eq!(TELEMETRY_PORT, 1150);
    assert_eq!(MESSAGE_PORT, 1740);
}
