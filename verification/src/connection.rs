//! The decisions of the connection worker. The worker owns the sockets and
//! runs one loop; each pass of the loop looks for a command, for a
//! telemetry packet and for a message of the TCP channel, and sends the
//! control packet when it is due. The sockets, the channels and the clock
//! are the caller's: what they yield comes in as plain values, and what is
//! to be done with them goes out as plain values. The worker keeps the
//! steps of a pass in their order: a step that is asked of it out of turn
//! ends the connection.

use crate::ds::{DriverStationState, StateView, WallClock};
use crate::messages::ds::{framed, Tag, TcpTag, GAME_DATA_ID, MATCH_INFO_ID};
use crate::messages::{parse_telemetry, RioTcpPacket, RioUdpPacket};
use crate::packet::{be_u16, read_be_u16};
use vstd::prelude::*;
use vstd::utf8::encode_utf8;

verus! {

/// The time between two control packets, in milliseconds.
pub const CONTROL_PERIOD_MS: u64 = 20;

/// The UDP port of the robot that takes control packets.
pub const CONTROL_PORT: u16 = 1110;

/// The local UDP port that control packets leave from.
pub const CONTROL_LOCAL_PORT: u16 = 1149;

/// The local UDP port that telemetry arrives on.
pub const TELEMETRY_PORT: u16 = 1150;

/// The TCP port of the robot for messages in both directions.
pub const MESSAGE_PORT: u16 = 1740;

/// A command from the foreground to the worker.
#[derive(Debug, PartialEq, Eq)]
pub enum Signal {
    /// Send this tag over the TCP channel now.
    Tcp(TcpTag),
    /// End the connection.
    Disconnect,
}

/// What a look into the command channel found, without waiting.
#[derive(Debug, PartialEq, Eq)]
pub enum SignalPoll {
    Received(Signal),
    /// No command is waiting.
    Empty,
    /// The foreground has let go of the channel.
    Closed,
}

/// What the worker does about a look into the command channel.
#[derive(Debug, PartialEq, Eq)]
pub enum SignalAction {
    /// Go on with the pass.
    Proceed,
    /// Write these bytes to the TCP stream, then go on with the pass.
    Write(Vec<u8>),
    /// End the loop.
    Stop,
}

/// What a read from a socket found, without waiting.
#[derive(Debug, PartialEq, Eq)]
pub enum Received {
    Data(Vec<u8>),
    /// Nothing is there yet.
    WouldBlock,
    /// The socket reported another error.
    Failed,
}

/// How a send on a socket ended, without waiting.
#[derive(Copy, Clone, Debug, PartialEq, Eq, Structural)]
pub enum Sent {
    Done,
    /// The socket cannot take the bytes now.
    WouldBlock,
    /// The socket reported another error.
    Failed,
}

/// Whether the loop goes on.
#[derive(Copy, Clone, Debug, PartialEq, Eq, Structural)]
pub enum Flow {
    Continue,
    /// End the loop: the connection is over already.
    Stop,
    /// Hand the error of the socket to the foreground and end the loop.
    Fail,
}

/// What the worker does about the header of a frame.
#[derive(Copy, Clone, Debug, PartialEq, Eq, Structural)]
pub enum HeaderAction {
    /// No whole header is there: go on with the pass.
    Proceed,
    /// Read a payload of this many bytes next.
    Read(u16),
    /// End the loop: the connection is over already.
    Stop,
    /// Hand the error of the socket to the foreground and end the loop.
    Fail,
}

/// Where a connection stands.
#[derive(Copy, Clone, Debug, PartialEq, Eq, Structural)]
pub enum Phase {
    Disconnected,
    /// The sockets are being set up.
    Connecting,
    /// The loop runs.
    Connected,
}

/// The steps of one pass of the loop, in their order. A pass looks for a
/// command, then for a telemetry packet, then for the header of a frame on
/// the TCP stream and, where there is one, for its payload; only then it
/// looks at the clock, and where a control packet is due, it sends it.
#[derive(Copy, Clone, Debug, PartialEq, Eq, Structural)]
pub enum Stage {
    Signal,
    Telemetry,
    Header,
    Message,
    Tick,
    Sent,
}

/// What the worker sends when its sockets are ready, before the loop.
#[derive(Debug, PartialEq, Eq)]
pub struct Opening {
    /// The first control packet, for the UDP channel.
    pub control: Vec<u8>,
    /// The game data tag, for the TCP channel.
    pub game_data: Vec<u8>,
    /// The match information tag, for the TCP channel, behind the game
    /// data.
    pub match_info: Vec<u8>,
}

/// Whether `packet` is a control packet of the state `state`: the one of
/// some instant within the calendar, where the state asks for the clock.
pub open spec fn is_control_packet(state: StateView, packet: Seq<u8>) -> bool {
    if state.request_time {
        exists|now: WallClock| now.in_range() && packet == #[trigger] state.packet(now)
    } else {
        packet == state.packet_head()
    }
}

/// Whether a control packet is due at `now` when the last one went out at
/// `last_sent`, both in milliseconds on one clock that does not run
/// backwards.
pub open spec fn due(last_sent: u64, now: u64) -> bool {
    now - last_sent >= CONTROL_PERIOD_MS
}

/// The length of the payload that a frame header announces: the big-endian
/// number in its first two bytes. A header that is not whole announces
/// nothing.
pub open spec fn announced_len(header: Seq<u8>) -> Option<u16> {
    if header.len() < 2 {
        None
    } else {
        Some(be_u16(header[0], header[1]))
    }
}

/// The state after a telemetry packet arrived as `bytes`: the request for
/// the time is taken from it if it is a telemetry packet, and nothing
/// changes if it is not.
pub open spec fn after_telemetry(state: StateView, bytes: Seq<u8>) -> StateView {
    match parse_telemetry(bytes) {
        Some(packet) => StateView { request_time: packet.request_date, ..state },
        None => state,
    }
}

/// The worker of one connection: where the connection stands, which step
/// of a pass comes next, and the instant at which the last control packet
/// went out.
#[derive(Copy, Clone, Debug, PartialEq, Eq)]
pub struct Worker {
    pub phase: Phase,
    pub stage: Stage,
    /// Milliseconds on the caller's clock. The first control packet is the
    /// one that the worker opens with; before that the field says nothing.
    pub last_sent: u64,
}

impl Worker {
    /// Whether the loop runs and the step `stage` comes next.
    pub open spec fn awaits(self, stage: Stage) -> bool {
        self.phase == Phase::Connected && self.stage == stage
    }

    /// The worker with the step `stage` next.
    pub open spec fn at(self, stage: Stage) -> Worker {
        Worker { stage, ..self }
    }

    /// The worker once the connection is over.
    pub open spec fn ended(self) -> Worker {
        Worker { phase: Phase::Disconnected, ..self }
    }

    /// The worker after a step was asked of it out of turn: a loop that
    /// ran is over, and a worker without a running loop is as it was.
    pub open spec fn refused(self) -> Worker {
        if self.phase == Phase::Connected {
            self.ended()
        } else {
            self
        }
    }

    /// A worker that is setting up its sockets. No control packet has gone
    /// out yet.
    pub fn new() -> (worker: Worker)
        ensures
            worker == (Worker { phase: Phase::Connecting, stage: Stage::Signal, last_sent: 0 }),
    {
        Worker { phase: Phase::Connecting, stage: Stage::Signal, last_sent: 0 }
    }

    /// Whether the loop runs.
    pub fn is_connected(&self) -> (connected: bool)
        ensures
            connected == (self.phase == Phase::Connected),
    {
        self.phase == Phase::Connected
    }

    /// The sockets could not be set up: the connection is over.
    pub fn setup_failed(&mut self)
        ensures
            *final(self) == old(self).ended(),
    {
        self.phase = Phase::Disconnected;
    }

    /// Tells whether the step `stage` is in turn, and ends a running loop
    /// where it is not.
    fn in_turn(&mut self, stage: Stage) -> (yes: bool)
        ensures
            yes == old(self).awaits(stage),
            yes ==> *final(self) == *old(self),
            !yes ==> *final(self) == old(self).refused(),
    {
        if self.phase != Phase::Connected {
            false
        } else if self.stage != stage {
            self.phase = Phase::Disconnected;
            false
        } else {
            true
        }
    }

    /// The sockets are ready at the instant `now`: the loop can run, once
    /// the first control packet and the tags for the game data and the match
    /// have gone out. The period of the control packets is counted from
    /// this first one. A worker that is not setting up has nothing to open
    /// with.
    pub fn opened(&mut self, state: &mut DriverStationState, now: u64) -> (opening: Option<
        Opening,
    >)
        ensures
            opening is Some <==> old(self).phase == Phase::Connecting,
            opening is Some ==> {
                &&& *final(self) == (Worker {
                    phase: Phase::Connected,
                    stage: Stage::Signal,
                    last_sent: now,
                })
                &&& is_control_packet(old(state)@, opening->0.control@)
                &&& opening->0.game_data@ == framed(
                    GAME_DATA_ID,
                    encode_utf8(old(state)@.game_data),
                )
                &&& opening->0.match_info@ == framed(
                    MATCH_INFO_ID,
                    encode_utf8(old(state)@.competition) + seq![old(state)@.match_type.ordinal()],
                )
                &&& final(state)@ == old(state)@.after_packet()
            },
            opening is None ==> *final(self) == *old(self) && final(state)@ == old(state)@,
    {
        if self.phase == Phase::Connecting {
            self.phase = Phase::Connected;
            self.stage = Stage::Signal;
            self.last_sent = now;
            let control = state.udp_packet();
            let game_data = state.game_data_tag().to_packet();
            let match_info = state.match_info_tag().to_packet();
            Some(Opening { control, game_data, match_info })
        } else {
            None
        }
    }

    /// First step of a pass: the command channel. A request to disconnect
    /// and a channel that the foreground has let go of end the loop; a tag
    /// is framed, to be written at once. The telemetry socket comes next.
    pub fn on_signal(&mut self, poll: SignalPoll) -> (action: SignalAction)
        ensures
            !old(self).awaits(Stage::Signal) ==> action is Stop && *final(self) == old(
                self,
            ).refused(),
            old(self).awaits(Stage::Signal) ==> match poll {
                SignalPoll::Received(Signal::Tcp(tag)) => {
                    &&& action is Write
                    &&& action->Write_0@ == tag.wire()
                    &&& *final(self) == old(self).at(Stage::Telemetry)
                },
                SignalPoll::Received(Signal::Disconnect) | SignalPoll::Closed => {
                    &&& action is Stop
                    &&& *final(self) == old(self).ended()
                },
                SignalPoll::Empty => {
                    &&& action is Proceed
                    &&& *final(self) == old(self).at(Stage::Telemetry)
                },
            },
    {
        if !self.in_turn(Stage::Signal) {
            return SignalAction::Stop;
        }
        match poll {
            SignalPoll::Received(Signal::Tcp(tag)) => {
                self.stage = Stage::Telemetry;
                SignalAction::Write(tag.to_packet())
            },
            SignalPoll::Received(Signal::Disconnect) => {
                self.phase = Phase::Disconnected;
                SignalAction::Stop
            },
            SignalPoll::Closed => {
                self.phase = Phase::Disconnected;
                SignalAction::Stop
            },
            SignalPoll::Empty => {
                self.stage = Stage::Telemetry;
                SignalAction::Proceed
            },
        }
    }

    /// Second step of a pass: the telemetry socket. A packet that decodes
    /// is taken into the state, one that does not is dropped whole; that
    /// nothing is there is no event; another error ends the connection.
    /// The header of a frame comes next.
    pub fn on_telemetry(&mut self, state: &mut DriverStationState, received: Received) -> (flow:
        Flow)
        ensures
            !old(self).awaits(Stage::Telemetry) ==> {
                &&& flow is Stop
                &&& *final(self) == old(self).refused()
                &&& final(state)@ == old(state)@
            },
            old(self).awaits(Stage::Telemetry) ==> match received {
                Received::Data(bytes) => {
                    &&& flow is Continue
                    &&& *final(self) == old(self).at(Stage::Header)
                    &&& final(state)@ == after_telemetry(old(state)@, bytes@)
                },
                Received::WouldBlock => {
                    &&& flow is Continue
                    &&& *final(self) == old(self).at(Stage::Header)
                    &&& final(state)@ == old(state)@
                },
                Received::Failed => {
                    &&& flow is Fail
                    &&& *final(self) == old(self).ended()
                    &&& final(state)@ == old(state)@
                },
            },
    {
        if !self.in_turn(Stage::Telemetry) {
            return Flow::Stop;
        }
        match received {
            Received::Data(bytes) => {
                if let Some(packet) = RioUdpPacket::from_bytes(bytes) {
                    state.update_from_udp(packet);
                }
                self.stage = Stage::Header;
                Flow::Continue
            },
            Received::WouldBlock => {
                self.stage = Stage::Header;
                Flow::Continue
            },
            Received::Failed => {
                self.phase = Phase::Disconnected;
                Flow::Fail
            },
        }
    }

    /// Third step of a pass: the header of a frame on the TCP stream. A
    /// whole header announces the length of the payload, which is read
    /// next; a header that is not there, or not whole, announces nothing,
    /// and the clock comes next; another error ends the connection.
    pub fn on_header(&mut self, received: Received) -> (action: HeaderAction)
        ensures
            !old(self).awaits(Stage::Header) ==> action is Stop && *final(self) == old(
                self,
            ).refused(),
            old(self).awaits(Stage::Header) ==> match received {
                Received::Data(header) => match announced_len(header@) {
                    Some(len) => {
                        &&& action == HeaderAction::Read(len)
                        &&& *final(self) == old(self).at(Stage::Message)
                    },
                    None => {
                        &&& action is Proceed
                        &&& *final(self) == old(self).at(Stage::Tick)
                    },
                },
                Received::WouldBlock => {
                    &&& action is Proceed
                    &&& *final(self) == old(self).at(Stage::Tick)
                },
                Received::Failed => action is Fail && *final(self) == old(self).ended(),
            },
    {
        if !self.in_turn(Stage::Header) {
            return HeaderAction::Stop;
        }
        match received {
            Received::Data(header) => {
                if header.len() < 2 {
                    self.stage = Stage::Tick;
                    HeaderAction::Proceed
                } else {
                    self.stage = Stage::Message;
                    HeaderAction::Read(read_be_u16(header.as_slice()))
                }
            },
            Received::WouldBlock => {
                self.stage = Stage::Tick;
                HeaderAction::Proceed
            },
            Received::Failed => {
                self.phase = Phase::Disconnected;
                HeaderAction::Fail
            },
        }
    }

    /// The step behind a whole header: the payload of the frame. A message
    /// that decodes is taken into the state, which does not use it yet; one
    /// that does not is dropped whole; another error than that nothing is
    /// there ends the connection. The clock comes next.
    pub fn on_message(&mut self, state: &mut DriverStationState, received: Received) -> (flow:
        Flow)
        ensures
            final(state)@ == old(state)@,
            !old(self).awaits(Stage::Message) ==> flow is Stop && *final(self) == old(
                self,
            ).refused(),
            old(self).awaits(Stage::Message) ==> match received {
                Received::Data(_) | Received::WouldBlock => {
                    &&& flow is Continue
                    &&& *final(self) == old(self).at(Stage::Tick)
                },
                Received::Failed => flow is Fail && *final(self) == old(self).ended(),
            },
    {
        if !self.in_turn(Stage::Message) {
            return Flow::Stop;
        }
        match received {
            Received::Data(bytes) => {
                if let Some(message) = RioTcpPacket::from_bytes(bytes) {
                    state.update_from_tcp(message);
                }
                self.stage = Stage::Tick;
                Flow::Continue
            },
            Received::WouldBlock => {
                self.stage = Stage::Tick;
                Flow::Continue
            },
            Received::Failed => {
                self.phase = Phase::Disconnected;
                Flow::Fail
            },
        }
    }

    /// Last step of a pass: the clock. A control packet is built, to be
    /// sent at once, and the period starts anew, exactly when a period or
    /// more has passed on the caller's clock since the last one went out,
    /// be it the one that the worker opened with. Where none is due the
    /// pass is over, and the next one starts with the command channel.
    pub fn on_tick(&mut self, state: &mut DriverStationState, now: u64) -> (packet: Option<
        Vec<u8>,
    >)
        ensures
            packet is Some <==> old(self).awaits(Stage::Tick) && due(old(self).last_sent, now),
            packet is Some ==> {
                &&& *final(self) == (Worker { stage: Stage::Sent, last_sent: now, ..*old(self) })
                &&& is_control_packet(old(state)@, packet->0@)
                &&& final(state)@ == old(state)@.after_packet()
            },
            packet is None ==> final(state)@ == old(state)@,
            packet is None && old(self).awaits(Stage::Tick) ==> *final(self) == old(self).at(
                Stage::Signal,
            ),
            !old(self).awaits(Stage::Tick) ==> *final(self) == old(self).refused(),
    {
        if !self.in_turn(Stage::Tick) {
            return None;
        }
        if now >= self.last_sent && now - self.last_sent >= CONTROL_PERIOD_MS {
            self.stage = Stage::Sent;
            self.last_sent = now;
            Some(state.udp_packet())
        } else {
            self.stage = Stage::Signal;
            None
        }
    }

    /// The step behind a control packet: how its send ended. That the
    /// socket cannot take the packet now is no event; another error ends
    /// the connection. The pass is over, and the next one starts with the
    /// command channel.
    pub fn on_sent(&mut self, sent: Sent) -> (flow: Flow)
        ensures
            !old(self).awaits(Stage::Sent) ==> flow is Stop && *final(self) == old(self).refused(),
            old(self).awaits(Stage::Sent) ==> match sent {
                Sent::Done | Sent::WouldBlock => {
                    &&& flow is Continue
                    &&& *final(self) == old(self).at(Stage::Signal)
                },
                Sent::Failed => flow is Fail && *final(self) == old(self).ended(),
            },
    {
        if !self.in_turn(Stage::Sent) {
            return Flow::Stop;
        }
        match sent {
            Sent::Failed => {
                self.phase = Phase::Disconnected;
                Flow::Fail
            },
            _ => {
                self.stage = Stage::Signal;
                Flow::Continue
            },
        }
    }
}

/// What a look into the error channel of the worker found, without
/// waiting.
#[derive(Copy, Clone, Debug, PartialEq, Eq, Structural)]
pub enum ErrorPoll {
    /// No error is waiting.
    Empty,
    /// The worker has handed over an error of a socket.
    Reported,
    /// The worker has let go of the channel.
    Closed,
}

/// The health of a connection as the foreground sees it.
#[derive(Copy, Clone, Debug, PartialEq, Eq, Structural)]
pub enum Health {
    Healthy,
    /// An error of a socket is pending.
    Failed,
    /// The worker is gone.
    Aborted,
}

impl Health {
    /// The health that a look into the error channel shows.
    pub open spec fn shown_by(poll: ErrorPoll) -> Health {
        match poll {
            ErrorPoll::Empty => Health::Healthy,
            ErrorPoll::Reported => Health::Failed,
            ErrorPoll::Closed => Health::Aborted,
        }
    }

    /// The health that a look into the error channel shows.
    pub fn of(poll: ErrorPoll) -> (health: Health)
        ensures
            health == Health::shown_by(poll),
    {
        match poll {
            ErrorPoll::Empty => Health::Healthy,
            ErrorPoll::Reported => Health::Failed,
            ErrorPoll::Closed => Health::Aborted,
        }
    }

    /// Whether a driver station is connected: it has a connection, and a
    /// look into its error channel shows it healthy.
    pub fn is_connected(poll: Option<ErrorPoll>) -> (connected: bool)
        ensures
            connected <==> poll is Some && Health::shown_by(poll->0) == Health::Healthy,
    {
        match poll {
            Some(ErrorPoll::Empty) => true,
            _ => false,
        }
    }
}

/// The header of a framed tag announces what follows it, the id and the
/// payload, where these are fewer than 2^16 bytes: what one side frames,
/// the other side reads whole.
pub proof fn frame_announces_what_follows(id: u8, payload: Seq<u8>)
    requires
        1 + payload.len() < 0x1_0000,
    ensures
        announced_len(framed(id, payload)) == Some((1 + payload.len()) as u16),
        framed(id, payload).subrange(2, 3 + payload.len() as int) == seq![id] + payload,
        framed(id, payload).len() == 3 + payload.len(),
{
    crate::packet::u16_round_trip((1 + payload.len()) as u16);
}

/// The instants at which a control packet goes out in the passes of a run,
/// when the clock is looked at in each pass, at the instants `polls`, and
/// the last packet before these passes went out at `last_sent`.
pub open spec fn send_times(last_sent: u64, polls: Seq<u64>) -> Seq<u64>
    decreases polls.len(),
{
    if polls.len() == 0 {
        Seq::empty()
    } else if due(last_sent, polls.first()) {
        seq![polls.first()] + send_times(polls.first(), polls.drop_first())
    } else {
        send_times(last_sent, polls.drop_first())
    }
}

/// Whether each instant of `times` comes at least `least` and less than
/// `most` after the one before it, the first one after `start`.
pub open spec fn gaps_within(start: u64, times: Seq<u64>, least: int, most: int) -> bool
    decreases times.len(),
{
    times.len() == 0 || (least <= times.first() - start < most && gaps_within(
        times.first(),
        times.drop_first(),
        least,
        most,
    ))
}

/// Whether the passes of a run come in order and no more than `jitter`
/// apart, the first of them no more than `jitter` after `start`.
pub open spec fn polls_steady(start: u64, polls: Seq<u64>, jitter: int) -> bool
    decreases polls.len(),
{
    polls.len() == 0 || (0 <= polls.first() - start <= jitter && polls_steady(
        polls.first(),
        polls.drop_first(),
        jitter,
    ))
}

/// The instants at which control packets go out in the run of a worker
/// that opened at `opened_at`: the packet that it opened with, then those of
/// its passes.
pub open spec fn packet_times(opened_at: u64, polls: Seq<u64>) -> Seq<u64> {
    seq![opened_at] + send_times(opened_at, polls)
}

/// However the passes fall, a control packet is never less than a period
/// behind the one before it, the first one of the passes behind the packet
/// that went out at `last_sent`.
pub proof fn sends_not_early(last_sent: u64, polls: Seq<u64>)
    ensures
        gaps_within(
            last_sent,
            send_times(last_sent, polls),
            CONTROL_PERIOD_MS as int,
            u64::MAX + 1,
        ),
    decreases polls.len(),
{
    if polls.len() > 0 {
        if due(last_sent, polls.first()) {
            sends_not_early(polls.first(), polls.drop_first());
            assert(send_times(last_sent, polls).drop_first() == send_times(
                polls.first(),
                polls.drop_first(),
            ));
        } else {
            sends_not_early(last_sent, polls.drop_first());
        }
    }
}

/// Where the passes of a run follow each other by no more than `jitter`,
/// and the first comes less than a period and `jitter` after the last
/// control packet, two control packets are less than a period and `jitter`
/// apart.
pub proof fn sends_not_late(last_sent: u64, polls: Seq<u64>, jitter: int)
    requires
        polls.len() > 0 ==> 0 <= polls.first() - last_sent < CONTROL_PERIOD_MS + jitter,
        polls.len() > 0 ==> polls_steady(polls.first(), polls.drop_first(), jitter),
    ensures
        gaps_within(
            last_sent,
            send_times(last_sent, polls),
            CONTROL_PERIOD_MS as int,
            CONTROL_PERIOD_MS + jitter,
        ),
    decreases polls.len(),
{
    if polls.len() > 0 {
        let later = polls.drop_first();
        if due(last_sent, polls.first()) {
            sends_not_late(polls.first(), later, jitter);
            assert(send_times(last_sent, polls).drop_first() == send_times(polls.first(), later));
        } else {
            sends_not_late(last_sent, later, jitter);
        }
    }
}

/// Instants whose gaps are within bounds, the first of them counted from
/// `start`, are within these bounds of their neighbours when `start` is put
/// before them.
proof fn gaps_of_neighbours(start: u64, times: Seq<u64>, least: int, most: int)
    requires
        gaps_within(start, times, least, most),
    ensures
        forall|i: int|
            0 < i <= times.len() ==> least <= #[trigger] (seq![start] + times)[i] - (seq![start]
                + times)[i - 1] < most,
    decreases times.len(),
{
    if times.len() > 0 {
        let all = seq![start] + times;
        let later = seq![times.first()] + times.drop_first();
        gaps_of_neighbours(times.first(), times.drop_first(), least, most);
        assert(later == times);
        assert forall|i: int| 0 < i <= times.len() implies least <= #[trigger] all[i] - all[i
            - 1] < most by {
            if i > 1 {
                assert(all[i] == later[i - 1]);
                assert(all[i - 1] == later[i - 2]);
            }
        }
    }
}

/// From the packet that a worker opens with onwards, however its passes
/// fall, no control packet goes out less than a period after the one
/// before it.
pub proof fn packets_not_early(opened_at: u64, polls: Seq<u64>)
    ensures
        forall|i: int|
            0 < i < packet_times(opened_at, polls).len() ==> #[trigger] packet_times(
                opened_at,
                polls,
            )[i] - packet_times(opened_at, polls)[i - 1] >= CONTROL_PERIOD_MS,
{
    sends_not_early(opened_at, polls);
    gaps_of_neighbours(
        opened_at,
        send_times(opened_at, polls),
        CONTROL_PERIOD_MS as int,
        u64::MAX + 1,
    );
}

/// From the packet that a worker opens with onwards, where its passes
/// follow each other, and the first of them the opening, by no more than
/// `jitter`, every control packet goes out less than a period and `jitter`
/// after the one before it.
pub proof fn packets_not_late(opened_at: u64, polls: Seq<u64>, jitter: int)
    requires
        polls_steady(opened_at, polls, jitter),
    ensures
        forall|i: int|
            0 < i < packet_times(opened_at, polls).len() ==> #[trigger] packet_times(
                opened_at,
                polls,
            )[i] - packet_times(opened_at, polls)[i - 1] < CONTROL_PERIOD_MS + jitter,
{
    sends_not_late(opened_at, polls, jitter);
    gaps_of_neighbours(
        opened_at,
        send_times(opened_at, polls),
        CONTROL_PERIOD_MS as int,
        CONTROL_PERIOD_MS + jitter,
    );
}

} // verus!
