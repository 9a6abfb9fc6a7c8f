//! The commanded state of the driver station and the control packet that
//! it becomes, once per period, on the UDP channel.

use crate::flags::{avoids, contains_all, contains_none, covers, has_bit, low_two_bits};
use crate::joystick::{parse_tag, tag_round_trip, Joystick, JoystickView};
use crate::messages::ds::{GameData, MatchInfo, TcpTag};
use crate::messages::{RioTcpPacket, RioUdpPacket};
use crate::packet::{u16_be, u32_be, PacketWriter};
use crate::states::{Alliance, MatchType, RobotMode};
use chrono::{Datelike, Timelike, Utc};
use vstd::prelude::*;

verus! {

/// The version of the protocol, the third byte of every control packet.
pub const COMM_VERSION: u8 = 0x01;

/// Control bit: the robot is to stop at once.
pub const CONTROL_ESTOP: u8 = 0b1000_0000;

/// Control bit: a field management system is connected. Never set by this
/// driver station.
pub const CONTROL_FMS_CONNECTED: u8 = 0b0000_1000;

/// Control bit: the robot is enabled.
pub const CONTROL_ENABLED: u8 = 0b0000_0100;

/// The control bits that have no meaning.
pub const CONTROL_RESERVED: u8 = 0b0111_0000;

/// The number of joystick slots.
pub const JOYSTICK_SLOTS: usize = 6;

/// The id of a joystick tag.
pub const JOYSTICK_TAG_ID: u8 = 0x0c;

/// The id of the tag that carries the date and time.
pub const DATE_TAG_ID: u8 = 0x0f;

/// The id of the tag that names the timezone.
pub const TIMEZONE_TAG_ID: u8 = 0x10;

/// The control byte for a commanded state: the emergency stop in bit 7,
/// the enable flag in bit 2, the mode in bits 1 and 0. The bits do not
/// overlap, so their sum is the byte.
pub open spec fn control_bits(estop: bool, enabled: bool, mode: RobotMode) -> u8 {
    ((if estop {
        CONTROL_ESTOP as int
    } else {
        0
    }) + (if enabled {
        CONTROL_ENABLED as int
    } else {
        0
    }) + mode.code()) as u8
}

/// The control byte of a control packet: a set of the control bits. No
/// reserved bit is ever set in it.
#[derive(Copy, Clone, Debug)]
pub struct Control {
    bits: u8,
}

impl View for Control {
    type V = u8;

    /// The byte that holds the set.
    closed spec fn view(&self) -> u8 {
        self.bits
    }
}

impl Control {
    /// What holds of every control byte: no reserved bit is set.
    #[verifier::type_invariant]
    pub open spec fn no_reserved_bit(&self) -> bool {
        avoids(self@, CONTROL_RESERVED)
    }

    /// The set with no bit in it.
    pub fn empty() -> (control: Control)
        ensures
            control@ == 0,
    {
        Control { bits: 0 }
    }

    /// The set that a byte holds, unless a reserved bit is set in it.
    pub fn from_bits(bits: u8) -> (control: Option<Control>)
        ensures
            control is Some <==> avoids(bits, CONTROL_RESERVED),
            control is Some ==> control->0@ == bits,
    {
        if contains_none(bits, CONTROL_RESERVED) {
            Some(Control { bits })
        } else {
            None
        }
    }

    /// The byte that holds the set.
    pub fn bits(&self) -> (bits: u8)
        ensures
            bits == self@,
            avoids(bits, CONTROL_RESERVED),
    {
        proof {
            use_type_invariant(self);
        }
        self.bits
    }

    /// Whether every bit of `mask` is set.
    pub fn contains(&self, mask: u8) -> (all: bool)
        ensures
            all == covers(self@, mask),
    {
        contains_all(self.bits, mask)
    }

    /// The mode that the two mode bits name: 00 teleoperated, 01 test,
    /// 10 autonomous, and none for 11.
    pub fn robot_mode(&self) -> (mode: Option<RobotMode>)
        ensures
            mode == RobotMode::of_code(self@ % 4),
    {
        RobotMode::from(low_two_bits(self.bits))
    }

    /// The control byte for a commanded state.
    pub fn commanding(estop: bool, enabled: bool, mode: RobotMode) -> (control: Control)
        ensures
            control@ == control_bits(estop, enabled, mode),
    {
        let mut bits: u8 = mode.to_u8();
        if enabled {
            assert(bits <= 2 ==> bits | 0x04 == bits + 0x04) by (bit_vector);
            bits = bits | CONTROL_ENABLED;
        }
        if estop {
            assert(bits <= 6 ==> bits | 0x80 == bits + 0x80) by (bit_vector);
            bits = bits | CONTROL_ESTOP;
        }
        Control { bits }
    }
}

/// A reading of the wall clock in UTC, by its calendar fields.
#[derive(Copy, Clone, Debug, PartialEq, Eq)]
pub struct WallClock {
    pub year: i32,
    /// The month, counted from 0.
    pub month0: u32,
    /// The day of the month, counted from 1.
    pub day: u32,
    pub hour: u32,
    pub minute: u32,
    pub second: u32,
    /// The nanoseconds since the whole second; one thousand million and
    /// more during a leap second.
    pub nanosecond: u32,
}

impl WallClock {
    /// Each field is in the range that the calendar gives it.
    pub open spec fn in_range(self) -> bool {
        &&& self.month0 <= 11
        &&& 1 <= self.day <= 31
        &&& self.hour <= 23
        &&& self.minute <= 59
        &&& self.second <= 59
        &&& self.nanosecond <= 1_999_999_999
    }
}

/// `chrono::Utc::now`, taken apart by `Datelike::year`, `month0`, `day` and
/// `Timelike::hour`, `minute`, `second`, `nanosecond`. Which instant comes
/// back is not stated; every field of it is within the range that chrono
/// documents for it. The outside function panics where the system clock
/// stands before 1970.
#[verifier::external_body]
fn utc_now() -> (now: WallClock)
    ensures
        now.in_range(),
{
    let now = Utc::now();
    WallClock {
        year: now.year(),
        month0: now.month0(),
        day: now.day(),
        hour: now.hour(),
        minute: now.minute(),
        second: now.second(),
        nanosecond: now.nanosecond(),
    }
}

/// The low byte of a number.
pub open spec fn low_byte(v: int) -> u8 {
    (v % 0x100) as u8
}

/// The tag that names the timezone of the date tag, which is always UTC:
/// the length of what follows, the id, the three letters.
pub open spec fn timezone_tag() -> Seq<u8> {
    seq![4u8, TIMEZONE_TAG_ID, 0x55, 0x54, 0x43]
}

/// The tag that carries the date and time: the length of what follows, the
/// id, the microseconds of the second as a big-endian `u32`, then one byte
/// each for the second, the minute, the hour, the day of the month, the
/// month counted from 0, and the years since 1900.
pub open spec fn date_tag(now: WallClock) -> Seq<u8> {
    seq![11u8, DATE_TAG_ID] + u32_be(now.nanosecond / 1000) + seq![
        low_byte(now.second as int),
        low_byte(now.minute as int),
        low_byte(now.hour as int),
        low_byte(now.day as int),
        low_byte(now.month0 as int),
        low_byte(now.year - 1900),
    ]
}

/// Encodes the date tag for a reading of the clock.
pub fn date_packet(now: &WallClock) -> (tag: Vec<u8>)
    ensures
        tag@ == date_tag(*now),
        tag@.len() == 12,
{
    let mut packet = PacketWriter::new();
    packet.write_u8(11);
    packet.write_u8(DATE_TAG_ID);
    packet.write_u32(now.nanosecond / 1000);
    let second: u8 = (now.second % 0x100) as u8;
    let minute: u8 = (now.minute % 0x100) as u8;
    let hour: u8 = (now.hour % 0x100) as u8;
    let day: u8 = (now.day % 0x100) as u8;
    let month0: u8 = (now.month0 % 0x100) as u8;
    let years: i64 = now.year as i64 - 1900 + 0x1_0000_0000;
    let year: u8 = (years % 0x100) as u8;
    packet.write_u8(second);
    packet.write_u8(minute);
    packet.write_u8(hour);
    packet.write_u8(day);
    packet.write_u8(month0);
    packet.write_u8(year);
    packet.into_vec()
}

/// The length byte of an occupied joystick slot: the length of the tag and
/// of the id before it, modulo 256 to fit the byte.
pub open spec fn slot_len(stick: JoystickView) -> u8 {
    low_byte(stick.tag_len() + 1)
}

/// One joystick slot in the control packet: the length of what follows,
/// the id, and the tag of the joystick; an empty slot is the id alone.
pub open spec fn slot_tag(slot: Option<JoystickView>) -> Seq<u8> {
    match slot {
        Some(stick) => seq![slot_len(stick), JOYSTICK_TAG_ID] + stick.tag(),
        None => seq![1u8, JOYSTICK_TAG_ID],
    }
}

/// The six joystick slots in the control packet, one after the other.
pub open spec fn slot_tags(slots: Seq<Option<JoystickView>>) -> Seq<u8> {
    slot_tag(slots[0]) + slot_tag(slots[1]) + slot_tag(slots[2]) + slot_tag(slots[3]) + slot_tag(
        slots[4],
    ) + slot_tag(slots[5])
}

/// A run of joystick slots of any length, one after the other.
spec fn slot_run(slots: Seq<Option<JoystickView>>) -> Seq<u8>
    decreases slots.len(),
{
    if slots.len() == 0 {
        Seq::empty()
    } else {
        slot_tag(slots.first()) + slot_run(slots.drop_first())
    }
}

/// What the commanded state holds.
pub struct StateView {
    pub joysticks: Seq<Option<JoystickView>>,
    pub estop: bool,
    pub enabled: bool,
    pub mode: RobotMode,
    pub alliance: Alliance,
    pub game_data: Seq<char>,
    pub competition: Seq<char>,
    pub match_type: MatchType,
    pub sequence_num: u16,
    pub request_time: bool,
}

impl StateView {
    /// There are six joystick slots, and the alliance station is one of the
    /// three.
    pub open spec fn wf(self) -> bool {
        &&& self.joysticks.len() == JOYSTICK_SLOTS
        &&& self.alliance.is_valid()
    }

    /// The sequence number after this one: one more, and 0 after the
    /// greatest.
    pub open spec fn next_sequence_num(self) -> u16 {
        ((self.sequence_num + 1) % 0x1_0000) as u16
    }

    /// The state after a control packet was built from it.
    pub open spec fn after_packet(self) -> StateView {
        StateView { sequence_num: self.next_sequence_num(), ..self }
    }

    /// The part of the control packet that does not depend on the clock:
    /// the sequence number, the protocol version, the control byte, the
    /// alliance station, and the joystick slots.
    pub open spec fn packet_head(self) -> Seq<u8> {
        u16_be(self.sequence_num) + seq![
            COMM_VERSION,
            control_bits(self.estop, self.enabled, self.mode),
            self.alliance.index() as u8,
        ] + slot_tags(self.joysticks)
    }

    /// The control packet at the instant `now`: the head, and behind it,
    /// only where the robot has asked for the time, the timezone tag and
    /// the date tag.
    pub open spec fn packet(self, now: WallClock) -> Seq<u8> {
        if self.request_time {
            self.packet_head() + timezone_tag() + date_tag(now)
        } else {
            self.packet_head()
        }
    }
}

/// Everything that the operator commands, and what the link itself keeps:
/// the sequence number of the next control packet and whether the robot
/// has asked for the time.
#[derive(Debug)]
pub struct DriverStationState {
    joysticks: Vec<Option<Joystick>>,
    estop: bool,
    enabled: bool,
    mode: RobotMode,
    alliance: Alliance,
    game_data: String,
    match_info: MatchInfo,
    sequence_num: u16,
    request_time: bool,
}

/// What a joystick slot holds.
pub open spec fn slot_view(slot: Option<Joystick>) -> Option<JoystickView> {
    match slot {
        Some(stick) => Some(stick@),
        None => None,
    }
}

impl View for DriverStationState {
    type V = StateView;

    closed spec fn view(&self) -> StateView {
        StateView {
            joysticks: self.joysticks@.map_values(|slot: Option<Joystick>| slot_view(slot)),
            estop: self.estop,
            enabled: self.enabled,
            mode: self.mode,
            alliance: self.alliance,
            game_data: self.game_data@,
            competition: self.match_info.competition@,
            match_type: self.match_info.match_type,
            sequence_num: self.sequence_num,
            request_time: self.request_time,
        }
    }
}

/// The state that a driver station starts with.
pub open spec fn initial_state() -> StateView {
    StateView {
        joysticks: Seq::new(JOYSTICK_SLOTS as nat, |i: int| None),
        estop: false,
        enabled: false,
        mode: RobotMode::Teleop,
        alliance: Alliance::Red(1),
        game_data: Seq::empty(),
        competition: "unknown"@,
        match_type: MatchType::NoMatch,
        sequence_num: 0,
        request_time: false,
    }
}

/// The slots of two runs, one after the other, are the slots of the two
/// runs joined.
proof fn slot_run_concat(a: Seq<Option<JoystickView>>, b: Seq<Option<JoystickView>>)
    ensures
        slot_run(a + b) == slot_run(a) + slot_run(b),
    decreases a.len(),
{
    if a.len() > 0 {
        slot_run_concat(a.drop_first(), b);
        assert((a + b).drop_first() == a.drop_first() + b);
    }
}

/// Appending one slot to a run appends its bytes.
proof fn slot_run_push(slots: Seq<Option<JoystickView>>, i: int)
    requires
        0 <= i < slots.len(),
    ensures
        slot_run(slots.take(i + 1)) == slot_run(slots.take(i)) + slot_tag(slots[i]),
{
    let one = seq![slots[i]];
    assert(slots.take(i + 1) == slots.take(i) + one);
    slot_run_concat(slots.take(i), one);
    assert(one.drop_first() == Seq::<Option<JoystickView>>::empty());
    assert(slot_run(one.drop_first()) == Seq::<u8>::empty());
}

/// A run of six slots is the six slots of a control packet.
proof fn slot_run_of_six(slots: Seq<Option<JoystickView>>)
    requires
        slots.len() == JOYSTICK_SLOTS,
    ensures
        slot_run(slots) == slot_tags(slots),
{
    slot_run_push(slots, 0);
    slot_run_push(slots, 1);
    slot_run_push(slots, 2);
    slot_run_push(slots, 3);
    slot_run_push(slots, 4);
    slot_run_push(slots, 5);
    assert(slots.take(6) == slots);
    assert(slot_run(slots) =~= slot_tags(slots));
}

impl Clone for DriverStationState {
    fn clone(&self) -> (copy: DriverStationState)
        ensures
            copy@ == self@,
    {
        proof {
            use_type_invariant(self);
        }
        let mut joysticks: Vec<Option<Joystick>> = Vec::new();
        let mut i: usize = 0;
        while i < self.joysticks.len()
            invariant
                i <= self.joysticks@.len(),
                joysticks@.len() == i,
                forall|k: int|
                    0 <= k < i ==> slot_view(#[trigger] joysticks@[k]) == slot_view(
                        self.joysticks@[k],
                    ),
            decreases self.joysticks@.len() - i,
        {
            let slot = match &self.joysticks[i] {
                Some(stick) => Some(stick.clone()),
                None => None,
            };
            joysticks.push(slot);
            i += 1;
        }
        let copy = DriverStationState {
            joysticks,
            estop: self.estop,
            enabled: self.enabled,
            mode: self.mode,
            alliance: self.alliance,
            game_data: self.game_data.clone(),
            match_info: self.match_info.clone(),
            sequence_num: self.sequence_num,
            request_time: self.request_time,
        };
        assert(copy@.joysticks == self@.joysticks);
        copy
    }
}

impl Default for DriverStationState {
    fn default() -> (state: DriverStationState)
        ensures
            state@ == initial_state(),
    {
        let mut joysticks: Vec<Option<Joystick>> = Vec::new();
        while joysticks.len() < JOYSTICK_SLOTS
            invariant
                joysticks@.len() <= JOYSTICK_SLOTS,
                forall|i: int| 0 <= i < joysticks@.len() ==> joysticks@[i] is None,
            decreases JOYSTICK_SLOTS - joysticks@.len(),
        {
            joysticks.push(None);
        }
        let state = DriverStationState {
            joysticks,
            estop: false,
            enabled: false,
            mode: RobotMode::Teleop,
            alliance: Alliance::Red(1),
            game_data: String::new(),
            match_info: MatchInfo {
                competition: "unknown".to_owned(),
                match_type: MatchType::NoMatch,
            },
            sequence_num: 0,
            request_time: false,
        };
        assert(state@.joysticks == initial_state().joysticks);
        state
    }
}

impl DriverStationState {
    /// What holds of every state: there are six joystick slots, and the
    /// alliance station is one of the three.
    #[verifier::type_invariant]
    pub open spec fn well_formed(&self) -> bool {
        self@.wf()
    }

    /// The state that a driver station starts with: teleoperated mode, the
    /// first red station, not enabled, no emergency stop, no joystick.
    pub fn new() -> (state: DriverStationState)
        ensures
            state@ == initial_state(),
    {
        Default::default()
    }

    /// Whether the robot is commanded to stop at once.
    pub fn estop(&self) -> (estop: bool)
        ensures
            estop == self@.estop,
    {
        self.estop
    }

    /// Whether the robot is commanded to be enabled.
    pub fn enabled(&self) -> (enabled: bool)
        ensures
            enabled == self@.enabled,
    {
        self.enabled
    }

    /// The commanded mode.
    pub fn mode(&self) -> (mode: RobotMode)
        ensures
            mode == self@.mode,
    {
        self.mode
    }

    /// The alliance station.
    pub fn alliance(&self) -> (alliance: Alliance)
        ensures
            alliance == self@.alliance,
            alliance.is_valid(),
    {
        proof {
            use_type_invariant(self);
        }
        self.alliance
    }

    /// The sequence number that the next control packet will carry.
    pub fn sequence_num(&self) -> (num: u16)
        ensures
            num == self@.sequence_num,
    {
        self.sequence_num
    }

    /// Whether the robot has asked for the time.
    pub fn request_time(&self) -> (asked: bool)
        ensures
            asked == self@.request_time,
    {
        self.request_time
    }

    /// Commands the emergency stop, or lifts it.
    pub fn set_estop(&mut self, estop: bool)
        ensures
            final(self)@ == (StateView { estop, ..old(self)@ }),
    {
        proof {
            use_type_invariant(&*self);
        }
        self.estop = estop;
    }

    /// Commands the robot to be enabled or disabled.
    pub fn set_enabled(&mut self, enabled: bool)
        ensures
            final(self)@ == (StateView { enabled, ..old(self)@ }),
    {
        proof {
            use_type_invariant(&*self);
        }
        self.enabled = enabled;
    }

    /// Commands a mode.
    pub fn set_mode(&mut self, mode: RobotMode)
        ensures
            final(self)@ == (StateView { mode, ..old(self)@ }),
    {
        proof {
            use_type_invariant(&*self);
        }
        self.mode = mode;
    }

    /// Sets the alliance station. A position other than 1, 2 or 3 is
    /// refused and changes nothing.
    pub fn set_alliance(&mut self, alliance: Alliance) -> (done: Result<(), ()>)
        ensures
            done is Ok <==> alliance.is_valid(),
            done is Ok ==> final(self)@ == (StateView { alliance, ..old(self)@ }),
            done is Err ==> final(self)@ == old(self)@,
    {
        proof {
            use_type_invariant(&*self);
        }
        if alliance.check() {
            self.alliance = alliance;
            Ok(())
        } else {
            Err(())
        }
    }

    /// Sets the game data and gives the tag that tells the robot of it.
    pub fn set_game_data(&mut self, data: String) -> (tag: TcpTag)
        ensures
            final(self)@ == (StateView { game_data: data@, ..old(self)@ }),
            tag matches TcpTag::GameData(game_data) && game_data.text() == data@,
    {
        proof {
            use_type_invariant(&*self);
        }
        self.game_data = data.clone();
        TcpTag::GameData(GameData::new(data))
    }

    /// Sets the match information and gives the tag that tells the robot
    /// of it.
    pub fn set_match_info(&mut self, info: MatchInfo) -> (tag: TcpTag)
        ensures
            final(self)@ == (StateView {
                competition: info.competition@,
                match_type: info.match_type,
                ..old(self)@
            }),
            tag == TcpTag::MatchInfo(info),
    {
        proof {
            use_type_invariant(&*self);
        }
        self.match_info = info.clone();
        TcpTag::MatchInfo(info)
    }

    /// Puts a joystick into slot `slot`, or empties the slot. A slot number
    /// from 6 up is refused and changes nothing.
    pub fn set_joystick(&mut self, slot: usize, stick: Option<Joystick>) -> (done: Result<
        (),
        (),
    >)
        ensures
            done is Ok <==> slot < JOYSTICK_SLOTS,
            done is Ok ==> final(self)@ == (StateView {
                joysticks: old(self)@.joysticks.update(slot as int, slot_view(stick)),
                ..old(self)@
            }),
            done is Err ==> final(self)@ == old(self)@,
    {
        proof {
            use_type_invariant(&*self);
        }
        if slot < JOYSTICK_SLOTS {
            self.joysticks[slot] = stick;
            assert(self@.joysticks == old(self)@.joysticks.update(slot as int, slot_view(stick)));
            Ok(())
        } else {
            Err(())
        }
    }

    /// The joystick in slot `slot`, if the slot exists and is occupied.
    pub fn joystick(&self, slot: usize) -> (stick: Option<&Joystick>)
        ensures
            slot >= JOYSTICK_SLOTS ==> stick is None,
            slot < JOYSTICK_SLOTS ==> match stick {
                Some(stick) => self@.joysticks[slot as int] == Some(stick@),
                None => self@.joysticks[slot as int] is None,
            },
    {
        proof {
            use_type_invariant(self);
        }
        if slot < JOYSTICK_SLOTS {
            match &self.joysticks[slot] {
                Some(stick) => Some(stick),
                None => None,
            }
        } else {
            None
        }
    }

    /// The tag that tells the robot of the game data.
    pub fn game_data_tag(&self) -> (tag: GameData)
        ensures
            tag.text() == self@.game_data,
    {
        GameData::new(self.game_data.clone())
    }

    /// The tag that tells the robot of the match.
    pub fn match_info_tag(&self) -> (tag: MatchInfo)
        ensures
            tag.competition@ == self@.competition,
            tag.match_type == self@.match_type,
    {
        self.match_info.clone()
    }

    /// The control byte of the state.
    fn control_byte(&self) -> (control: Control)
        ensures
            control@ == control_bits(self@.estop, self@.enabled, self@.mode),
    {
        Control::commanding(self.estop, self.enabled, self.mode)
    }

    /// Writes the part of the control packet that does not depend on the
    /// clock, and moves the sequence number on.
    fn write_head(&mut self) -> (packet: PacketWriter)
        ensures
            packet@ == old(self)@.packet_head(),
            final(self)@ == old(self)@.after_packet(),
    {
        proof {
            use_type_invariant(&*self);
        }
        let mut packet = PacketWriter::new();

        packet.write_u16(self.sequence_num);
        self.sequence_num = self.sequence_num.wrapping_add(1);

        packet.write_u8(COMM_VERSION);
        packet.write_u8(self.control_byte().bits());
        packet.write_u8(self.alliance.to_position_u8());
        let ghost fixed = packet@;
        let ghost slots = self@.joysticks;
        assert(slots.take(0) == Seq::<Option<JoystickView>>::empty());

        let mut i: usize = 0;
        while i < self.joysticks.len()
            invariant
                i <= self.joysticks@.len(),
                slots == self@.joysticks,
                slots.len() == self.joysticks@.len(),
                forall|k: int| 0 <= k < slots.len() ==> slots[k] == slot_view(self.joysticks@[k]),
                packet@ == fixed + slot_run(slots.take(i as int)),
            decreases self.joysticks@.len() - i,
        {
            proof {
                slot_run_push(slots, i as int);
            }
            match &self.joysticks[i] {
                Some(stick) => {
                    proof {
                        use_type_invariant(stick);
                    }
                    let tag = stick.udp_tag();
                    packet.write_u8(((tag.len() + 1) % 0x100) as u8);
                    packet.write_u8(JOYSTICK_TAG_ID);
                    packet.write_vec(tag);
                },
                None => {
                    packet.write_u8(0x01);
                    packet.write_u8(JOYSTICK_TAG_ID);
                },
            }
            i += 1;
        }
        assert(slots.take(i as int) == slots);
        proof {
            slot_run_of_six(slots);
        }
        packet
    }

    /// Builds the control packet for the instant `now` and moves the
    /// sequence number on by one, from the greatest back to 0. The clock is
    /// only written where the robot has asked for the time.
    pub fn udp_packet_at(&mut self, now: &WallClock) -> (packet: Vec<u8>)
        ensures
            packet@ == old(self)@.packet(*now),
            final(self)@ == old(self)@.after_packet(),
    {
        let mut packet = self.write_head();
        if self.request_time {
            packet.write_u8(4);
            packet.write_u8(TIMEZONE_TAG_ID);
            packet.write_u8(0x55);
            packet.write_u8(0x54);
            packet.write_u8(0x43);
            packet.write_vec(date_packet(now));
        }
        packet.into_vec()
    }

    /// Builds the control packet and moves the sequence number on by one,
    /// from the greatest back to 0. Where the robot has asked for the time,
    /// the clock is read and written into the packet.
    pub fn udp_packet(&mut self) -> (packet: Vec<u8>)
        ensures
            !old(self)@.request_time ==> packet@ == old(self)@.packet_head(),
            old(self)@.request_time ==> exists|now: WallClock|
                now.in_range() && packet@ == #[trigger] old(self)@.packet(now),
            final(self)@ == old(self)@.after_packet(),
    {
        if self.request_time {
            let now = utc_now();
            self.udp_packet_at(&now)
        } else {
            self.write_head().into_vec()
        }
    }

    /// Takes in a message of the TCP channel. Nothing of it is used yet.
    pub fn update_from_tcp(&mut self, packet: RioTcpPacket)
        ensures
            final(self)@ == old(self)@,
    {
    }

    /// Takes in a telemetry packet: the robot's request for the time is
    /// noted, or its absence.
    pub fn update_from_udp(&mut self, packet: RioUdpPacket)
        ensures
            final(self)@ == (StateView { request_time: packet.request_date, ..old(self)@ }),
    {
        proof {
            use_type_invariant(&*self);
        }
        self.request_time = packet.request_date;
    }
}

/// What the operator commands: the part of the state that a control packet
/// carries to the robot, without the sequence number.
pub struct Commanded {
    pub estop: bool,
    pub enabled: bool,
    pub mode: RobotMode,
    pub alliance: Alliance,
    pub joysticks: Seq<Option<JoystickView>>,
}

impl StateView {
    /// What the operator commands in this state.
    pub open spec fn commanded(self) -> Commanded {
        Commanded {
            estop: self.estop,
            enabled: self.enabled,
            mode: self.mode,
            alliance: self.alliance,
            joysticks: self.joysticks,
        }
    }

    /// Every joystick is well formed and its tag, with the id before it,
    /// is short enough for the length byte of its slot.
    pub open spec fn joysticks_fit(self) -> bool {
        forall|i: int|
            0 <= i < self.joysticks.len() && self.joysticks[i] is Some ==> {
                &&& (#[trigger] self.joysticks[i])->0.wf()
                &&& self.joysticks[i]->0.tag_len() + 1 <= 0xff
            }
    }
}

/// Reads the joystick slot at the front of `bytes`: what the slot holds and
/// the number of bytes that it takes.
pub open spec fn parse_slot(bytes: Seq<u8>) -> Option<(Option<JoystickView>, int)> {
    if bytes.len() < 2 || bytes[0] < 1 || bytes[1] != JOYSTICK_TAG_ID || bytes.len() < 1
        + bytes[0] {
        None
    } else if bytes[0] == 1 {
        Some((None, 2))
    } else {
        match parse_tag(bytes.subrange(2, 1 + bytes[0])) {
            Some(stick) => Some((Some(stick), 1 + bytes[0])),
            None => None,
        }
    }
}

/// Reads `count` joystick slots from the front of `bytes`.
pub open spec fn parse_slots(bytes: Seq<u8>, count: nat) -> Option<Seq<Option<JoystickView>>>
    decreases count,
{
    if count == 0 {
        Some(Seq::empty())
    } else {
        match parse_slot(bytes) {
            Some((slot, used)) => match parse_slots(
                bytes.subrange(used, bytes.len() as int),
                (count - 1) as nat,
            ) {
                Some(more) => Some(seq![slot] + more),
                None => None,
            },
            None => None,
        }
    }
}

/// Reads a control packet as the robot does: the emergency stop, the enable
/// flag and the mode from the control byte, the alliance station from its
/// index, and the six joystick slots. Tags behind the slots are not read.
pub open spec fn parse_control_packet(bytes: Seq<u8>) -> Option<Commanded> {
    if bytes.len() < 5 || bytes[4] > 5 {
        None
    } else {
        match (
            RobotMode::of_code(bytes[3] % 4),
            parse_slots(bytes.subrange(5, bytes.len() as int), JOYSTICK_SLOTS as nat),
        ) {
            (Some(mode), Some(joysticks)) => Some(
                Commanded {
                    estop: has_bit(bytes[3], CONTROL_ESTOP),
                    enabled: has_bit(bytes[3], CONTROL_ENABLED),
                    mode,
                    alliance: Alliance::of_index(bytes[4]),
                    joysticks,
                },
            ),
            _ => None,
        }
    }
}

/// Reading the control byte of a commanded state gives the emergency stop,
/// the enable flag and the mode back. No reserved bit is set in it, nor the
/// bit for a field management system.
pub proof fn control_byte_round_trip(estop: bool, enabled: bool, mode: RobotMode)
    ensures
        has_bit(control_bits(estop, enabled, mode), CONTROL_ESTOP) <==> estop,
        has_bit(control_bits(estop, enabled, mode), CONTROL_ENABLED) <==> enabled,
        RobotMode::of_code(control_bits(estop, enabled, mode) % 4) == Some(mode),
        avoids(control_bits(estop, enabled, mode), CONTROL_RESERVED),
        !has_bit(control_bits(estop, enabled, mode), CONTROL_FMS_CONNECTED),
{
}

/// Where the parts of an occupied slot are found in a run of bytes that
/// starts with it.
proof fn parts_of_slot(len: u8, tag: Seq<u8>, behind: Seq<u8>)
    requires
        len == tag.len() + 1,
    ensures
        ({
            let bytes = seq![len, JOYSTICK_TAG_ID] + tag + behind;
            &&& bytes.len() == 1 + len + behind.len()
            &&& bytes[0] == len
            &&& bytes[1] == JOYSTICK_TAG_ID
            &&& bytes.subrange(2, 1 + len) == tag
            &&& bytes.subrange(1 + len, bytes.len() as int) == behind
        }),
{
}

/// Reading a slot that was written for a joystick or for none, whatever
/// follows it, gives back what the slot holds and leaves what follows.
proof fn slot_round_trip(slot: Option<JoystickView>, behind: Seq<u8>)
    requires
        slot is Some ==> slot->0.wf() && slot->0.tag_len() + 1 <= 0xff,
    ensures
        parse_slot(slot_tag(slot) + behind) == Some((slot, slot_tag(slot).len() as int)),
        (slot_tag(slot) + behind).subrange(
            slot_tag(slot).len() as int,
            (slot_tag(slot) + behind).len() as int,
        ) == behind,
{
    if let Some(stick) = slot {
        tag_round_trip(stick);
        parts_of_slot(slot_len(stick), stick.tag(), behind);
    }
}

/// Reading the slots that were written for a run of joysticks, whatever
/// follows them, gives the joysticks back.
proof fn slots_round_trip(slots: Seq<Option<JoystickView>>, tail: Seq<u8>)
    requires
        forall|i: int|
            0 <= i < slots.len() && slots[i] is Some ==> {
                &&& (#[trigger] slots[i])->0.wf()
                &&& slots[i]->0.tag_len() + 1 <= 0xff
            },
    ensures
        parse_slots(slot_run(slots) + tail, slots.len()) == Some(slots),
    decreases slots.len(),
{
    if slots.len() > 0 {
        let first = slots.first();
        let others = slots.drop_first();
        let behind = slot_run(others) + tail;
        assert(slot_run(slots) + tail == slot_tag(first) + behind);
        assert forall|i: int| 0 <= i < others.len() && others[i] is Some implies {
            &&& (#[trigger] others[i])->0.wf()
            &&& others[i]->0.tag_len() + 1 <= 0xff
        } by {
            assert(others[i] == slots[i + 1]);
        }
        slots_round_trip(others, tail);
        slot_round_trip(first, behind);
    }
}

/// Joining runs of bytes one after the other gives the same whichever
/// two are joined first.
proof fn joined_in_any_order(a: Seq<u8>, b: Seq<u8>, c: Seq<u8>, d: Seq<u8>)
    ensures
        a + b == a + (b + Seq::<u8>::empty()),
        a + b + c + d == a + (b + (c + d)),
{
    assert(b == b + Seq::<u8>::empty());
    assert(a + b + c + d == a + (b + (c + d)));
}

/// Reading a packet with a control byte and a station index that can be
/// read, and with six slots that can be read, gives what these hold.
proof fn packet_reads(
    number: Seq<u8>,
    control: u8,
    station: u8,
    behind: Seq<u8>,
    joysticks: Seq<Option<JoystickView>>,
)
    requires
        number.len() == 2,
        station <= 5,
        RobotMode::of_code(control % 4) is Some,
        parse_slots(behind, JOYSTICK_SLOTS as nat) == Some(joysticks),
    ensures
        parse_control_packet(number + seq![COMM_VERSION, control, station] + behind) == Some(
            Commanded {
                estop: has_bit(control, CONTROL_ESTOP),
                enabled: has_bit(control, CONTROL_ENABLED),
                mode: RobotMode::of_code(control % 4)->0,
                alliance: Alliance::of_index(station),
                joysticks,
            },
        ),
{
    let bytes = number + seq![COMM_VERSION, control, station] + behind;
    assert(bytes[3] == control);
    assert(bytes[4] == station);
    assert(bytes.subrange(5, bytes.len() as int) == behind);
}

/// Reading a control packet gives back what the operator commands: the
/// emergency stop, the enable flag, the mode, the alliance station and
/// every joystick, whether or not the clock was written behind them. This
/// holds where each joystick fits the length byte of its slot.
pub proof fn control_packet_round_trip(state: StateView, now: WallClock)
    requires
        state.wf(),
        state.joysticks_fit(),
    ensures
        parse_control_packet(state.packet(now)) == Some(state.commanded()),
{
    let number = u16_be(state.sequence_num);
    let control = control_bits(state.estop, state.enabled, state.mode);
    let station = state.alliance.index() as u8;
    let fixed = number + seq![COMM_VERSION, control, station];
    let slots = slot_tags(state.joysticks);
    let tail = if state.request_time {
        timezone_tag() + date_tag(now)
    } else {
        Seq::empty()
    };
    slot_run_of_six(state.joysticks);
    slots_round_trip(state.joysticks, tail);
    control_byte_round_trip(state.estop, state.enabled, state.mode);
    Alliance::position_round_trip(state.alliance);
    joined_in_any_order(fixed, slots, timezone_tag(), date_tag(now));
    packet_reads(number, control, station, slots + tail, state.joysticks);
}

/// A control packet starts with the sequence number of the state, and the
/// state behind it has the next one: two packets in a row never start with
/// the same number, whatever the clock says.
pub proof fn sequence_numbers_advance(state: StateView, now: WallClock, later: WallClock)
    ensures
        state.packet(now).subrange(0, 2) == u16_be(state.sequence_num),
        state.after_packet().sequence_num == (state.sequence_num + 1) % 0x1_0000,
        state.after_packet().sequence_num != state.sequence_num,
        state.after_packet().packet(later).subrange(0, 2) != state.packet(now).subrange(0, 2),
        state.after_packet().packet(later) != state.packet(now),
{
    let first = state.packet(now);
    let second = state.after_packet().packet(later);
    assert(first.subrange(0, 2) == u16_be(state.sequence_num));
    assert(second.subrange(0, 2) == u16_be(state.after_packet().sequence_num));
    crate::packet::u16_round_trip(state.sequence_num);
    crate::packet::u16_round_trip(state.after_packet().sequence_num);
}

} // verus!
