//! A snapshot of one joystick and its encoding as a tag of the control
//! packet.

use crate::flags::has_bit;
use crate::packet::{be_u16, bits_i16, byte_i8, i16_be, i8_byte, PacketWriter};
use vstd::prelude::*;

verus! {

/// The kind of controller behind a joystick slot.
#[derive(Copy, Clone, Debug, PartialEq, Eq, Structural)]
pub enum JoystickType {
    Unknown,
}

/// The most buttons, axes or point-of-view hats that a snapshot holds: each
/// count is one byte on the wire.
pub const MAX_INPUTS: usize = 255;

/// What a joystick snapshot holds: the state of each button, the position
/// of each axis, and the angle of each point-of-view hat, where -1 stands
/// for a hat that is centred.
pub struct JoystickView {
    pub buttons: Seq<bool>,
    pub axes: Seq<i8>,
    pub povs: Seq<i16>,
}

/// What button `i` adds to its byte: `weight` when it is pressed, nothing
/// when it is released or when there is no button `i`.
pub open spec fn button_bit(buttons: Seq<bool>, i: int, weight: u8) -> u8 {
    if 0 <= i < buttons.len() && buttons[i] {
        weight
    } else {
        0
    }
}

/// Byte `k` of the packed buttons: buttons `8k` to `8k + 7`, the first in
/// the most significant bit, with zero in the place of buttons that do not
/// exist.
pub open spec fn packed_byte(buttons: Seq<bool>, k: int) -> u8 {
    (button_bit(buttons, 8 * k, 0x80) + button_bit(buttons, 8 * k + 1, 0x40) + button_bit(
        buttons,
        8 * k + 2,
        0x20,
    ) + button_bit(buttons, 8 * k + 3, 0x10) + button_bit(buttons, 8 * k + 4, 0x08) + button_bit(
        buttons,
        8 * k + 5,
        0x04,
    ) + button_bit(buttons, 8 * k + 6, 0x02) + button_bit(buttons, 8 * k + 7, 0x01)) as u8
}

/// The number of bytes that `n` packed buttons take.
pub open spec fn packed_len(n: int) -> int {
    (n + 7) / 8
}

/// The first `count` bytes of the packed buttons.
pub open spec fn packed_prefix(buttons: Seq<bool>, count: int) -> Seq<u8> {
    Seq::new(count as nat, |k: int| packed_byte(buttons, k))
}

/// The buttons packed one bit each, most significant bit first, the last
/// byte padded with zero bits.
pub open spec fn packed_buttons(buttons: Seq<bool>) -> Seq<u8> {
    packed_prefix(buttons, packed_len(buttons.len() as int))
}

/// The axes, one two's complement byte each.
pub open spec fn axis_bytes(axes: Seq<i8>) -> Seq<u8> {
    Seq::new(axes.len(), |i: int| i8_byte(axes[i]))
}

/// The hats, two big-endian two's complement bytes each.
pub open spec fn pov_bytes(povs: Seq<i16>) -> Seq<u8> {
    Seq::new(2 * povs.len(), |j: int| i16_be(povs[j / 2])[j % 2])
}

impl JoystickView {
    /// Each count fits the byte that carries it.
    pub open spec fn wf(self) -> bool {
        &&& self.buttons.len() <= MAX_INPUTS
        &&& self.axes.len() <= MAX_INPUTS
        &&& self.povs.len() <= MAX_INPUTS
    }

    /// The tag of the snapshot in the control packet: the number of axes and
    /// the axes, the number of buttons and the packed buttons, the number of
    /// hats and the hats.
    pub open spec fn tag(self) -> Seq<u8> {
        seq![self.axes.len() as u8] + axis_bytes(self.axes) + seq![self.buttons.len() as u8]
            + packed_buttons(self.buttons) + seq![self.povs.len() as u8] + pov_bytes(self.povs)
    }

    /// The length of the tag.
    pub open spec fn tag_len(self) -> int {
        3 + self.axes.len() + packed_len(self.buttons.len() as int) + 2 * self.povs.len()
    }
}

/// A snapshot of one joystick: buttons, axes and point-of-view hats, in
/// numbers that are fixed when the snapshot is made.
#[derive(Debug)]
pub struct Joystick {
    stick_type: JoystickType,
    buttons: Vec<bool>,
    axes: Vec<i8>,
    povs: Vec<i16>,
}

impl View for Joystick {
    type V = JoystickView;

    closed spec fn view(&self) -> JoystickView {
        JoystickView { buttons: self.buttons@, axes: self.axes@, povs: self.povs@ }
    }
}

impl Clone for Joystick {
    fn clone(&self) -> (copy: Joystick)
        ensures
            copy@ == self@,
    {
        proof {
            use_type_invariant(self);
        }
        Joystick {
            stick_type: self.stick_type,
            buttons: self.buttons.clone(),
            axes: self.axes.clone(),
            povs: self.povs.clone(),
        }
    }
}

impl Joystick {
    /// What holds of every joystick: each count fits its byte.
    #[verifier::type_invariant]
    pub open spec fn counts_fit(&self) -> bool {
        self@.wf()
    }

    /// A joystick with the given numbers of inputs: every button released,
    /// every axis at rest, every hat centred.
    pub fn new(num_buttons: u8, num_axes: u8, num_povs: u8) -> (stick: Joystick)
        ensures
            stick@.buttons == Seq::new(num_buttons as nat, |i: int| false),
            stick@.axes == Seq::new(num_axes as nat, |i: int| 0i8),
            stick@.povs == Seq::new(num_povs as nat, |i: int| -1i16),
    {
        let mut buttons: Vec<bool> = Vec::new();
        while buttons.len() < num_buttons as usize
            invariant
                buttons@.len() <= num_buttons,
                buttons@ == Seq::new(buttons@.len(), |i: int| false),
            decreases num_buttons - buttons@.len(),
        {
            buttons.push(false);
        }
        let mut axes: Vec<i8> = Vec::new();
        while axes.len() < num_axes as usize
            invariant
                axes@.len() <= num_axes,
                axes@ == Seq::new(axes@.len(), |i: int| 0i8),
            decreases num_axes - axes@.len(),
        {
            axes.push(0);
        }
        let mut povs: Vec<i16> = Vec::new();
        while povs.len() < num_povs as usize
            invariant
                povs@.len() <= num_povs,
                povs@ == Seq::new(povs@.len(), |i: int| -1i16),
            decreases num_povs - povs@.len(),
        {
            povs.push(-1);
        }
        Joystick { stick_type: JoystickType::Unknown, buttons, axes, povs }
    }

    /// The number of buttons.
    pub fn num_buttons(&self) -> (n: u8)
        ensures
            n == self@.buttons.len(),
    {
        proof {
            use_type_invariant(self);
        }
        self.buttons.len() as u8
    }

    /// The number of axes.
    pub fn num_axes(&self) -> (n: u8)
        ensures
            n == self@.axes.len(),
    {
        proof {
            use_type_invariant(self);
        }
        self.axes.len() as u8
    }

    /// The number of point-of-view hats.
    pub fn num_povs(&self) -> (n: u8)
        ensures
            n == self@.povs.len(),
    {
        proof {
            use_type_invariant(self);
        }
        self.povs.len() as u8
    }

    /// Presses or releases button `index`. An index that names no button is
    /// refused and changes nothing.
    pub fn set_button(&mut self, index: u8, pressed: bool) -> (done: Result<(), ()>)
        ensures
            done is Ok <==> index < old(self)@.buttons.len(),
            done is Ok ==> final(self)@ == (JoystickView {
                buttons: old(self)@.buttons.update(index as int, pressed),
                ..old(self)@
            }),
            done is Err ==> final(self)@ == old(self)@,
    {
        proof {
            use_type_invariant(&*self);
        }
        if (index as usize) < self.buttons.len() {
            self.buttons[index as usize] = pressed;
            Ok(())
        } else {
            Err(())
        }
    }

    /// Moves axis `index`. An index that names no axis is refused and
    /// changes nothing.
    pub fn set_axis(&mut self, index: u8, value: i8) -> (done: Result<(), ()>)
        ensures
            done is Ok <==> index < old(self)@.axes.len(),
            done is Ok ==> final(self)@ == (JoystickView {
                axes: old(self)@.axes.update(index as int, value),
                ..old(self)@
            }),
            done is Err ==> final(self)@ == old(self)@,
    {
        proof {
            use_type_invariant(&*self);
        }
        if (index as usize) < self.axes.len() {
            self.axes[index as usize] = value;
            Ok(())
        } else {
            Err(())
        }
    }

    /// Turns hat `index`. An index that names no hat is refused and changes
    /// nothing.
    pub fn set_pov(&mut self, index: u8, value: i16) -> (done: Result<(), ()>)
        ensures
            done is Ok <==> index < old(self)@.povs.len(),
            done is Ok ==> final(self)@ == (JoystickView {
                povs: old(self)@.povs.update(index as int, value),
                ..old(self)@
            }),
            done is Err ==> final(self)@ == old(self)@,
    {
        proof {
            use_type_invariant(&*self);
        }
        if (index as usize) < self.povs.len() {
            self.povs[index as usize] = value;
            Ok(())
        } else {
            Err(())
        }
    }

    /// What button `i` adds to its byte.
    fn bit_at(&self, i: usize, weight: u8) -> (bit: u8)
        ensures
            bit == button_bit(self@.buttons, i as int, weight),
    {
        if i < self.buttons.len() && self.buttons[i] {
            weight
        } else {
            0
        }
    }

    /// Byte `k` of the packed buttons.
    fn packed_at(&self, k: usize) -> (byte: u8)
        requires
            k < 32,
        ensures
            byte == packed_byte(self@.buttons, k as int),
    {
        let base = 8 * k;
        let b0 = self.bit_at(base, 0x80);
        let b1 = self.bit_at(base + 1, 0x40);
        let b2 = self.bit_at(base + 2, 0x20);
        let b3 = self.bit_at(base + 3, 0x10);
        let b4 = self.bit_at(base + 4, 0x08);
        let b5 = self.bit_at(base + 5, 0x04);
        let b6 = self.bit_at(base + 6, 0x02);
        let b7 = self.bit_at(base + 7, 0x01);
        proof {
            bits_add_up(b0, b1, b2, b3, b4, b5, b6, b7);
        }
        b0 | b1 | b2 | b3 | b4 | b5 | b6 | b7
    }

    /// Encodes the snapshot as the body of a joystick tag.
    pub fn udp_tag(&self) -> (tag: Vec<u8>)
        ensures
            tag@ == self@.tag(),
            tag@.len() == self@.tag_len(),
    {
        proof {
            use_type_invariant(self);
        }
        let mut tag = PacketWriter::new();

        tag.write_u8(self.axes.len() as u8);
        let mut i: usize = 0;
        while i < self.axes.len()
            invariant
                i <= self.axes@.len() <= MAX_INPUTS,
                tag@ == seq![self.axes@.len() as u8] + axis_bytes(self.axes@.take(i as int)),
            decreases self.axes@.len() - i,
        {
            tag.write_i8(self.axes[i]);
            assert(axis_bytes(self.axes@.take(i as int)).push(i8_byte(self.axes@[i as int]))
                == axis_bytes(self.axes@.take(i + 1)));
            i += 1;
        }
        let ghost head = tag@;

        tag.write_u8(self.buttons.len() as u8);
        let count = (self.buttons.len() + 7) / 8;
        let mut k: usize = 0;
        while k < count
            invariant
                k <= count == packed_len(self.buttons@.len() as int),
                self.buttons@.len() <= MAX_INPUTS,
                self@.buttons == self.buttons@,
                tag@ == head + seq![self.buttons@.len() as u8] + packed_prefix(
                    self.buttons@,
                    k as int,
                ),
            decreases count - k,
        {
            tag.write_u8(self.packed_at(k));
            assert(packed_prefix(self.buttons@, k as int).push(
                packed_byte(self.buttons@, k as int),
            ) == packed_prefix(self.buttons@, k + 1));
            k += 1;
        }
        let ghost middle = tag@;

        tag.write_u8(self.povs.len() as u8);
        let mut j: usize = 0;
        while j < self.povs.len()
            invariant
                j <= self.povs@.len() <= MAX_INPUTS,
                tag@ == middle + seq![self.povs@.len() as u8] + pov_bytes(
                    self.povs@.take(j as int),
                ),
            decreases self.povs@.len() - j,
        {
            tag.write_i16(self.povs[j]);
            assert(pov_bytes(self.povs@.take(j as int)) + i16_be(self.povs@[j as int])
                == pov_bytes(self.povs@.take(j + 1)));
            j += 1;
        }

        tag.into_vec()
    }
}

/// The weight of the bit that holds the button at place `place` of the
/// eight in a packed byte: 128 for the first, 1 for the last.
pub open spec fn place_weight(place: int) -> u8 {
    if place == 0 {
        0x80
    } else if place == 1 {
        0x40
    } else if place == 2 {
        0x20
    } else if place == 3 {
        0x10
    } else if place == 4 {
        0x08
    } else if place == 5 {
        0x04
    } else if place == 6 {
        0x02
    } else {
        0x01
    }
}

/// Whether button `i` is pressed according to the packed bytes.
pub open spec fn unpacked_button(packed: Seq<u8>, i: int) -> bool {
    has_bit(packed[i / 8], place_weight(i % 8))
}

/// The axes that a run of bytes stands for, one each.
pub open spec fn read_axes(bytes: Seq<u8>) -> Seq<i8> {
    Seq::new(bytes.len(), |i: int| byte_i8(bytes[i]))
}

/// The `count` buttons that are packed in a run of bytes.
pub open spec fn read_buttons(packed: Seq<u8>, count: int) -> Seq<bool> {
    Seq::new(count as nat, |i: int| unpacked_button(packed, i))
}

/// The hats that a run of bytes stands for, two bytes each.
pub open spec fn read_povs(bytes: Seq<u8>) -> Seq<i16> {
    Seq::new(bytes.len() / 2, |i: int| bits_i16(be_u16(bytes[2 * i], bytes[2 * i + 1])))
}

/// Reads the body of a joystick tag: the snapshot that it encodes, or
/// nothing where the counts in it do not match its length.
pub open spec fn parse_tag(bytes: Seq<u8>) -> Option<JoystickView> {
    if bytes.len() < 1 {
        None
    } else {
        let num_axes = bytes[0] as int;
        if bytes.len() < 2 + num_axes {
            None
        } else {
            let num_buttons = bytes[1 + num_axes] as int;
            let buttons_at = 2 + num_axes;
            let povs_at = buttons_at + packed_len(num_buttons) + 1;
            if bytes.len() < povs_at {
                None
            } else {
                let num_povs = bytes[povs_at - 1] as int;
                if bytes.len() != povs_at + 2 * num_povs {
                    None
                } else {
                    Some(
                        JoystickView {
                            axes: read_axes(bytes.subrange(1, 1 + num_axes)),
                            buttons: read_buttons(
                                bytes.subrange(buttons_at, povs_at - 1),
                                num_buttons,
                            ),
                            povs: read_povs(bytes.subrange(povs_at, bytes.len() as int)),
                        },
                    )
                }
            }
        }
    }
}

/// Reading the bytes of the axes gives the axes back.
pub proof fn axes_round_trip(axes: Seq<i8>)
    ensures
        read_axes(axis_bytes(axes)) == axes,
{
    assert forall|i: int| 0 <= i < axes.len() implies byte_i8(axis_bytes(axes)[i]) == axes[i] by {
        crate::packet::i8_round_trip(axes[i]);
    }
}

/// Bits of different weights add up to what the bitwise "or" makes of
/// them.
proof fn bits_add_up(m0: u8, m1: u8, m2: u8, m3: u8, m4: u8, m5: u8, m6: u8, m7: u8)
    by (bit_vector)
    requires
        m0 == 0 || m0 == 0x80,
        m1 == 0 || m1 == 0x40,
        m2 == 0 || m2 == 0x20,
        m3 == 0 || m3 == 0x10,
        m4 == 0 || m4 == 0x08,
        m5 == 0 || m5 == 0x04,
        m6 == 0 || m6 == 0x02,
        m7 == 0 || m7 == 0x01,
    ensures
        (m0 | m1 | m2 | m3 | m4 | m5 | m6 | m7) == m0 + m1 + m2 + m3 + m4 + m5 + m6 + m7,
{
}

/// A bit of a packed byte is set exactly when the button in that place
/// added it.
proof fn packed_bit_is_button(m0: u8, m1: u8, m2: u8, m3: u8, m4: u8, m5: u8, m6: u8, m7: u8)
    by (bit_vector)
    requires
        m0 == 0 || m0 == 0x80,
        m1 == 0 || m1 == 0x40,
        m2 == 0 || m2 == 0x20,
        m3 == 0 || m3 == 0x10,
        m4 == 0 || m4 == 0x08,
        m5 == 0 || m5 == 0x04,
        m6 == 0 || m6 == 0x02,
        m7 == 0 || m7 == 0x01,
    ensures
        m0 + m1 + m2 + m3 + m4 + m5 + m6 + m7 <= 0xff,
        (((m0 + m1 + m2 + m3 + m4 + m5 + m6 + m7) as u8) / 0x80 % 2 == 1) == (m0 != 0),
        (((m0 + m1 + m2 + m3 + m4 + m5 + m6 + m7) as u8) / 0x40 % 2 == 1) == (m1 != 0),
        (((m0 + m1 + m2 + m3 + m4 + m5 + m6 + m7) as u8) / 0x20 % 2 == 1) == (m2 != 0),
        (((m0 + m1 + m2 + m3 + m4 + m5 + m6 + m7) as u8) / 0x10 % 2 == 1) == (m3 != 0),
        (((m0 + m1 + m2 + m3 + m4 + m5 + m6 + m7) as u8) / 0x08 % 2 == 1) == (m4 != 0),
        (((m0 + m1 + m2 + m3 + m4 + m5 + m6 + m7) as u8) / 0x04 % 2 == 1) == (m5 != 0),
        (((m0 + m1 + m2 + m3 + m4 + m5 + m6 + m7) as u8) / 0x02 % 2 == 1) == (m6 != 0),
        (((m0 + m1 + m2 + m3 + m4 + m5 + m6 + m7) as u8) / 0x01 % 2 == 1) == (m7 != 0),
{
}

/// Unpacking one button from the packed buttons gives the button back.
proof fn button_round_trip(buttons: Seq<bool>, i: int)
    requires
        0 <= i < buttons.len(),
    ensures
        unpacked_button(packed_buttons(buttons), i) == buttons[i],
{
    let k = i / 8;
    packed_bit_is_button(
        button_bit(buttons, 8 * k, 0x80),
        button_bit(buttons, 8 * k + 1, 0x40),
        button_bit(buttons, 8 * k + 2, 0x20),
        button_bit(buttons, 8 * k + 3, 0x10),
        button_bit(buttons, 8 * k + 4, 0x08),
        button_bit(buttons, 8 * k + 5, 0x04),
        button_bit(buttons, 8 * k + 6, 0x02),
        button_bit(buttons, 8 * k + 7, 0x01),
    );
}

/// Unpacking the packed buttons gives the buttons back.
pub proof fn buttons_round_trip(buttons: Seq<bool>)
    ensures
        packed_buttons(buttons).len() == packed_len(buttons.len() as int),
        read_buttons(packed_buttons(buttons), buttons.len() as int) == buttons,
{
    assert forall|i: int| 0 <= i < buttons.len() implies unpacked_button(
        packed_buttons(buttons),
        i,
    ) == buttons[i] by {
        button_round_trip(buttons, i);
    }
}

/// Reading the bytes of the hats gives the hats back.
pub proof fn povs_round_trip(povs: Seq<i16>)
    ensures
        pov_bytes(povs).len() == 2 * povs.len(),
        read_povs(pov_bytes(povs)) == povs,
{
    let bytes = pov_bytes(povs);
    assert forall|i: int| 0 <= i < povs.len() implies bits_i16(
        be_u16(bytes[2 * i], bytes[2 * i + 1]),
    ) == povs[i] by {
        crate::packet::i16_round_trip(povs[i]);
    }
}

/// Where each part of a run of six parts is found in the run.
proof fn parts_of_six(
    a: Seq<u8>,
    b: Seq<u8>,
    c: Seq<u8>,
    d: Seq<u8>,
    e: Seq<u8>,
    f: Seq<u8>,
)
    ensures
        ({
            let all = a + b + c + d + e + f;
            let b_at = a.len() as int;
            let c_at = b_at + b.len();
            let d_at = c_at + c.len();
            let e_at = d_at + d.len();
            let f_at = e_at + e.len();
            &&& all.len() == f_at + f.len()
            &&& all.subrange(0, b_at) == a
            &&& all.subrange(b_at, c_at) == b
            &&& all.subrange(c_at, d_at) == c
            &&& all.subrange(d_at, e_at) == d
            &&& all.subrange(e_at, f_at) == e
            &&& all.subrange(f_at, all.len() as int) == f
        }),
{
}

/// Reading the tag of a snapshot gives the snapshot back.
pub proof fn tag_round_trip(stick: JoystickView)
    requires
        stick.wf(),
    ensures
        stick.tag().len() == stick.tag_len(),
        parse_tag(stick.tag()) == Some(stick),
{
    parts_of_six(
        seq![stick.axes.len() as u8],
        axis_bytes(stick.axes),
        seq![stick.buttons.len() as u8],
        packed_buttons(stick.buttons),
        seq![stick.povs.len() as u8],
        pov_bytes(stick.povs),
    );
    axes_round_trip(stick.axes);
    buttons_round_trip(stick.buttons);
    povs_round_trip(stick.povs);
}

} // verus!
