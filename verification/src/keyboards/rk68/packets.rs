//! The two packets of the RK68: one that gives every key its colour, in seven
//! feature reports, and one that starts an animation, in a single report.

use core::ops::IndexMut;
use vstd::prelude::*;
use crate::color::Color;
use crate::keyboards::rk68::keys::{header_len, slot_at, Keys, CHANNELS, KEY_COUNT};
use crate::keyboards::rk68::{
    Animation, Brightness, Sleep, Speed, ANIMATION_LEN, ANIMATION_STEP_COUNT, COLOR_DATA_LEN,
    COLOR_LEN, COLOR_STEP_COUNT,
};
use crate::keyboards::steps::{Indexes, Steps};

verus! {

/// Where the colour packet keeps the sleep setting: in its first step.
pub const COLOR_SLEEP_AT: usize = 5;

/// Where a step of the colour packet keeps its number.
pub const STEP_NUMBER_AT: usize = 2;

/// Where the animation packet keeps the animation.
pub const ANIMATION_AT: usize = 5;

/// Where the animation packet keeps the speed.
pub const SPEED_AT: usize = 7;

/// Where the animation packet keeps the brightness.
pub const BRIGHTNESS_AT: usize = 8;

/// Where the animation packet keeps the colour: red here, then green and blue.
pub const COLOR_AT: usize = 9;

/// Where the animation packet keeps the colour mix flag.
pub const COLOR_MIX_AT: usize = 12;

/// Where the animation packet keeps the sleep setting.
pub const ANIMATION_SLEEP_AT: usize = 13;

/// The byte at `index` of step `step` of a colour packet that nothing was set in
/// yet. Every step starts with `0x0A`, `0x07` and its number, counted from one.
/// The first step goes on with `0x03`, `0x7E` and the default sleep setting.
/// All other bytes are zero.
pub open spec fn color_seed_byte(step: int, index: int) -> u8 {
    if index == 0 {
        0x0A
    } else if index == 1 {
        0x07
    } else if index == STEP_NUMBER_AT {
        (step + 1) as u8
    } else if step == 0 && index == 3 {
        0x03
    } else if step == 0 && index == 4 {
        0x7E
    } else if step == 0 && index == COLOR_SLEEP_AT {
        Sleep::TenMinutes.spec_ordinal()
    } else {
        0
    }
}

/// The colour packet that nothing was set in yet.
pub open spec fn color_seed() -> Seq<Seq<u8>> {
    Seq::new(
        COLOR_STEP_COUNT as nat,
        |step: int| Seq::new(COLOR_LEN as nat, |index: int| color_seed_byte(step, index)),
    )
}

/// `packet` with the three bytes of every key set to `color`, and every other
/// byte as it was.
pub open spec fn painted(packet: Seq<Seq<u8>>, color: Color) -> Seq<Seq<u8>> {
    Seq::new(
        COLOR_STEP_COUNT as nat,
        |step: int|
            Seq::new(
                COLOR_LEN as nat,
                |index: int|
                    match slot_at(step, index) {
                        Some((_, channel)) => color.channel(channel),
                        None => packet[step][index],
                    },
            ),
    )
}

/// `packet` on the way to `painted`: the bytes of every key in a slot below
/// `slots` are set, and of the key in slot `slots` the channels below `channels`.
spec fn painted_upto(packet: Seq<Seq<u8>>, color: Color, slots: int, channels: int) -> Seq<
    Seq<u8>,
> {
    Seq::new(
        COLOR_STEP_COUNT as nat,
        |step: int|
            Seq::new(
                COLOR_LEN as nat,
                |index: int|
                    match slot_at(step, index) {
                        Some((slot, channel)) => if slot < slots || (slot == slots && channel
                            < channels) {
                            color.channel(channel)
                        } else {
                            packet[step][index]
                        },
                        None => packet[step][index],
                    },
            ),
    )
}

/// Two bytes that belong to the same slot and channel are one byte.
proof fn lemma_slot_at_one(step: int, index: int, other_step: int, other_index: int)
    requires
        slot_at(step, index) is Some,
        slot_at(step, index) == slot_at(other_step, other_index),
    ensures
        step == other_step,
        index == other_index,
{
}

/// `packet` with its sleep setting set to `sleep`.
pub open spec fn color_with_sleep(packet: Seq<Seq<u8>>, sleep: Sleep) -> Seq<Seq<u8>> {
    packet.update(0, packet[0].update(COLOR_SLEEP_AT as int, sleep.spec_ordinal()))
}

/// `packet` has the form of a colour packet: seven steps of 65 bytes.
pub open spec fn is_color_packet(packet: Seq<Seq<u8>>) -> bool {
    &&& packet.len() == COLOR_STEP_COUNT
    &&& forall|step: int|
        0 <= step < COLOR_STEP_COUNT ==> (#[trigger] packet[step]).len() == COLOR_LEN
}

/// After the keys were given a colour, each of the three bytes of every key
/// holds its channel of that colour.
pub proof fn lemma_painted_key(packet: Seq<Seq<u8>>, color: Color, key: Keys, channel: int)
    requires
        0 <= channel < CHANNELS,
    ensures
        painted(packet, color)[key.address(channel).step as int][key.address(channel).index as int]
            == color.channel(channel),
{
    key.lemma_address_in_bounds(channel);
    key.lemma_slot_at_address(channel);
}

/// Giving the keys a colour changes no byte of a header.
pub proof fn lemma_painted_keeps_headers(packet: Seq<Seq<u8>>, color: Color, step: int, index: int)
    requires
        0 <= step < COLOR_STEP_COUNT,
        0 <= index < header_len(step),
    ensures
        painted(packet, color)[step][index] == packet[step][index],
{
}

/// Giving the keys the same colour twice leaves the packet as giving it once.
pub proof fn lemma_painted_twice(packet: Seq<Seq<u8>>, color: Color)
    ensures
        painted(painted(packet, color), color) == painted(packet, color),
{
    assert(painted(painted(packet, color), color) =~~= painted(packet, color));
}

/// Setting the same sleep setting twice leaves the colour packet as setting it
/// once, and the setting touches one byte only: no key, and no other byte of
/// the header.
pub proof fn lemma_color_sleep(packet: Seq<Seq<u8>>, sleep: Sleep, step: int, index: int)
    requires
        is_color_packet(packet),
        0 <= step < COLOR_STEP_COUNT,
        0 <= index < COLOR_LEN,
    ensures
        color_with_sleep(color_with_sleep(packet, sleep), sleep) == color_with_sleep(packet, sleep),
        color_with_sleep(packet, sleep)[step][index] == if step == 0 && index == COLOR_SLEEP_AT {
            sleep.spec_ordinal()
        } else {
            packet[step][index]
        },
{
    assert(color_with_sleep(color_with_sleep(packet, sleep), sleep) =~~= color_with_sleep(
        packet,
        sleep,
    ));
}

/// The packet that gives every key its colour.
#[derive(Clone, Debug)]
pub struct ColorPacket {
    pub steps: Steps<COLOR_DATA_LEN>,
}

impl View for ColorPacket {
    type V = Seq<Seq<u8>>;

    open spec fn view(&self) -> Seq<Seq<u8>> {
        self.steps@
    }
}

impl ColorPacket {
    /// The packet is seven steps of 65 bytes.
    pub open spec fn wf(&self) -> bool {
        &&& self.steps.wf()
        &&& self.steps.step_count == COLOR_STEP_COUNT
        &&& self.steps.step_len == COLOR_LEN
    }

    /// Whether the packet is seven steps of 65 bytes.
    pub fn is_wf(&self) -> (out: bool)
        ensures
            out == self.wf(),
    {
        self.steps.is_wf() && self.steps.step_count == COLOR_STEP_COUNT && self.steps.step_len
            == COLOR_LEN
    }

    /// The colour packet that nothing was set in yet.
    pub fn new() -> (out: Self)
        ensures
            out.wf(),
            out@ == color_seed(),
    {
        let header: [u8; 2] = [0x0A, 0x07];
        let mut steps: Steps<COLOR_DATA_LEN> = Steps::new(
            COLOR_STEP_COUNT,
            COLOR_LEN,
            header.as_slice(),
        );
        *steps.index_mut(Indexes::new(0, 3)) = 0x03;
        *steps.index_mut(Indexes::new(0, 4)) = 0x7E;
        *steps.index_mut(Indexes::new(0, COLOR_SLEEP_AT)) = Sleep::default().ordinal();
        let ghost numberless = steps@;
        let mut step: usize = 0;
        while step < COLOR_STEP_COUNT
            invariant
                step <= COLOR_STEP_COUNT,
                steps.wf(),
                steps.step_count == COLOR_STEP_COUNT,
                steps.step_len == COLOR_LEN,
                steps@.len() == COLOR_STEP_COUNT,
                forall|s: int|
                    0 <= s < COLOR_STEP_COUNT ==> #[trigger] steps@[s] == if s < step {
                        numberless[s].update(STEP_NUMBER_AT as int, (s + 1) as u8)
                    } else {
                        numberless[s]
                    },
            decreases COLOR_STEP_COUNT - step,
        {
            *steps.index_mut(Indexes::new(step, STEP_NUMBER_AT)) = (step + 1) as u8;
            step += 1;
        }
        assert(steps@ =~~= color_seed());
        ColorPacket { steps }
    }

    /// Gives every key the colour `color`. No other byte changes.
    pub fn set_color(&mut self, color: Color)
        requires
            old(self).wf(),
        ensures
            final(self).wf(),
            final(self)@ == painted(old(self)@, color),
    {
        let ghost before = self@;
        let colors = color.channels();
        proof {
            self.steps.lemma_steps_cover();
        }
        let mut slot: usize = 0;
        while slot < KEY_COUNT
            invariant
                slot <= KEY_COUNT,
                self.wf(),
                before.len() == COLOR_STEP_COUNT,
                forall|s: int| 0 <= s < COLOR_STEP_COUNT ==> (#[trigger] before[s]).len() == COLOR_LEN,
                forall|channel: int| 0 <= channel < 3 ==> #[trigger] colors[channel] == color.channel(channel),
                self@ =~~= painted_upto(before, color, slot as int, 0),
            decreases KEY_COUNT - slot,
        {
            let key = Keys::from_slot(slot).unwrap();
            let indexes = key.indexes();
            let mut channel: usize = 0;
            while channel < CHANNELS
                invariant
                    channel <= CHANNELS,
                    slot < KEY_COUNT,
                    key.spec_slot() == slot,
                    self.wf(),
                    before.len() == COLOR_STEP_COUNT,
                    forall|s: int| 0 <= s < COLOR_STEP_COUNT ==> (#[trigger] before[s]).len() == COLOR_LEN,
                    forall|c: int| 0 <= c < 3 ==> #[trigger] colors[c] == color.channel(c),
                    forall|c: int| 0 <= c < CHANNELS ==> #[trigger] indexes[c] == key.address(c),
                    self@ =~~= painted_upto(before, color, slot as int, channel as int),
                decreases CHANNELS - channel,
            {
                proof {
                    key.lemma_address_in_bounds(channel as int);
                    key.lemma_slot_at_address(channel as int);
                }
                let ghost at = key.address(channel as int);
                let ghost earlier = self@;
                *self.steps.index_mut(indexes[channel]) = colors[channel];
                proof {
                    let now = self@;
                    let goal = painted_upto(before, color, slot as int, channel + 1);
                    assert forall|s: int, i: int| 0 <= s < COLOR_STEP_COUNT && 0 <= i < COLOR_LEN implies #[trigger] now[s][i]
                        == goal[s][i] by {
                        if s == at.step && i == at.index {
                        } else {
                            assert(now[s][i] == earlier[s][i]);
                            if slot_at(s, i) == Some((slot as int, channel as int)) {
                                lemma_slot_at_one(s, i, at.step as int, at.index as int);
                            }
                        }
                    }
                    assert(now =~~= goal);
                }
                channel += 1;
            }
            proof {
                assert(painted_upto(before, color, slot as int, CHANNELS as int) =~~= painted_upto(
                    before,
                    color,
                    slot + 1,
                    0,
                ));
            }
            slot += 1;
        }
        proof {
            assert(self@ =~~= painted(before, color));
        }
    }

    /// Sets how long the keyboard stays lit. No other byte changes.
    pub fn set_sleep(&mut self, sleep: Sleep)
        requires
            old(self).wf(),
        ensures
            final(self).wf(),
            final(self)@ == color_with_sleep(old(self)@, sleep),
    {
        let ghost before = self@;
        *self.steps.index_mut(Indexes::new(0, COLOR_SLEEP_AT)) = sleep.ordinal();
        assert(self@ =~~= color_with_sleep(before, sleep));
    }
}

/// The byte at `index` of an animation packet that nothing was set in yet:
/// five fixed bytes, the first animation, a zero byte, then the default speed
/// and brightness, black, no colour mix, and a keyboard that never sleeps.
/// All other bytes are zero.
pub open spec fn animation_seed_byte(index: int) -> u8 {
    if index == 0 {
        0x0A
    } else if index == 1 {
        0x01
    } else if index == 2 {
        0x01
    } else if index == 3 {
        0x02
    } else if index == 4 {
        0x29
    } else if index == ANIMATION_AT {
        Animation::NeonStream.spec_ordinal()
    } else if index == SPEED_AT {
        Speed::One.spec_ordinal()
    } else if index == BRIGHTNESS_AT {
        Brightness::Five.spec_ordinal()
    } else if index == ANIMATION_SLEEP_AT {
        Sleep::Never.spec_ordinal()
    } else {
        0
    }
}

/// The animation packet that nothing was set in yet.
pub open spec fn animation_seed() -> Seq<u8> {
    Seq::new(ANIMATION_LEN as nat, |index: int| animation_seed_byte(index))
}

/// `report` with the three bytes of its colour set to `color`.
pub open spec fn animation_with_color(report: Seq<u8>, color: Color) -> Seq<u8> {
    report.update(COLOR_AT as int, color.red).update(COLOR_AT + 1, color.green).update(
        COLOR_AT + 2,
        color.blue,
    )
}

/// The byte that stands for a flag.
pub open spec fn flag_byte(flag: bool) -> u8 {
    if flag {
        1
    } else {
        0
    }
}

/// Setting one byte of a report to the same value twice leaves the report as
/// setting it once, and changes no other byte: this is what every setter of the
/// animation packet does at a place of its own, so none of them touches the
/// fixed bytes or the place of another setting.
pub proof fn lemma_put(report: Seq<u8>, at: int, value: u8, index: int)
    requires
        0 <= at < report.len(),
        0 <= index < report.len(),
    ensures
        report.update(at, value).update(at, value) == report.update(at, value),
        report.update(at, value)[index] == if index == at {
            value
        } else {
            report[index]
        },
{
    assert(report.update(at, value).update(at, value) =~= report.update(at, value));
}

/// Setting the colour of an animation twice leaves the report as setting it
/// once, and changes the three bytes of the colour only.
pub proof fn lemma_animation_color(report: Seq<u8>, color: Color, index: int)
    requires
        report.len() == ANIMATION_LEN,
        0 <= index < ANIMATION_LEN,
    ensures
        animation_with_color(animation_with_color(report, color), color) == animation_with_color(
            report,
            color,
        ),
        animation_with_color(report, color)[index] == if COLOR_AT <= index < COLOR_AT + 3 {
            color.channel(index - COLOR_AT)
        } else {
            report[index]
        },
{
    assert(animation_with_color(animation_with_color(report, color), color) =~= animation_with_color(
        report,
        color,
    ));
}

/// The packet that starts an animation. Its view is its one report.
#[derive(Clone, Debug)]
pub struct AnimationPacket {
    pub steps: Steps<ANIMATION_LEN>,
}

impl View for AnimationPacket {
    type V = Seq<u8>;

    open spec fn view(&self) -> Seq<u8> {
        self.steps@[0]
    }
}

impl AnimationPacket {
    /// The packet is one step of 65 bytes.
    pub open spec fn wf(&self) -> bool {
        &&& self.steps.wf()
        &&& self.steps.step_count == ANIMATION_STEP_COUNT
        &&& self.steps.step_len == ANIMATION_LEN
    }

    /// Whether the packet is one step of 65 bytes.
    pub fn is_wf(&self) -> (out: bool)
        ensures
            out == self.wf(),
    {
        self.steps.is_wf() && self.steps.step_count == ANIMATION_STEP_COUNT && self.steps.step_len
            == ANIMATION_LEN
    }

    /// The animation packet that nothing was set in yet.
    pub fn new() -> (out: Self)
        ensures
            out.wf(),
            out@ == animation_seed(),
    {
        let header: [u8; 14] = [
            0x0A,
            0x01,
            0x01,
            0x02,
            0x29,
            Animation::NeonStream.ordinal(),
            0x00,
            Speed::default().ordinal(),
            Brightness::default().ordinal(),
            0x00,  // Default Colors.
            0x00,
            0x00,
            0x00,  // Color Mixing.
            Sleep::Never.ordinal(),
        ];
        let steps: Steps<ANIMATION_LEN> = Steps::new(
            ANIMATION_STEP_COUNT,
            ANIMATION_LEN,
            header.as_slice(),
        );
        AnimationPacket { steps }
    }

    /// Writes `value` at `index` of the report. No other byte changes.
    fn put(&mut self, index: usize, value: u8)
        requires
            old(self).wf(),
            index < ANIMATION_LEN,
        ensures
            final(self).wf(),
            final(self)@ == old(self)@.update(index as int, value),
    {
        let ghost before = self@;
        *self.steps.index_mut(Indexes::new(0, index)) = value;
        assert(self@ =~= before.update(index as int, value));
    }

    /// Sets the animation to show. No other byte changes.
    pub fn set_animation(&mut self, animation: Animation)
        requires
            old(self).wf(),
        ensures
            final(self).wf(),
            final(self)@ == old(self)@.update(ANIMATION_AT as int, animation.spec_ordinal()),
    {
        self.put(ANIMATION_AT, animation.ordinal());
    }

    /// Sets how fast the animation runs. No other byte changes.
    pub fn set_speed(&mut self, speed: Speed)
        requires
            old(self).wf(),
        ensures
            final(self).wf(),
            final(self)@ == old(self)@.update(SPEED_AT as int, speed.spec_ordinal()),
    {
        self.put(SPEED_AT, speed.ordinal());
    }

    /// Sets how bright the keys are lit. No other byte changes.
    pub fn set_brightness(&mut self, brightness: Brightness)
        requires
            old(self).wf(),
        ensures
            final(self).wf(),
            final(self)@ == old(self)@.update(BRIGHTNESS_AT as int, brightness.spec_ordinal()),
    {
        self.put(BRIGHTNESS_AT, brightness.ordinal());
    }

    /// Sets the colour of the animation. No other byte changes.
    pub fn set_color(&mut self, color: Color)
        requires
            old(self).wf(),
        ensures
            final(self).wf(),
            final(self)@ == animation_with_color(old(self)@, color),
    {
        self.put(COLOR_AT, color.red);
        self.put(COLOR_AT + 1, color.green);
        self.put(COLOR_AT + 2, color.blue);
    }

    /// Sets whether the animation mixes colours: one for yes, zero for no. No
    /// other byte changes.
    pub fn set_color_mix(&mut self, color_mix: bool)
        requires
            old(self).wf(),
        ensures
            final(self).wf(),
            final(self)@ == old(self)@.update(COLOR_MIX_AT as int, flag_byte(color_mix)),
    {
        self.put(COLOR_MIX_AT, if color_mix { 1 } else { 0 });
    }

    /// Sets how long the keyboard stays lit. No other byte changes.
    pub fn set_sleep(&mut self, sleep: Sleep)
        requires
            old(self).wf(),
        ensures
            final(self).wf(),
            final(self)@ == old(self)@.update(ANIMATION_SLEEP_AT as int, sleep.spec_ordinal()),
    {
        self.put(ANIMATION_SLEEP_AT, sleep.ordinal());
    }
}

} // verus!
