//! The Royal Kludge RK68.

pub mod keys;
pub mod packets;

use vstd::prelude::*;
use crate::color::Color;
use crate::keyboards::rk68::packets::{
    animation_seed, animation_with_color, color_seed, color_with_sleep, flag_byte, painted,
    AnimationPacket, ColorPacket, ANIMATION_AT, ANIMATION_SLEEP_AT, BRIGHTNESS_AT, COLOR_MIX_AT,
    SPEED_AT,
};
use crate::keyboards::transmission::{Action, Stage, Transmission};
use crate::keyboards::{
    is_first_device, DeviceInfo, Keyboard, KeyboardAnimatable, KeyboardAnimationOption,
    KeyboardColorOption, KeyboardColorable, Specs,
};

verus! {

/// The number of steps needed for a color setting.
pub const COLOR_STEP_COUNT: usize = 7;

/// Number of bytes we need to send for each step.
pub const COLOR_LEN: usize = 65;

/// Total number of bytes that will be written for a color setting.
pub const COLOR_DATA_LEN: usize = COLOR_LEN * COLOR_STEP_COUNT;

/// The endpoint used to send color, and animation data.
pub const ENDPOINT: i32 = 0x01;

/// The vendor of the keyboard.
pub const VENDOR_ID: u16 = 0x0258A;

/// The keyboard among the vendor's products.
pub const PRODUCT_ID: u16 = 0x005E;

/// The usage of the interface that the keyboard is driven through.
pub const COLOR_USAGE: u16 = 128;

/// The usage page of the interface that the keyboard is driven through.
pub const COLOR_USAGE_PAGE: u16 = 1;

/// Number of steps needed for setting an animation.
pub const ANIMATION_STEP_COUNT: usize = 1;

/// Number of bytes needed to set an animation.
pub const ANIMATION_LEN: usize = 65;

/// The pause after each step of a colour, in milliseconds.
pub const COLOR_STEP_PAUSE: u64 = 5;

/// The RK68 at one device, with the packets that will be sent to it.
#[derive(Clone, Debug)]
pub struct Rk68 {
    pub device_info: DeviceInfo,
    pub color_steps: ColorPacket,
    pub animation_steps: AnimationPacket,
}

impl Rk68 {
    /// Create an unchecked keyboard via [`DeviceInfo`], with nothing set yet.
    ///
    /// While it is not recommended you call this directly:
    /// It makes it possible to test if a different model keyboard communicates the same way as
    /// this one.
    /// Before calling this function you should at least verify if the keyboard in question, works
    /// in a similar way to this keyboard.
    ///
    /// # Warning:
    /// The device being written to can be bricked, or bugged when a write is performed, if
    /// unsupported device information is passed.
    pub fn new(device_info: DeviceInfo) -> (out: Self)
        ensures
            out.made_for(device_info),
    {
        Self {
            device_info,
            color_steps: ColorPacket::new(),
            animation_steps: AnimationPacket::new(),
        }
    }

    /// Whether both packets have the form that the device reads.
    pub fn is_wf(&self) -> (out: bool)
        ensures
            out == self.wf(),
    {
        self.color_steps.is_wf() && self.animation_steps.is_wf()
    }

    /// Whether `device` is the interface that the RK68 is driven through.
    pub fn is_rk68(device: &DeviceInfo) -> (out: bool)
        ensures
            out == Self::is_device(*device),
    {
        device.vendor_id == Self::VID && device.product_id == Self::PID && device.interface_number
            == Self::COLOR_ENDPOINT && device.usage == <Self as KeyboardColorable>::USAGE
            && device.usage_page == <Self as KeyboardColorable>::USAGE_PAGE
    }
}

impl Specs for Rk68 {
    const VID: u16 = VENDOR_ID;

    const PID: u16 = PRODUCT_ID;

    open spec fn wf(&self) -> bool {
        self.color_steps.wf() && self.animation_steps.wf()
    }
}

impl Keyboard for Rk68 {
    open spec fn is_device(device: DeviceInfo) -> bool {
        &&& device.vendor_id == VENDOR_ID
        &&& device.product_id == PRODUCT_ID
        &&& device.interface_number == ENDPOINT
        &&& device.usage == COLOR_USAGE
        &&& device.usage_page == COLOR_USAGE_PAGE
    }

    open spec fn made_for(&self, device: DeviceInfo) -> bool {
        &&& self.wf()
        &&& self.device_info == device
        &&& self.color_steps@ == color_seed()
        &&& self.animation_steps@ == animation_seed()
    }

    fn get_from_devices(devices: &mut Vec<DeviceInfo>) -> (out: Option<Self>) {
        let mut at: usize = 0;
        while at < devices.len()
            invariant
                at <= devices@.len(),
                devices@ == old(devices)@,
                forall|before: int|
                    0 <= before < at ==> !Self::is_device(#[trigger] devices@[before]),
            decreases devices@.len() - at,
        {
            if Self::is_rk68(&devices[at]) {
                let device_info = devices.remove(at);
                let keyboard = Self::new(device_info);
                assert(keyboard.made_for(old(devices)@[at as int]));
                assert(is_first_device(
                    old(devices)@,
                    |device: DeviceInfo| Self::is_device(device),
                    at as int,
                ));
                return Some(keyboard);
            }
            at += 1;
        }
        None
    }
}

impl KeyboardColorable for Rk68 {
    const COLOR_ENDPOINT: i32 = ENDPOINT;

    const USAGE_PAGE: u16 = COLOR_USAGE_PAGE;

    const USAGE: u16 = COLOR_USAGE;

    /// Gives every key the colour `color`. Nothing else changes.
    fn set_color(&mut self, color: Color)
        ensures
            final(self).color_steps@ == painted(old(self).color_steps@, color),
            final(self).animation_steps == old(self).animation_steps,
            final(self).device_info == old(self).device_info,
    {
        self.color_steps.set_color(color);
    }

    /// Starts sending the colour: seven steps in their order, each followed by
    /// a pause of five milliseconds.
    fn apply_color(&self) -> (out: (Transmission, Action))
        ensures
            out.0 == (Transmission {
                step_count: COLOR_STEP_COUNT,
                pause: Some(COLOR_STEP_PAUSE),
                stage: Stage::Opening,
            }),
            out.1 == Action::Open,
    {
        Transmission::start(self.color_steps.steps.step_count, Some(COLOR_STEP_PAUSE))
    }
}

/// How long the keyboard stays lit when no key is pressed.
#[derive(Clone, Copy, Debug, PartialEq, Eq, Structural)]
pub enum Sleep {
    FiveMinutes,
    TenMinutes,
    TwentyMinutes,
    ThirtyMinutes,
    Never,
}

impl Sleep {
    /// The byte that stands for the setting in a packet.
    pub open spec fn spec_ordinal(self) -> u8 {
        match self {
            Sleep::FiveMinutes => 1,
            Sleep::TenMinutes => 2,
            Sleep::TwentyMinutes => 3,
            Sleep::ThirtyMinutes => 4,
            Sleep::Never => 5,
        }
    }

    /// The byte that stands for the setting in a packet.
    #[verifier::when_used_as_spec(spec_ordinal)]
    pub fn ordinal(self) -> (out: u8)
        ensures
            out == self.spec_ordinal(),
    {
        match self {
            Sleep::FiveMinutes => 1,
            Sleep::TenMinutes => 2,
            Sleep::TwentyMinutes => 3,
            Sleep::ThirtyMinutes => 4,
            Sleep::Never => 5,
        }
    }
}

impl Default for Sleep {
    fn default() -> (out: Self)
        ensures
            out == Sleep::TenMinutes,
    {
        Sleep::TenMinutes
    }
}

/// What goes with a colour.
#[derive(Clone, Copy, Debug, PartialEq, Eq, Structural)]
pub struct ColorOptions {
    pub sleep: Sleep,
}

impl Default for ColorOptions {
    fn default() -> (out: Self)
        ensures
            out == (ColorOptions { sleep: Sleep::TenMinutes }),
    {
        ColorOptions { sleep: Sleep::default() }
    }
}

impl From<Sleep> for ColorOptions {
    fn from(value: Sleep) -> (out: Self) {
        Self { sleep: value }
    }
}

impl vstd::std_specs::convert::FromSpecImpl<Sleep> for ColorOptions {
    open spec fn obeys_from_spec() -> bool {
        true
    }

    open spec fn from_spec(value: Sleep) -> Self {
        ColorOptions { sleep: value }
    }
}

/// The lighting effects that the keyboard knows.
#[derive(Clone, Copy, Debug, PartialEq, Eq, Structural)]
pub enum Animation {
    NeonStream,
    RipplesShining,
    RotatingWindmill,
    SineWave,
    RainbowRoulette,
    StarsTwinkle,
    LayerUponLayer,
    RichAndHonored,
    MarqueeEffect,
    RotatingStorm,
    SerpentineHorse,
    RetroSnake,
    DiagonalTransformer,
    Ambilight,
    Streamer,
    Steady,
    Breathing,
    Neon,
    ShadowDisappear,
    FlashAway,
}

impl Animation {
    /// The byte that stands for the setting in a packet.
    pub open spec fn spec_ordinal(self) -> u8 {
        match self {
            Animation::NeonStream => 1,
            Animation::RipplesShining => 2,
            Animation::RotatingWindmill => 3,
            Animation::SineWave => 4,
            Animation::RainbowRoulette => 5,
            Animation::StarsTwinkle => 6,
            Animation::LayerUponLayer => 7,
            Animation::RichAndHonored => 8,
            Animation::MarqueeEffect => 9,
            Animation::RotatingStorm => 10,
            Animation::SerpentineHorse => 11,
            Animation::RetroSnake => 12,
            Animation::DiagonalTransformer => 13,
            Animation::Ambilight => 14,
            Animation::Streamer => 15,
            Animation::Steady => 16,
            Animation::Breathing => 17,
            Animation::Neon => 18,
            Animation::ShadowDisappear => 19,
            Animation::FlashAway => 20,
        }
    }

    /// The byte that stands for the setting in a packet.
    #[verifier::when_used_as_spec(spec_ordinal)]
    pub fn ordinal(self) -> (out: u8)
        ensures
            out == self.spec_ordinal(),
    {
        match self {
            Animation::NeonStream => 1,
            Animation::RipplesShining => 2,
            Animation::RotatingWindmill => 3,
            Animation::SineWave => 4,
            Animation::RainbowRoulette => 5,
            Animation::StarsTwinkle => 6,
            Animation::LayerUponLayer => 7,
            Animation::RichAndHonored => 8,
            Animation::MarqueeEffect => 9,
            Animation::RotatingStorm => 10,
            Animation::SerpentineHorse => 11,
            Animation::RetroSnake => 12,
            Animation::DiagonalTransformer => 13,
            Animation::Ambilight => 14,
            Animation::Streamer => 15,
            Animation::Steady => 16,
            Animation::Breathing => 17,
            Animation::Neon => 18,
            Animation::ShadowDisappear => 19,
            Animation::FlashAway => 20,
        }
    }
}

/// What goes with an animation.
#[derive(Clone, Copy, Debug, PartialEq, Eq, Structural)]
pub struct AnimationOptions {
    pub color_mix: bool,
    pub color: Color,
    pub speed: Speed,
    pub sleep: Sleep,
    pub brightness: Brightness,
}

impl Default for AnimationOptions {
    fn default() -> (out: Self)
        ensures
            out == (AnimationOptions {
                color_mix: false,
                color: Color { red: 0, green: 0, blue: 0 },
                speed: Speed::One,
                sleep: Sleep::TenMinutes,
                brightness: Brightness::Five,
            }),
    {
        AnimationOptions {
            color_mix: false,
            color: Color::default(),
            speed: Speed::default(),
            sleep: Sleep::default(),
            brightness: Brightness::default(),
        }
    }
}

/// How fast an animation runs.
#[derive(Clone, Copy, Debug, PartialEq, Eq, Structural)]
pub enum Speed {
    One,
    Two,
    Three,
    Four,
    Five,
}

impl Speed {
    /// The byte that stands for the setting in a packet.
    pub open spec fn spec_ordinal(self) -> u8 {
        match self {
            Speed::One => 1,
            Speed::Two => 2,
            Speed::Three => 3,
            Speed::Four => 4,
            Speed::Five => 5,
        }
    }

    /// The byte that stands for the setting in a packet.
    #[verifier::when_used_as_spec(spec_ordinal)]
    pub fn ordinal(self) -> (out: u8)
        ensures
            out == self.spec_ordinal(),
    {
        match self {
            Speed::One => 1,
            Speed::Two => 2,
            Speed::Three => 3,
            Speed::Four => 4,
            Speed::Five => 5,
        }
    }
}

impl Default for Speed {
    fn default() -> (out: Self)
        ensures
            out == Speed::One,
    {
        Speed::One
    }
}

/// Zero is off, each one after that is 20% of the total brightness.
#[derive(Clone, Copy, Debug, PartialEq, Eq, Structural)]
pub enum Brightness {
    Zero,
    One,
    Two,
    Three,
    Four,
    Five,
}

impl Brightness {
    /// The byte that stands for the setting in a packet.
    pub open spec fn spec_ordinal(self) -> u8 {
        match self {
            Brightness::Zero => 0,
            Brightness::One => 1,
            Brightness::Two => 2,
            Brightness::Three => 3,
            Brightness::Four => 4,
            Brightness::Five => 5,
        }
    }

    /// The byte that stands for the setting in a packet.
    #[verifier::when_used_as_spec(spec_ordinal)]
    pub fn ordinal(self) -> (out: u8)
        ensures
            out == self.spec_ordinal(),
    {
        match self {
            Brightness::Zero => 0,
            Brightness::One => 1,
            Brightness::Two => 2,
            Brightness::Three => 3,
            Brightness::Four => 4,
            Brightness::Five => 5,
        }
    }
}

impl Default for Brightness {
    fn default() -> (out: Self)
        ensures
            out == Brightness::Five,
    {
        Brightness::Five
    }
}

impl KeyboardColorOption for Rk68 {
    type Options = ColorOptions;

    /// Sets how long the keyboard stays lit. Nothing else changes.
    fn set_color_parameters(&mut self, options: ColorOptions)
        ensures
            final(self).color_steps@ == color_with_sleep(old(self).color_steps@, options.sleep),
            final(self).animation_steps == old(self).animation_steps,
            final(self).device_info == old(self).device_info,
    {
        self.color_steps.set_sleep(options.sleep);
    }
}

impl KeyboardAnimatable for Rk68 {
    const ANIMATION_ENDPOINT: i32 = ENDPOINT;

    const USAGE: u16 = 1;

    const USAGE_PAGE: u16 = 128;

    type Animation = Animation;

    /// Sets the animation to show. Nothing else changes.
    fn set_animation(&mut self, animation: Animation)
        ensures
            final(self).animation_steps@ == old(self).animation_steps@.update(
                ANIMATION_AT as int,
                animation.spec_ordinal(),
            ),
            final(self).color_steps == old(self).color_steps,
            final(self).device_info == old(self).device_info,
    {
        self.animation_steps.set_animation(animation);
    }

    /// Starts sending the animation: one step, and no pause.
    fn apply_animation(&self) -> (out: (Transmission, Action))
        ensures
            out.0 == (Transmission {
                step_count: ANIMATION_STEP_COUNT,
                pause: None,
                stage: Stage::Opening,
            }),
            out.1 == Action::Open,
    {
        Transmission::start(self.animation_steps.steps.step_count, None)
    }
}

/// The animation report `report` with `options` set in it.
pub open spec fn animation_with_options(report: Seq<u8>, options: AnimationOptions) -> Seq<u8> {
    animation_with_color(
        report.update(SPEED_AT as int, options.speed.spec_ordinal()).update(
            BRIGHTNESS_AT as int,
            options.brightness.spec_ordinal(),
        ),
        options.color,
    ).update(COLOR_MIX_AT as int, flag_byte(options.color_mix)).update(
        ANIMATION_SLEEP_AT as int,
        options.sleep.spec_ordinal(),
    )
}

/// Setting the same options twice leaves the report as setting them once, and
/// the options touch their seven bytes only: neither the animation and the
/// fixed bytes before them nor what follows them.
pub proof fn lemma_animation_options(report: Seq<u8>, options: AnimationOptions, index: int)
    requires
        report.len() == ANIMATION_LEN,
        0 <= index < ANIMATION_LEN,
    ensures
        animation_with_options(animation_with_options(report, options), options)
            == animation_with_options(report, options),
        index < SPEED_AT || ANIMATION_SLEEP_AT < index ==> animation_with_options(
            report,
            options,
        )[index] == report[index],
        animation_with_options(report, options)[ANIMATION_AT as int] == report[ANIMATION_AT as int],
        animation_with_options(report, options)[SPEED_AT as int] == options.speed.spec_ordinal(),
{
    assert(animation_with_options(animation_with_options(report, options), options)
        =~= animation_with_options(report, options));
}

impl KeyboardAnimationOption for Rk68 {
    type Options = AnimationOptions;

    /// Sets the speed, the brightness, the colour, the colour mix and the sleep
    /// setting of the animation. Nothing else changes.
    fn set_animation_parameters(&mut self, options: AnimationOptions)
        ensures
            final(self).animation_steps@ == animation_with_options(
                old(self).animation_steps@,
                options,
            ),
            final(self).color_steps == old(self).color_steps,
            final(self).device_info == old(self).device_info,
    {
        // Set animation speed.
        self.animation_steps.set_speed(options.speed);

        self.animation_steps.set_brightness(options.brightness);

        // Set the colors.
        self.animation_steps.set_color(options.color);

        // Set color mixing.
        self.animation_steps.set_color_mix(options.color_mix);

        // Set the sleep.
        self.animation_steps.set_sleep(options.sleep);
    }
}

} // verus!
