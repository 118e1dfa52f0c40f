//! Supported keyboards and what they have in common.

pub mod rk68;
pub mod steps;
pub mod transmission;

use vstd::prelude::*;
use crate::color::Color;
use crate::errors::{DeviceNotFound, GetDeviceError};
use crate::keyboards::rk68::Rk68;
use crate::keyboards::transmission::{Action, Transmission};

verus! {

/// What the HID layer tells of one interface of a device.
#[derive(Clone, Debug)]
pub struct DeviceInfo {
    pub vendor_id: u16,
    pub product_id: u16,
    pub interface_number: i32,
    pub usage: u16,
    pub usage_page: u16,
    /// The path under which the interface is opened.
    pub path: Vec<u8>,
}

/// What tells a keyboard model from the others: its vendor and its product.
pub trait Specs {
    const VID: u16;

    const PID: u16;

    /// The keyboard's packets have the form that the device reads.
    spec fn wf(&self) -> bool;

    #[inline(always)]
    fn vid() -> (out: u16)
        ensures
            out == Self::VID,
    {
        Self::VID
    }

    #[inline(always)]
    fn pid() -> (out: u16)
        ensures
            out == Self::PID,
    {
        Self::PID
    }
}

/// `devices[at]` is the first device on the list that is a `wanted` one.
pub open spec fn is_first_device(
    devices: Seq<DeviceInfo>,
    wanted: spec_fn(DeviceInfo) -> bool,
    at: int,
) -> bool {
    &&& 0 <= at < devices.len()
    &&& wanted(devices[at])
    &&& forall|before: int| 0 <= before < at ==> !wanted(#[trigger] devices[before])
}

/// No device on the list is a `wanted` one.
pub open spec fn has_no_device(
    devices: Seq<DeviceInfo>,
    wanted: spec_fn(DeviceInfo) -> bool,
) -> bool {
    forall|at: int| 0 <= at < devices.len() ==> !wanted(#[trigger] devices[at])
}

/// A keyboard that can be looked for among the devices.
pub trait Keyboard: Sized + Specs {
    /// `device` is the interface that this keyboard is driven through.
    spec fn is_device(device: DeviceInfo) -> bool;

    /// `self` is this keyboard as found at `device`, with nothing set yet.
    spec fn made_for(&self, device: DeviceInfo) -> bool;

    /// The keyboard among the devices that the HID layer listed. Where listing
    /// them failed, that error is handed on. Where the keyboard is not on the
    /// list, the error is [`DeviceNotFound`]. Otherwise the keyboard is made for
    /// the first device on the list that is one of its kind.
    fn new(devices: Result<Vec<DeviceInfo>, hidapi::HidError>) -> (out: Result<
        Self,
        GetDeviceError,
    >)
        ensures
            match devices {
                Err(error) => out == Err::<Self, GetDeviceError>(
                    GetDeviceError::HidApiError(error),
                ),
                Ok(list) => match out {
                    Ok(keyboard) => exists|at: int|
                        is_first_device(list@, |device: DeviceInfo| Self::is_device(device), at)
                            && keyboard.made_for(#[trigger] list@[at]),
                    Err(error) => has_no_device(list@, |device: DeviceInfo| Self::is_device(device))
                        && error == GetDeviceError::DeviceNotFound(DeviceNotFound),
                },
            },
    {
        match devices {
            Err(error) => Err(GetDeviceError::HidApiError(error)),
            Ok(list) => {
                let mut list = list;
                match Self::get_from_devices(&mut list) {
                    Some(keyboard) => Ok(keyboard),
                    None => Err(GetDeviceError::DeviceNotFound(DeviceNotFound)),
                }
            },
        }
    }

    /// The correct [`DeviceInfo`] is removed and used to construct the instance:
    /// it is the first on the list that is a device of this keyboard. Any other
    /// device information remains untouched. Where there is no such device,
    /// the list stays as it is and there is no keyboard.
    fn get_from_devices(devices: &mut Vec<DeviceInfo>) -> (out: Option<Self>)
        ensures
            match out {
                Some(keyboard) => exists|at: int|
                    is_first_device(old(devices)@, |device: DeviceInfo| Self::is_device(device), at)
                        && keyboard.made_for(#[trigger] old(devices)@[at]) && final(devices)@ == old(
                        devices,
                    )@.remove(at),
                None => has_no_device(old(devices)@, |device: DeviceInfo| Self::is_device(device))
                    && final(devices)@ == old(devices)@,
            },
    ;
}

/// A keyboard whose keys can be given a colour.
pub trait KeyboardColorable: Keyboard {
    const COLOR_ENDPOINT: i32;

    const USAGE: u16;

    const USAGE_PAGE: u16;

    /// Gives the keys the colour `color`.
    fn set_color(&mut self, color: Color)
        requires
            old(self).wf(),
        ensures
            final(self).wf(),
    ;

    /// Starts sending the colour: the first thing to do is to open the device.
    fn apply_color(&self) -> (out: (Transmission, Action))
        requires
            self.wf(),
        ensures
            out.0.stage is Opening,
            out.1 is Open,
    ;
}

/// A keyboard that takes settings with a colour.
pub trait KeyboardColorOption: Specs {
    type Options;

    /// Sets what goes with a colour.
    fn set_color_parameters(&mut self, options: Self::Options)
        requires
            old(self).wf(),
        ensures
            final(self).wf(),
    ;
}

/// A keyboard that can show an animation.
pub trait KeyboardAnimatable: Specs {
    const ANIMATION_ENDPOINT: i32;

    const USAGE: u16;

    const USAGE_PAGE: u16;

    type Animation;

    /// Sets the animation to show.
    fn set_animation(&mut self, animation: Self::Animation)
        requires
            old(self).wf(),
        ensures
            final(self).wf(),
    ;

    /// Starts sending the animation: the first thing to do is to open the device.
    fn apply_animation(&self) -> (out: (Transmission, Action))
        requires
            self.wf(),
        ensures
            out.0.stage is Opening,
            out.1 is Open,
    ;
}

/// A keyboard that takes settings with an animation.
pub trait KeyboardAnimationOption: Specs {
    type Options;

    /// Sets what goes with an animation.
    fn set_animation_parameters(&mut self, options: Self::Options)
        requires
            old(self).wf(),
        ensures
            final(self).wf(),
    ;
}

/// The supported keyboards.
#[derive(Clone, Debug)]
pub enum KeyboardModels {
    Rk68(Rk68),
}

impl From<Rk68> for KeyboardModels {
    fn from(value: Rk68) -> (out: Self) {
        Self::Rk68(value)
    }
}

impl vstd::std_specs::convert::FromSpecImpl<Rk68> for KeyboardModels {
    open spec fn obeys_from_spec() -> bool {
        true
    }

    open spec fn from_spec(value: Rk68) -> Self {
        KeyboardModels::Rk68(value)
    }
}

/// The devices on the list that an RK68 is driven through, in their order.
pub open spec fn rk68_devices(devices: Seq<DeviceInfo>) -> Seq<DeviceInfo> {
    devices.filter(|device: DeviceInfo| Rk68::is_device(device))
}

/// The first wanted device leads the wanted devices, and the others follow
/// as they do on the list without it.
proof fn lemma_filter_first(devices: Seq<DeviceInfo>, wanted: spec_fn(DeviceInfo) -> bool, at: int)
    requires
        is_first_device(devices, wanted, at),
    ensures
        devices.filter(wanted) == seq![devices[at]] + devices.remove(at).filter(wanted),
{
    let front = devices.take(at);
    let back = devices.skip(at + 1);
    assert(devices =~= front + seq![devices[at]] + back);
    assert(devices.remove(at) =~= front + back);
    assert(front.all(|device: DeviceInfo| !wanted(device)));
    front.lemma_all_neg_filter_empty(wanted);
    Seq::filter_distributes_over_add(front + seq![devices[at]], back, wanted);
    Seq::filter_distributes_over_add(front, seq![devices[at]], wanted);
    Seq::filter_distributes_over_add(front, back, wanted);
    assert(seq![devices[at]].filter(wanted) =~= seq![devices[at]]) by {
        reveal_with_fuel(Seq::filter, 2);
        assert(seq![devices[at]].drop_last() =~= Seq::<DeviceInfo>::empty());
    }
    assert(front.filter(wanted) =~= Seq::<DeviceInfo>::empty());
}

/// Where no device is wanted, the wanted devices are none.
proof fn lemma_filter_none(devices: Seq<DeviceInfo>, wanted: spec_fn(DeviceInfo) -> bool)
    requires
        has_no_device(devices, wanted),
    ensures
        devices.filter(wanted) == Seq::<DeviceInfo>::empty(),
{
    assert(devices.all(|device: DeviceInfo| !wanted(device)));
    devices.lemma_all_neg_filter_empty(wanted);
    assert(devices.filter(wanted) =~= Seq::<DeviceInfo>::empty());
}

impl KeyboardModels {
    /// `self` is the keyboard as found at `device`, with nothing set yet.
    pub open spec fn made_for(self, device: DeviceInfo) -> bool {
        match self {
            KeyboardModels::Rk68(keyboard) => keyboard.made_for(device),
        }
    }

    /// Get all supported, and found keyboards, from what listing the devices
    /// gave: an error of the HID layer is handed on.
    pub fn keyboards(devices: Result<Vec<DeviceInfo>, hidapi::HidError>) -> (out: Result<
        Vec<Self>,
        hidapi::HidError,
    >)
        ensures
            match devices {
                Err(error) => out == Err::<Vec<Self>, hidapi::HidError>(error),
                Ok(list) => out matches Ok(found) && found@.len() == rk68_devices(list@).len()
                    && forall|at: int|
                    0 <= at < found@.len() ==> (#[trigger] found@[at]).made_for(
                        rk68_devices(list@)[at],
                    ),
            },
    {
        match devices {
            Err(error) => Err(error),
            Ok(list) => Ok(Self::keyboards_from_hidapi(list)),
        }
    }

    /// Same as [`KeyboardModels::keyboards`], for devices that were listed
    /// already: one keyboard for each device that a supported keyboard is
    /// driven through, in the order of the list.
    pub fn keyboards_from_hidapi(devices: Vec<DeviceInfo>) -> (out: Vec<Self>)
        ensures
            out@.len() == rk68_devices(devices@).len(),
            forall|at: int|
                0 <= at < out@.len() ==> (#[trigger] out@[at]).made_for(rk68_devices(devices@)[at]),
    {
        let ghost all = rk68_devices(devices@);
        let ghost wanted = |device: DeviceInfo| Rk68::is_device(device);
        let mut devices = devices;
        let mut keyboards: Vec<Self> = Vec::new();
        loop
            invariant
                wanted == (|device: DeviceInfo| Rk68::is_device(device)),
                keyboards@.len() + devices@.filter(wanted).len() == all.len(),
                forall|at: int|
                    0 <= at < keyboards@.len() ==> (#[trigger] keyboards@[at]).made_for(all[at]),
                forall|at: int|
                    0 <= at < devices@.filter(wanted).len() ==> #[trigger] devices@.filter(wanted)[at]
                        == all[keyboards@.len() + at],
            ensures
                keyboards@.len() == all.len(),
                forall|at: int|
                    0 <= at < keyboards@.len() ==> (#[trigger] keyboards@[at]).made_for(all[at]),
            decreases devices@.len(),
        {
            let ghost before = devices@;
            match Rk68::get_from_devices(&mut devices) {
                Some(keyboard) => {
                    proof {
                        let at = choose|at: int|
                            is_first_device(before, wanted, at) && keyboard.made_for(
                                #[trigger] before[at],
                            ) && devices@ == before.remove(at);
                        lemma_filter_first(before, wanted, at);
                        assert(before.filter(wanted)[0] == before[at]);
                        let rest = devices@.filter(wanted);
                        assert forall|i: int| 0 <= i < rest.len() implies #[trigger] rest[i]
                            == all[keyboards@.len() + 1 + i] by {
                            assert(before.filter(wanted)[i + 1] == rest[i]);
                        }
                    }
                    keyboards.push(KeyboardModels::Rk68(keyboard));
                },
                None => {
                    proof {
                        lemma_filter_none(before, wanted);
                    }
                    break ;
                },
            }
        }
        keyboards
    }
}

} // verus!
