//! The presentation facts the settings window renders alongside the device
//! state: the label of each charge limit, the device actions a key can be
//! bound to on this model, and what each Fn-layer key does before it is
//! rebound.

use vstd::prelude::*;
use std::collections::BTreeMap;

use crate::binding::{available_device_actions, offered_device_actions, spec_label, DeviceAction};
use crate::builtin_meta::{has_labels_of, hypershift_labels, hypershift_row_applies, hypershift_table};

verus! {

/// The battery charge limits the firmware offers.
#[derive(Clone, Copy, Debug, PartialEq, Eq, Structural)]
pub enum BatteryLimit {
    Off,
    Limit50,
    Limit55,
    Limit60,
    Limit65,
    Limit70,
    Limit75,
    Limit80,
    Unknown,
}

/// Every limit a user can pick, in the order the window lists them.
pub const BATTERY_LIMITS: [BatteryLimit; 8] = [
    BatteryLimit::Off,
    BatteryLimit::Limit50,
    BatteryLimit::Limit55,
    BatteryLimit::Limit60,
    BatteryLimit::Limit65,
    BatteryLimit::Limit70,
    BatteryLimit::Limit75,
    BatteryLimit::Limit80,
];

/// One keyboard backlight stop: the firmware takes 0..=255 but has five
/// distinct levels.
pub const KEYBOARD_BRIGHTNESS_STEP: u8 = 51;

pub open spec fn spec_battery_limits() -> Seq<BatteryLimit> {
    seq![
        BatteryLimit::Off,
        BatteryLimit::Limit50,
        BatteryLimit::Limit55,
        BatteryLimit::Limit60,
        BatteryLimit::Limit65,
        BatteryLimit::Limit70,
        BatteryLimit::Limit75,
        BatteryLimit::Limit80,
    ]
}

/// The charge level a limit stops at, if it sets one.
pub open spec fn spec_battery_limit_percent(limit: BatteryLimit) -> Option<u8> {
    match limit {
        BatteryLimit::Off | BatteryLimit::Unknown => None,
        BatteryLimit::Limit50 => Some(50),
        BatteryLimit::Limit55 => Some(55),
        BatteryLimit::Limit60 => Some(60),
        BatteryLimit::Limit65 => Some(65),
        BatteryLimit::Limit70 => Some(70),
        BatteryLimit::Limit75 => Some(75),
        BatteryLimit::Limit80 => Some(80),
    }
}

/// The window's label for a limit: the bare value, since the window labels
/// the control itself.
pub open spec fn spec_battery_limit_label(limit: BatteryLimit) -> Seq<char> {
    match limit {
        BatteryLimit::Off => "Off"@,
        BatteryLimit::Limit50 => "50%"@,
        BatteryLimit::Limit55 => "55%"@,
        BatteryLimit::Limit60 => "60%"@,
        BatteryLimit::Limit65 => "65%"@,
        BatteryLimit::Limit70 => "70%"@,
        BatteryLimit::Limit75 => "75%"@,
        BatteryLimit::Limit80 => "80%"@,
        BatteryLimit::Unknown => "Unknown"@,
    }
}

pub fn battery_limit_percent(limit: BatteryLimit) -> (percent: Option<u8>)
    ensures
        percent == spec_battery_limit_percent(limit),
{
    match limit {
        BatteryLimit::Off | BatteryLimit::Unknown => None,
        BatteryLimit::Limit50 => Some(50),
        BatteryLimit::Limit55 => Some(55),
        BatteryLimit::Limit60 => Some(60),
        BatteryLimit::Limit65 => Some(65),
        BatteryLimit::Limit70 => Some(70),
        BatteryLimit::Limit75 => Some(75),
        BatteryLimit::Limit80 => Some(80),
    }
}

pub fn battery_limit_label(limit: BatteryLimit) -> (label: String)
    ensures
        label@ == spec_battery_limit_label(limit),
{
    let text: &'static str = match limit {
        BatteryLimit::Off => "Off",
        BatteryLimit::Limit50 => "50%",
        BatteryLimit::Limit55 => "55%",
        BatteryLimit::Limit60 => "60%",
        BatteryLimit::Limit65 => "65%",
        BatteryLimit::Limit70 => "70%",
        BatteryLimit::Limit75 => "75%",
        BatteryLimit::Limit80 => "80%",
        BatteryLimit::Unknown => "Unknown",
    };
    text.to_owned()
}

/// Static per-device presentation data, sent with every snapshot.
pub struct UiMeta {
    /// Each selectable limit with its label, in list order.
    pub battery_limit_labels: Vec<(BatteryLimit, String)>,
    /// Each selectable limit with the level it stops at.
    pub battery_limit_percents: Vec<(BatteryLimit, Option<u8>)>,
    /// The levels a custom performance mode offers.
    pub custom_mode_levels: Vec<String>,
    pub keyboard_brightness_step: u8,
    /// Whether this model has the illuminated vent under the chassis.
    pub vapour_chamber: bool,
    /// The device actions a key can be bound to on this model, with labels.
    pub device_action_labels: Vec<(DeviceAction, String)>,
    /// What each Fn-layer key does before it is rebound.
    pub built_in_hypershift: BTreeMap<u16, String>,
}

pub open spec fn spec_custom_mode_levels() -> Seq<Seq<char>> {
    seq!["Low"@, "Medium"@, "High"@, "Max"@]
}

impl UiMeta {
    /// The presentation data for a model with or without the vapour chamber.
    pub fn current(vapour_chamber: bool) -> (meta: Self)
        ensures
            meta.battery_limit_labels@.len() == spec_battery_limits().len(),
            forall|i: int| 0 <= i < spec_battery_limits().len() ==> {
                &&& (#[trigger] meta.battery_limit_labels@[i]).0 == spec_battery_limits()[i]
                &&& meta.battery_limit_labels@[i].1@ == spec_battery_limit_label(spec_battery_limits()[i])
            },
            meta.battery_limit_percents@.len() == spec_battery_limits().len(),
            forall|i: int| 0 <= i < spec_battery_limits().len() ==> {
                &&& (#[trigger] meta.battery_limit_percents@[i]).0 == spec_battery_limits()[i]
                &&& meta.battery_limit_percents@[i].1 == spec_battery_limit_percent(spec_battery_limits()[i])
            },
            meta.custom_mode_levels@.len() == 4,
            forall|i: int| 0 <= i < 4 ==> #[trigger] meta.custom_mode_levels@[i]@
                == spec_custom_mode_levels()[i],
            meta.keyboard_brightness_step == KEYBOARD_BRIGHTNESS_STEP,
            meta.vapour_chamber == vapour_chamber,
            meta.device_action_labels@.len() == offered_device_actions(vapour_chamber).len(),
            forall|i: int| 0 <= i < offered_device_actions(vapour_chamber).len() ==> {
                &&& (#[trigger] meta.device_action_labels@[i]).0 == offered_device_actions(vapour_chamber)[i]
                &&& meta.device_action_labels@[i].1@ == spec_label(offered_device_actions(vapour_chamber)[i])
            },
            has_labels_of(
                meta.built_in_hypershift@,
                hypershift_table(),
                |code: u16| hypershift_row_applies(code, vapour_chamber),
            ),
    {
        let mut battery_limit_labels: Vec<(BatteryLimit, String)> = Vec::new();
        let mut battery_limit_percents: Vec<(BatteryLimit, Option<u8>)> = Vec::new();
        let limits = BATTERY_LIMITS;
        assert(limits@ =~= spec_battery_limits());
        let mut i: usize = 0;
        while i < 8
            invariant
                i <= 8,
                limits@ == spec_battery_limits(),
                battery_limit_labels@.len() == i,
                battery_limit_percents@.len() == i,
                forall|j: int| 0 <= j < i ==> {
                    &&& (#[trigger] battery_limit_labels@[j]).0 == spec_battery_limits()[j]
                    &&& battery_limit_labels@[j].1@ == spec_battery_limit_label(spec_battery_limits()[j])
                },
                forall|j: int| 0 <= j < i ==> {
                    &&& (#[trigger] battery_limit_percents@[j]).0 == spec_battery_limits()[j]
                    &&& battery_limit_percents@[j].1 == spec_battery_limit_percent(spec_battery_limits()[j])
                },
            decreases 8 - i,
        {
            let limit = limits[i];
            battery_limit_labels.push((limit, battery_limit_label(limit)));
            battery_limit_percents.push((limit, battery_limit_percent(limit)));
            i += 1;
        }

        let mut custom_mode_levels: Vec<String> = Vec::new();
        custom_mode_levels.push("Low".to_owned());
        custom_mode_levels.push("Medium".to_owned());
        custom_mode_levels.push("High".to_owned());
        custom_mode_levels.push("Max".to_owned());

        let actions = available_device_actions(vapour_chamber);
        let mut device_action_labels: Vec<(DeviceAction, String)> = Vec::new();
        let mut k: usize = 0;
        while k < actions.len()
            invariant
                k <= actions@.len(),
                actions@ == offered_device_actions(vapour_chamber),
                device_action_labels@.len() == k,
                forall|j: int| 0 <= j < k ==> {
                    &&& (#[trigger] device_action_labels@[j]).0 == actions@[j]
                    &&& device_action_labels@[j].1@ == spec_label(actions@[j])
                },
            decreases actions.len() - k,
        {
            let action = actions[k];
            device_action_labels.push((action, action.label().to_owned()));
            k += 1;
        }

        UiMeta {
            battery_limit_labels,
            battery_limit_percents,
            custom_mode_levels,
            keyboard_brightness_step: KEYBOARD_BRIGHTNESS_STEP,
            vapour_chamber,
            device_action_labels,
            built_in_hypershift: hypershift_labels(vapour_chamber),
        }
    }

    /// The label shown for a limit, if the window lists it.
    pub fn battery_limit_label_of(&self, limit: BatteryLimit) -> (label: Option<String>)
        ensures
            label is Some <==> exists|i: int| 0 <= i < self.battery_limit_labels@.len()
                && (#[trigger] self.battery_limit_labels@[i]).0 == limit,
            label matches Some(text) ==> exists|i: int| 0 <= i < self.battery_limit_labels@.len()
                && (#[trigger] self.battery_limit_labels@[i]).0 == limit
                && self.battery_limit_labels@[i].1@ == text@,
    {
        let mut i: usize = 0;
        while i < self.battery_limit_labels.len()
            invariant
                i <= self.battery_limit_labels@.len(),
                forall|j: int| 0 <= j < i ==> (#[trigger] self.battery_limit_labels@[j]).0 != limit,
            decreases self.battery_limit_labels.len() - i,
        {
            if self.battery_limit_labels[i].0 == limit {
                return Some(self.battery_limit_labels[i].1.clone());
            }
            i += 1;
        }
        None
    }

    /// The level a limit stops at, if the window lists it (`Some(None)` for
    /// a listed limit that sets no level).
    pub fn battery_limit_percent_of(&self, limit: BatteryLimit) -> (percent: Option<Option<u8>>)
        ensures
            percent is Some <==> exists|i: int| 0 <= i < self.battery_limit_percents@.len()
                && (#[trigger] self.battery_limit_percents@[i]).0 == limit,
            percent matches Some(level) ==> exists|i: int| 0 <= i < self.battery_limit_percents@.len()
                && (#[trigger] self.battery_limit_percents@[i]).0 == limit
                && self.battery_limit_percents@[i].1 == level,
    {
        let mut i: usize = 0;
        while i < self.battery_limit_percents.len()
            invariant
                i <= self.battery_limit_percents@.len(),
                forall|j: int| 0 <= j < i ==> (#[trigger] self.battery_limit_percents@[j]).0 != limit,
            decreases self.battery_limit_percents.len() - i,
        {
            if self.battery_limit_percents[i].0 == limit {
                return Some(self.battery_limit_percents[i].1);
            }
            i += 1;
        }
        None
    }

    /// Whether a key can be bound to `action` on this model.
    pub fn offers_action(&self, action: DeviceAction) -> (offered: bool)
        ensures
            offered == exists|i: int| 0 <= i < self.device_action_labels@.len()
                && (#[trigger] self.device_action_labels@[i]).0 == action,
    {
        let mut i: usize = 0;
        while i < self.device_action_labels.len()
            invariant
                i <= self.device_action_labels@.len(),
                forall|j: int| 0 <= j < i ==> (#[trigger] self.device_action_labels@[j]).0 != action,
            decreases self.device_action_labels.len() - i,
        {
            if self.device_action_labels[i].0 == action {
                return true;
            }
            i += 1;
        }
        false
    }
}

} // verus!
