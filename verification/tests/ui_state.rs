use blade_controlhub::binding::DeviceAction;
use blade_controlhub::ui_state::{battery_limit_label, battery_limit_percent, BatteryLimit, UiMeta, KEYBOARD_BRIGHTNESS_STEP};

#[test]
fn battery_limit_labels_drop_the_osd_prefix() {
    let meta = UiMeta::current(false);
    assert_eq!(meta.battery_limit_label_of(BatteryLimit::Limit65).as_deref(), Some("65%"));
    assert_eq!(meta.battery_limit_label_of(BatteryLimit::Off).as_deref(), Some("Off"));
    assert_eq!(meta.battery_limit_percent_of(BatteryLimit::Limit65), Some(Some(65)));
    assert_eq!(meta.battery_limit_percent_of(BatteryLimit::Off), Some(None));
}

#[test]
fn the_snapshot_hides_every_vapour_chamber_control_without_the_hardware() {
    let present = UiMeta::current(true);
    assert!(present.vapour_chamber);
    assert!(present.offers_action(DeviceAction::ToggleUnderglow));
    assert!(present.built_in_hypershift.contains_key(&0x56));

    let absent = UiMeta::current(false);
    assert!(!absent.vapour_chamber);
    assert!(
        !absent.offers_action(DeviceAction::ToggleUnderglow),
        "a key must not be bindable to a light this model has not got"
    );
    assert!(!absent.built_in_hypershift.contains_key(&0x56), "Fn+V overrides nothing where it does nothing");
    assert!(absent.offers_action(DeviceAction::CyclePerfMode), "the rest of the vocabulary is unaffected");
    assert!(absent.built_in_hypershift.contains_key(&0x54), "the rest of the Fn layer is unaffected");
}

#[test]
fn every_charge_limit_has_its_label_and_level() {
    assert_eq!(battery_limit_label(BatteryLimit::Limit50), "50%");
    assert_eq!(battery_limit_label(BatteryLimit::Limit80), "80%");
    assert_eq!(battery_limit_percent(BatteryLimit::Limit55), Some(55));
    assert_eq!(battery_limit_percent(BatteryLimit::Unknown), None);
    let meta = UiMeta::current(true);
    assert_eq!(meta.battery_limit_labels.len(), 8);
    assert_eq!(meta.battery_limit_label_of(BatteryLimit::Unknown), None);
    assert_eq!(meta.keyboard_brightness_step, KEYBOARD_BRIGHTNESS_STEP);
    assert_eq!(meta.custom_mode_levels, vec!["Low", "Medium", "High", "Max"]);
    assert_eq!(meta.device_action_labels[0], (DeviceAction::CyclePerfMode, "Cycle performance mode".to_string()));
}

/// The window reads the Fn layer's stock actions from the snapshot; Razer
/// special keys have no built-in action to override, so `UiMeta` carries no
/// table for them at all.
#[test]
fn the_snapshot_describes_the_fn_layer_and_nothing_else() {
    let meta = UiMeta::current(true);

    assert!(!meta.built_in_hypershift.is_empty(), "the Fn layer still has stock actions to describe");
    assert!(meta.built_in_hypershift.contains_key(&0x54));
    assert!(meta.vapour_chamber);
}
