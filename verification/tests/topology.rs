use blade_controlhub::topology::{
    current_display_layout, display_layout_changed, primary_display_device_name_wide, wide_string_until_nul,
    DisplayDeviceInfo, DisplayIdentity, DisplayLayout, DISPLAY_DEVICE_ATTACHED_TO_DESKTOP,
    DISPLAY_DEVICE_PRIMARY_DEVICE,
};

fn display(device_name: &str, primary: bool) -> DisplayIdentity {
    DisplayIdentity {
        device_name: device_name.to_string(),
        description: "Generic PnP Monitor".to_string(),
        primary,
    }
}

fn wide(text: &str) -> Vec<u16> {
    let mut units: Vec<u16> = text.encode_utf16().collect();
    units.push(0);
    units
}

#[test]
fn display_layout_change_is_ignored_without_baseline() {
    let current = DisplayLayout::default();

    assert!(!display_layout_changed(None, &current));
}

#[test]
fn display_layout_change_detects_added_display() {
    let previous = DisplayLayout { displays: vec![display("\\\\.\\DISPLAY1", true)] };
    let current = DisplayLayout {
        displays: vec![display("\\\\.\\DISPLAY1", true), display("\\\\.\\DISPLAY2", false)],
    };

    assert!(display_layout_changed(Some(&previous), &current));
}

#[test]
fn display_layout_change_detects_primary_switch() {
    let previous = DisplayLayout {
        displays: vec![display("\\\\.\\DISPLAY1", true), display("\\\\.\\DISPLAY2", false)],
    };
    let current = DisplayLayout {
        displays: vec![display("\\\\.\\DISPLAY1", false), display("\\\\.\\DISPLAY2", true)],
    };

    assert!(display_layout_changed(Some(&previous), &current));
}

#[test]
fn topology_wide_string_parser_stops_at_nul() {
    let value = ['R' as u16, 'a' as u16, 'z' as u16, 'e' as u16, 'r' as u16, 0, 'X' as u16];

    assert_eq!(wide_string_until_nul(&value), "Razer");
}

#[test]
fn an_unchanged_layout_is_no_change() {
    let layout = DisplayLayout { displays: vec![display("\\\\.\\DISPLAY1", true)] };

    assert!(!display_layout_changed(Some(&layout.clone()), &layout));
}

#[test]
fn the_layout_lists_attached_displays_by_name() {
    let devices = vec![
        DisplayDeviceInfo {
            device_name: wide("\\\\.\\DISPLAY2"),
            device_string: wide("Second"),
            state_flags: DISPLAY_DEVICE_ATTACHED_TO_DESKTOP,
        },
        DisplayDeviceInfo {
            device_name: wide("\\\\.\\DISPLAY3"),
            device_string: wide("Detached"),
            state_flags: 0,
        },
        DisplayDeviceInfo {
            device_name: wide("\\\\.\\DISPLAY1"),
            device_string: wide("First"),
            state_flags: DISPLAY_DEVICE_ATTACHED_TO_DESKTOP | DISPLAY_DEVICE_PRIMARY_DEVICE,
        },
    ];

    let layout = current_display_layout(&devices);
    assert_eq!(
        layout.displays,
        vec![
            DisplayIdentity { device_name: "\\\\.\\DISPLAY1".to_string(), description: "First".to_string(), primary: true },
            DisplayIdentity { device_name: "\\\\.\\DISPLAY2".to_string(), description: "Second".to_string(), primary: false },
        ]
    );

    assert_eq!(primary_display_device_name_wide(&devices, None), Some(wide("\\\\.\\DISPLAY1")));

    let mut without_primary = devices;
    without_primary.pop();
    assert_eq!(primary_display_device_name_wide(&without_primary, Some(vec![7, 0])), Some(vec![7, 0]));
}

#[test]
fn a_wide_string_without_nul_is_read_whole() {
    assert_eq!(wide_string_until_nul(&['a' as u16, 'b' as u16]), "ab");
    assert_eq!(wide_string_until_nul(&[]), "");
}

#[test]
fn surrogate_pairs_are_joined_and_strays_replaced() {
    let value = [0x44, 0xD83D, 0xDE00, 0xD800, 0x41, 0xDC00, 0, 0x42];
    assert_eq!(wide_string_until_nul(&value), "D\u{1F600}\u{FFFD}A\u{FFFD}");
}
