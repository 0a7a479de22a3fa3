use blade_controlhub::error::AppError;
use blade_controlhub::refresh_rate::{choose_next_rate, supported_rates, DisplayManager};
use blade_controlhub::topology::wide_string_until_nul;

#[test]
fn choose_next_rate_advances_to_higher_rate() {
    assert_eq!(choose_next_rate(&[60, 120, 144], 60, false), Some(120));
}

#[test]
fn choose_next_rate_wraps_forward_to_first_rate() {
    assert_eq!(choose_next_rate(&[60, 120, 144], 144, false), Some(60));
}

#[test]
fn choose_next_rate_reverses_to_lower_rate() {
    assert_eq!(choose_next_rate(&[60, 120, 144], 144, true), Some(120));
}

#[test]
fn choose_next_rate_wraps_reverse_to_last_rate() {
    assert_eq!(choose_next_rate(&[60, 120, 144], 60, true), Some(144));
}

#[test]
fn choose_next_rate_returns_none_for_empty_rates() {
    assert_eq!(choose_next_rate(&[], 60, false), None);
}

#[test]
fn refresh_rate_wide_string_parser_stops_at_nul() {
    let value = ['R' as u16, 'a' as u16, 'z' as u16, 'e' as u16, 'r' as u16, 0, 'X' as u16];

    assert_eq!(wide_string_until_nul(&value), "Razer");
}

#[test]
fn an_unsupported_current_rate_moves_to_its_neighbour() {
    assert_eq!(choose_next_rate(&[60, 120, 144], 100, false), Some(120));
    assert_eq!(choose_next_rate(&[60, 120, 144], 100, true), Some(60));
    assert_eq!(choose_next_rate(&[60], 60, false), Some(60));
}

#[test]
fn supported_rates_are_sorted_without_duplicates() {
    assert_eq!(supported_rates(&[144, 60, 120, 60, 144]), vec![60, 120, 144]);
    assert!(supported_rates(&[]).is_empty());
}

#[test]
fn cycling_needs_a_display_with_rates() {
    let manager = DisplayManager::new(Some(vec![0x5c, 0])).expect("a primary display was named");
    assert_eq!(manager.cycle_refresh_rate(&[60, 165], 60, false), Ok(165));
    assert_eq!(manager.cycle_refresh_rate(&[], 60, false), Err(AppError::DisplayNotFound));
    assert!(DisplayManager::new(None).is_none());
}
