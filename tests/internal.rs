use chunks::Internal;

#[test]
fn markup_detection() {
    assert!(Internal::uses_markup("<b>bold</b>"));
    assert!(!Internal::uses_markup("plain text"));
    assert!(!Internal::uses_markup("a > b"));
    assert!(!Internal::uses_markup("</"));
}

#[test]
fn strongest_signal_of_access_points() {
    assert_eq!(Internal::strongest_signal(&vec![]), 0);
    assert_eq!(Internal::strongest_signal(&vec![30, 75, 12]), 75);
    assert_eq!(Internal::strongest_signal(&vec![255, 3]), 255);
}

#[test]
fn wifi_bars_by_range() {
    assert_eq!(Internal::wifi_bars(0), "\u{2591}\u{2591}\u{2591}\u{2591}\u{2591}");
    assert_eq!(Internal::wifi_bars(1), "\u{2582}\u{fe0e}\u{2591}\u{2591}\u{2591}\u{2591}");
    assert_eq!(Internal::wifi_bars(20), "\u{2582}\u{fe0e}\u{2591}\u{2591}\u{2591}\u{2591}");
    assert_eq!(Internal::wifi_bars(21), "\u{2582}\u{2583}\u{fe0e}\u{2591}\u{2591}\u{2591}");
    assert_eq!(Internal::wifi_bars(60), "\u{2582}\u{2583}\u{2584}\u{fe0e}\u{2591}\u{2591}");
    assert_eq!(Internal::wifi_bars(80), "\u{2582}\u{2583}\u{2584}\u{2585}\u{fe0e}\u{2591}");
    assert_eq!(Internal::wifi_bars(100), "\u{2582}\u{2583}\u{2584}\u{2585}\u{2586}");
    assert_eq!(Internal::wifi_bars(101), "X");
}

#[test]
fn wifi_status_of_device() {
    assert_eq!(Internal::wifi_status(&vec![]), "\u{2591}\u{2591}\u{2591}\u{2591}\u{2591}");
    assert_eq!(Internal::wifi_status(&vec![10, 45]), "\u{2582}\u{2583}\u{2584}\u{fe0e}\u{2591}\u{2591}");
}

#[test]
fn volume_level_picks_first_percent_word() {
    assert_eq!(Internal::volume_level("0: 45% 1: 45%"), "45%");
    assert_eq!(Internal::volume_level("front-left: 65536 / 100% / 0.00 dB"), "100%");
    assert_eq!(Internal::volume_level("mono:\t7%\n"), "7%");
    assert_eq!(Internal::volume_level("muted"), "0%");
    assert_eq!(Internal::volume_level(""), "0%");
    assert_eq!(Internal::volume_level("%x 12%"), "12%");
    assert_eq!(Internal::volume_level("\u{3000}33%"), "33%");
}

#[test]
fn weather_line_from_report() {
    assert_eq!(Internal::weather_summary("Paris: \u{26c5} +59\u{b0}F\n").unwrap(), "59\u{b0}F");
    assert_eq!(Internal::weather_summary("Unknown location").unwrap(), "Weather data not available");
}

#[test]
fn weather_line_from_groups() {
    let g = Some(vec![Some(" 12\u{b0}F".to_string()), Some("12\u{b0}F".to_string())]);
    assert_eq!(Internal::weather_from_captures(&g), "12\u{b0}F");
    let g = Some(vec![Some("x".to_string()), None, Some(" b ".to_string())]);
    assert_eq!(Internal::weather_from_captures(&g), "b");
    let g = Some(vec![Some("a".to_string()), Some("a".to_string()), Some("b".to_string())]);
    assert_eq!(Internal::weather_from_captures(&g), "a b");
    assert_eq!(Internal::weather_from_captures(&None), "Weather data not available");
}
