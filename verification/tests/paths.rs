use clientele::paths;

#[test]
fn explicit_xdg_values_win() {
    assert_eq!(
        paths::xdg_data_home(Some("/data".to_string()), Some("/home/alex".to_string())),
        Some("/data".to_string())
    );
    assert_eq!(
        paths::xdg_config_home(Some("/conf".to_string()), None),
        Some("/conf".to_string())
    );
}

#[test]
fn data_home_falls_back_under_home() {
    assert_eq!(
        paths::xdg_data_home(None, Some("/home/alex".to_string())),
        Some("/home/alex/.local/share".to_string())
    );
}

#[test]
fn config_home_falls_back_under_home() {
    assert_eq!(
        paths::xdg_config_home(None, Some("/home/alex".to_string())),
        Some("/home/alex/.config".to_string())
    );
}

#[test]
fn state_home_falls_back_under_home() {
    assert_eq!(
        paths::xdg_state_home(None, Some("/home/alex".to_string())),
        Some("/home/alex/.local/state".to_string())
    );
}

#[test]
fn cache_home_falls_back_under_home() {
    assert_eq!(
        paths::xdg_cache_home(None, Some("/home/alex".to_string())),
        Some("/home/alex/.cache".to_string())
    );
}

#[test]
fn blank_xdg_value_counts_as_unset() {
    assert_eq!(
        paths::xdg_cache_home(Some("  ".to_string()), Some("/home/alex".to_string())),
        Some("/home/alex/.cache".to_string())
    );
}

#[test]
fn trailing_separator_is_not_doubled() {
    assert_eq!(
        paths::xdg_data_home(None, Some("/home/alex/".to_string())),
        Some("/home/alex/.local/share".to_string())
    );
}

#[test]
fn home_value_is_trimmed_before_joining() {
    assert_eq!(
        paths::xdg_state_home(None, Some(" /home/alex ".to_string())),
        Some("/home/alex/.local/state".to_string())
    );
}

#[test]
fn absent_everything_yields_no_directory() {
    assert_eq!(paths::xdg_data_home(None, None), None);
    assert_eq!(paths::xdg_config_home(None, None), None);
    assert_eq!(paths::xdg_state_home(None, None), None);
    assert_eq!(paths::xdg_cache_home(None, None), None);
}
