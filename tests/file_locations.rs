use fend_core::file_paths::{
    config_file_location_from, get_config_file_location, get_history_dir, history_dir_from,
    history_file_location_from,
};

fn parts(v: &[&str]) -> Option<Vec<String>> {
    Some(v.iter().map(|s| s.to_string()).collect())
}

#[test]
fn config_dir_variable_wins() {
    let r = config_file_location_from(
        Some("/etc/fend".to_string()),
        Some("/xdg".to_string()),
        Some("/home/u".to_string()),
    );
    assert_eq!(r, parts(&["/etc/fend", "config.toml"]));
}

#[test]
fn xdg_config_home_is_next() {
    let r = config_file_location_from(None, Some("/xdg".to_string()), Some("/home/u".to_string()));
    assert_eq!(r, parts(&["/xdg", "fend", "config.toml"]));
}

#[test]
fn home_config_is_last() {
    let r = config_file_location_from(None, None, Some("/home/u".to_string()));
    assert_eq!(r, parts(&["/home/u", ".config", "fend", "config.toml"]));
    assert_eq!(config_file_location_from(None, None, None), None);
}

#[test]
fn config_location_from_environment_values() {
    let r = get_config_file_location(Some("/c".to_string()), None);
    assert_eq!(r, parts(&["/c", "config.toml"]));
    let r = get_config_file_location(None, Some("/x".to_string()));
    assert_eq!(r, parts(&["/x", "fend", "config.toml"]));
}

#[test]
fn history_dir_order() {
    let home = || Some("/home/u".to_string());
    assert_eq!(history_dir_from(Some("/s".to_string()), None, home()), parts(&["/s"]));
    assert_eq!(history_dir_from(None, Some("/x".to_string()), home()), parts(&["/x", "fend"]));
    assert_eq!(history_dir_from(None, None, home()), parts(&["/home/u", ".local", "state", "fend"]));
    assert_eq!(history_dir_from(None, None, None), None);
    assert_eq!(get_history_dir(None, Some("/x".to_string())), parts(&["/x", "fend"]));
}

#[test]
fn history_file_is_inside_the_directory() {
    let dir = parts(&["/x", "fend"]).unwrap();
    assert_eq!(history_file_location_from(dir), parts(&["/x", "fend", "history"]).unwrap());
}
