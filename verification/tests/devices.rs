use razer_telemetry::devices::file_names;

#[test]
fn selects_prefixed_entries_in_order() {
    let names = vec![
        "razer0".to_string(),
        "razerX".to_string(),
        "mouse0".to_string(),
        "razer".to_string(),
    ];
    let paths = file_names(&names);
    assert_eq!(
        paths,
        vec![
            "/dev/razer0".to_string(),
            "/dev/razerX".to_string(),
            "/dev/razer".to_string(),
        ]
    );
}

#[test]
fn short_and_unrelated_names_are_excluded() {
    let names = vec![
        "raze".to_string(),
        "".to_string(),
        "Razer0".to_string(),
        "arazer".to_string(),
        "razerrazer".to_string(),
    ];
    let paths = file_names(&names);
    assert_eq!(paths, vec!["/dev/razerrazer".to_string()]);
}

#[test]
fn empty_directory_yields_no_paths() {
    let names: Vec<String> = Vec::new();
    assert!(file_names(&names).is_empty());
}
