use bevy_fmod::bank_paths::{resolve_bank_path, resolve_bank_paths};

#[test]
fn absolute_bank_path_is_kept() {
    let r = resolve_bank_path("/games/demo/Build/Desktop/Master.bank", "/home/dev/project");
    assert_eq!(r, "/games/demo/Build/Desktop/Master.bank");
}

#[test]
fn relative_bank_path_is_taken_from_project_root() {
    let r = resolve_bank_path("assets/audio/Music.bank", "/home/dev/project");
    assert_eq!(r, "/home/dev/project/assets/audio/Music.bank");
}

#[test]
fn relative_bank_path_under_root_with_trailing_separator() {
    let r = resolve_bank_path("Master.bank", "/home/dev/project/");
    assert_eq!(r, "/home/dev/project/Master.bank");
}

#[test]
fn bank_paths_keep_their_order() {
    let paths = vec![
        "/abs/Master.bank".to_string(),
        "rel/Master.strings.bank".to_string(),
        "Music.bank".to_string(),
    ];
    let r = resolve_bank_paths(&paths, "/root_dir");
    assert_eq!(
        r,
        vec![
            "/abs/Master.bank".to_string(),
            "/root_dir/rel/Master.strings.bank".to_string(),
            "/root_dir/Music.bank".to_string(),
        ]
    );
}

#[test]
fn no_bank_paths_resolve_to_none() {
    let r = resolve_bank_paths(&Vec::new(), "/root_dir");
    assert!(r.is_empty());
}
