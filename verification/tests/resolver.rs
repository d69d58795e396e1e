use slimevr_lib::resolver::{get_launch_path, DirectoryProbe};

fn probe(path: &str, is_directory: bool) -> Option<DirectoryProbe> {
    Some(DirectoryProbe { path: path.to_string(), is_directory })
}

#[test]
fn existing_override_is_returned_unchanged() {
    assert_eq!(
        get_launch_path(probe("/home/me/My Server/", true), probe("/opt/slimevr", true)),
        Some("/home/me/My Server/".to_string())
    );
    assert_eq!(get_launch_path(probe("C:\\SlimeVR", true), None), Some("C:\\SlimeVR".to_string()));
}

#[test]
fn missing_override_falls_back_to_default() {
    assert_eq!(
        get_launch_path(probe("/nowhere", false), probe("/opt/slimevr", true)),
        Some("/opt/slimevr".to_string())
    );
}

#[test]
fn no_override_uses_default() {
    assert_eq!(get_launch_path(None, probe("/opt/slimevr", true)), Some("/opt/slimevr".to_string()));
}

#[test]
fn nothing_found_is_no_server() {
    assert_eq!(get_launch_path(None, None), None);
    assert_eq!(get_launch_path(None, probe("/opt/slimevr", false)), None);
    assert_eq!(get_launch_path(probe("/nowhere", false), None), None);
    assert_eq!(get_launch_path(probe("/nowhere", false), probe("/opt/slimevr", false)), None);
}
