use thingblock_link::daemon::{bundled_cli_path, daemon_args, daemon_endpoint, resolve_cli_path, Platform};

#[test]
fn override_path_is_used_verbatim() {
    let path = String::from("/opt/thingblock/arduino-cli");
    assert_eq!(resolve_cli_path(Some(path.clone()), Platform::Linux, "/src/thingblock-link"), path);
}

#[test]
fn no_override_falls_back_to_bundled() {
    assert_eq!(
        resolve_cli_path(None, Platform::Linux, "/src/thingblock-link"),
        bundled_cli_path(Platform::Linux, "/src/thingblock-link")
    );
}

#[test]
fn bundled_path_per_platform() {
    assert_eq!(
        bundled_cli_path(Platform::Linux, "/src/tb"),
        "/src/tb/arduino-cli-binaries/arduino-cli_linux_64bit/arduino-cli"
    );
    assert_eq!(
        bundled_cli_path(Platform::MacOs, "/src/tb/"),
        "/src/tb/arduino-cli-binaries/arduino-cli_mac_arm64/arduino-cli"
    );
    assert_eq!(
        bundled_cli_path(Platform::Windows, "/src/tb"),
        "/src/tb/arduino-cli-binaries/arduino-cli_win_64bit/arduino-cli.exe"
    );
}

#[test]
fn daemon_is_started_on_the_chosen_port() {
    assert_eq!(daemon_args(50051), ["daemon", "--port", "50051", "--daemonize"]);
    assert_eq!(daemon_endpoint(8), "http://127.0.0.1:8");
}
