use sandbox_backend::sandbox::{join_path, owner_storage_dir};
use sandbox_backend::sandbox::{
    cgroup_path, cgroup_settings, display_name, display_number, ffmpeg_args, frame_interval_ms, framebuffer_size, wasm_frame_interval_ms,
    ipc_socket_path, native_app_env, native_binary_path, replace_dashes, wasm_module_path, x11_app_env, xdotool_button_args,
    xdotool_key_args, xdotool_mousemove_args, xvfb_args, FIRST_DISPLAY,
};

fn pairs_cgroup(v: Vec<sandbox_backend::sandbox::CgroupSetting>) -> Vec<(String, String)> {
    v.into_iter().map(|s| (s.file, s.value)).collect()
}

fn pairs_env(v: Vec<sandbox_backend::sandbox::EnvVar>) -> Vec<(String, String)> {
    v.into_iter().map(|e| (e.name, e.value)).collect()
}

fn owned(v: &[&str]) -> Vec<String> {
    v.iter().map(|s| s.to_string()).collect()
}

#[test]
fn dashes_become_underscores() {
    assert_eq!(replace_dashes("file-explorer-2"), "file_explorer_2");
    assert_eq!(replace_dashes("plain"), "plain");
    assert_eq!(replace_dashes("-é-"), "_é_");
}

#[test]
fn cgroup_directory() {
    assert_eq!(cgroup_path("abc-123"), "/sys/fs/cgroup/sandbox/abc-123");
    assert_eq!(cgroup_path("/elsewhere"), "/elsewhere");
    assert_eq!(cgroup_path(""), "/sys/fs/cgroup/sandbox/");
}

#[test]
fn cgroup_limits() {
    assert_eq!(
        pairs_cgroup(cgroup_settings(4242)),
        vec![
            ("cgroup.procs".to_string(), "4242".to_string()),
            ("cpu.max".to_string(), "500000 1000000".to_string()),
            ("memory.max".to_string(), "536870912".to_string()),
            ("pids.max".to_string(), "100".to_string()),
        ]
    );
}

#[test]
fn application_locations() {
    assert_eq!(native_binary_path("/app/.app", "file-explorer"), "/app/.app/file_explorer/file_explorer");
    assert_eq!(wasm_module_path("/wasm", "file-explorer"), "/wasm/file_explorer.wasm");
}

#[test]
fn displays() {
    assert_eq!(FIRST_DISPLAY, 100);
    assert_eq!(display_number(0), 100);
    assert_eq!(display_number(7), 107);
    assert_eq!(display_name(100), ":100");
}

#[test]
fn xvfb_command_line() {
    assert_eq!(
        xvfb_args(":101", 1280, 720),
        owned(&[":101", "-screen", "0", "1280x720x24", "-ac", "+extension", "GLX", "+extension", "XTEST", "+render", "-noreset"])
    );
}

#[test]
fn ffmpeg_command_line() {
    assert_eq!(
        ffmpeg_args(":100", 800, 600, 30),
        owned(&[
            "-f", "x11grab", "-video_size", "800x600", "-framerate", "30", "-i", ":100", "-c:v", "libx264", "-b:v", "1M",
            "-preset", "ultrafast", "-tune", "zerolatency", "-pix_fmt", "yuv420p", "-g", "60", "-f", "h264", "pipe:1",
        ])
    );
}

#[test]
fn xdotool_command_lines() {
    assert_eq!(xdotool_mousemove_args(-5, 300), owned(&["mousemove", "--sync", "-5", "300"]));
    assert_eq!(xdotool_button_args(3, true), owned(&["mousedown", "3"]));
    assert_eq!(xdotool_button_args(1, false), owned(&["mouseup", "1"]));
    assert_eq!(xdotool_key_args("Enter", true), owned(&["keydown", "Return"]));
    assert_eq!(xdotool_key_args("Q", false), owned(&["keyup", "q"]));
}

#[test]
fn native_environment() {
    assert_eq!(
        pairs_env(native_app_env(7, -1, 1280, 720, 30)),
        vec![
            ("SANDBOX_FB_FD".to_string(), "7".to_string()),
            ("SANDBOX_CTRL_FD".to_string(), "-1".to_string()),
            ("SANDBOX_WIDTH".to_string(), "1280".to_string()),
            ("SANDBOX_HEIGHT".to_string(), "720".to_string()),
            ("SANDBOX_FRAMERATE".to_string(), "30".to_string()),
        ]
    );
}

#[test]
fn x11_environment() {
    assert_eq!(ipc_socket_path(None), "/tmp/sandbox-ipc.sock");
    assert_eq!(ipc_socket_path(Some("/run/ipc.sock")), "/run/ipc.sock");
    assert_eq!(
        pairs_env(x11_app_env(":100", "/tmp/sandbox-ipc.sock", 1024, 768)),
        vec![
            ("DISPLAY".to_string(), ":100".to_string()),
            ("IPC_SOCKET_PATH".to_string(), "/tmp/sandbox-ipc.sock".to_string()),
            ("SANDBOX_WIDTH".to_string(), "1024".to_string()),
            ("SANDBOX_HEIGHT".to_string(), "768".to_string()),
        ]
    );
}

#[test]
fn framebuffer_bytes() {
    assert_eq!(framebuffer_size(800, 600), 1_920_000);
    assert_eq!(framebuffer_size(0, 600), 0);
}

#[test]
fn frame_interval() {
    assert_eq!(frame_interval_ms(30), 33);
    assert_eq!(frame_interval_ms(0), 1000);
    assert_eq!(frame_interval_ms(1), 1000);
    assert_eq!(frame_interval_ms(60), 16);
    assert_eq!(frame_interval_ms(100), 10);
    assert_eq!(frame_interval_ms(250), 4);
    assert_eq!(frame_interval_ms(50), 20);
}

#[test]
fn paths_joined_like_pathbuf() {
    for (base, part) in [("/data", "u1"), ("/data/", "u1"), ("", "u1"), ("/data", "/abs"), ("/data", ""), ("rel", "x/y")] {
        let expected = std::path::Path::new(base).join(part).to_str().unwrap().to_string();
        assert_eq!(join_path(base, part), expected, "{base:?} {part:?}");
    }
    assert_eq!(owner_storage_dir("/storage", "67e55044"), "/storage/67e55044");
}

#[test]
fn wasm_frame_interval_has_a_floor() {
    assert_eq!(wasm_frame_interval_ms(30), 33);
    assert_eq!(wasm_frame_interval_ms(0), 1000);
    assert_eq!(wasm_frame_interval_ms(60), 16);
    assert_eq!(wasm_frame_interval_ms(100), 16);
    assert_eq!(wasm_frame_interval_ms(250), 16);
}
