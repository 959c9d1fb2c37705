use sandbox_backend::apps::{
    default_height, default_width, list_applications, FfmpegManager, IpcSocketServer, MockApplicationLauncher,
    MockSandboxIsolation,
};

#[test]
fn catalogue() {
    let apps = list_applications();
    assert_eq!(apps.len(), 1);
    assert_eq!(apps[0].app_id, "file_explorer");
    assert_eq!(apps[0].name, "File Explorer");
    assert_eq!(apps[0].description, "Browse and manage files in your sandboxed environment.");
}

#[test]
fn launch_defaults() {
    assert_eq!(default_width(), 1280);
    assert_eq!(default_height(), 720);
}

#[test]
fn mock_launcher() {
    let l = MockApplicationLauncher;
    assert_eq!(l.launch_sandboxed("s1"), Ok("sandbox-s1".to_string()));
    let info = l.prepare_browser("s1", "file_explorer").unwrap();
    assert_eq!(info.bundle_url, "/apps/file_explorer/bundle.js");
    assert_eq!(info.jwt_token, "jwt-token-s1");
    assert_eq!(info.api_endpoint, "http://localhost:8080/api");
    assert_eq!(l.terminate("s1"), Ok(()));
    assert_eq!(l.is_running("anything"), Ok(true));
}

#[test]
fn mock_isolation() {
    let iso = MockSandboxIsolation;
    let h = iso.create_sandbox("42").unwrap();
    assert_eq!(h.sandbox_id, "sandbox-42");
    assert_eq!(h.pid_namespace, "pid-42");
    assert_eq!(h.mount_namespace, "mnt-42");
    assert_eq!(h.network_namespace, "none");
    assert_eq!(iso.execute_in_sandbox(&h, "ls"), Ok(()));
    assert_eq!(iso.mount_path(&h, "/data", "/mnt", true), Ok(()));
    assert_eq!(iso.destroy_sandbox(&h), Ok(()));
}

#[test]
fn ipc_server_path() {
    let s = IpcSocketServer::new("/tmp/sandbox-ipc.sock".to_string());
    assert_eq!(s.path(), "/tmp/sandbox-ipc.sock");
    let _ = FfmpegManager::new();
}
