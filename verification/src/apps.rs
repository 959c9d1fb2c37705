//! The application catalogue and launch requests, the development
//! stand-ins for the launcher and the sandbox, and the small adapters'
//! state (IPC socket server, encoder managers).

use vstd::prelude::*;

verus! {

broadcast use vstd::string::group_string_axioms;

/// An application users can launch.
#[derive(Debug)]
pub struct ApplicationMetadata {
    pub app_id: String,
    pub name: String,
    pub description: String,
}

/// The catalogue of launchable applications: the file explorer.
pub fn list_applications() -> (r: Vec<ApplicationMetadata>)
    ensures
        r@.len() == 1,
        r@[0].app_id@ == "file_explorer"@,
        r@[0].name@ == "File Explorer"@,
        r@[0].description@ == "Browse and manage files in your sandboxed environment."@,
{
    let mut apps: Vec<ApplicationMetadata> = Vec::new();
    apps.push(ApplicationMetadata {
        app_id: String::from_str("file_explorer"),
        name: String::from_str("File Explorer"),
        description: String::from_str("Browse and manage files in your sandboxed environment."),
    });
    apps
}

/// A request to launch an application at a display size.
#[derive(Debug)]
pub struct LaunchApplicationRequest {
    pub app_id: String,
    pub width: u16,
    pub height: u16,
}

/// Display width used when a launch request gives none.
pub fn default_width() -> (r: u16)
    ensures
        r == 1280,
{
    1280
}

/// Display height used when a launch request gives none.
pub fn default_height() -> (r: u16)
    ensures
        r == 720,
{
    720
}

/// The answer to a launch: the session and where to connect for it.
#[derive(Debug)]
pub struct LaunchApplicationResponse {
    pub session_id: String,
    pub websocket_url: String,
}

/// What a browser-side application needs to start.
#[derive(Debug)]
pub struct BrowserLaunchInfo {
    pub bundle_url: String,
    pub jwt_token: String,
    pub api_endpoint: String,
}

/// Launcher stand-in for development: computes the identifiers a real
/// launcher would hand out, without starting anything.
pub struct MockApplicationLauncher;

impl MockApplicationLauncher {
    /// The sandbox id of a session: `sandbox-{session}`.
    pub fn launch_sandboxed(&self, session_id: &str) -> (r: Result<String, String>)
        ensures
            r matches Ok(s) && s@ == "sandbox-"@ + session_id@,
    {
        let mut s = String::from_str("sandbox-");
        s.append(session_id);
        Ok(s)
    }

    /// Browser launch data: the application's bundle, a placeholder token
    /// for the session, and the local API endpoint.
    pub fn prepare_browser(&self, session_id: &str, app_id: &str) -> (r: Result<BrowserLaunchInfo, String>)
        ensures
            r matches Ok(info)
                && info.bundle_url@ == "/apps/"@ + app_id@ + "/bundle.js"@
                && info.jwt_token@ == "jwt-token-"@ + session_id@
                && info.api_endpoint@ == "http://localhost:8080/api"@,
    {
        let mut bundle_url = String::from_str("/apps/");
        bundle_url.append(app_id);
        bundle_url.append("/bundle.js");
        let mut jwt_token = String::from_str("jwt-token-");
        jwt_token.append(session_id);
        Ok(BrowserLaunchInfo {
            bundle_url,
            jwt_token,
            api_endpoint: String::from_str("http://localhost:8080/api"),
        })
    }

    /// Terminating a session always succeeds.
    pub fn terminate(&self, session_id: &str) -> (r: Result<(), String>)
        ensures
            r is Ok,
    {
        Ok(())
    }

    /// Every session counts as running.
    pub fn is_running(&self, session_id: &str) -> (r: Result<bool, String>)
        ensures
            r == Ok::<bool, String>(true),
    {
        Ok(true)
    }
}

/// Identifiers of a sandbox: its id and its namespaces.
#[derive(Debug)]
pub struct SandboxHandle {
    pub sandbox_id: String,
    pub pid_namespace: String,
    pub mount_namespace: String,
    pub network_namespace: String,
}

/// Sandbox stand-in for development: names the namespaces a real sandbox
/// would create, without creating them.
pub struct MockSandboxIsolation;

impl MockSandboxIsolation {
    /// The handle of a session's sandbox: `sandbox-{s}`, `pid-{s}`,
    /// `mnt-{s}`, and no network namespace (`none`).
    pub fn create_sandbox(&self, session_id: &str) -> (r: Result<SandboxHandle, String>)
        ensures
            r matches Ok(h)
                && h.sandbox_id@ == "sandbox-"@ + session_id@
                && h.pid_namespace@ == "pid-"@ + session_id@
                && h.mount_namespace@ == "mnt-"@ + session_id@
                && h.network_namespace@ == "none"@,
    {
        let mut sandbox_id = String::from_str("sandbox-");
        sandbox_id.append(session_id);
        let mut pid_namespace = String::from_str("pid-");
        pid_namespace.append(session_id);
        let mut mount_namespace = String::from_str("mnt-");
        mount_namespace.append(session_id);
        Ok(SandboxHandle {
            sandbox_id,
            pid_namespace,
            mount_namespace,
            network_namespace: String::from_str("none"),
        })
    }

    /// Running a command always succeeds (nothing is run).
    pub fn execute_in_sandbox(&self, handle: &SandboxHandle, command: &str) -> (r: Result<(), String>)
        ensures
            r is Ok,
    {
        Ok(())
    }

    /// Mounting a path always succeeds (nothing is mounted).
    pub fn mount_path(&self, handle: &SandboxHandle, host_path: &str, sandbox_path: &str, readonly: bool)
        -> (r: Result<(), String>)
        ensures
            r is Ok,
    {
        Ok(())
    }

    /// Destroying a sandbox always succeeds.
    pub fn destroy_sandbox(&self, handle: &SandboxHandle) -> (r: Result<(), String>)
        ensures
            r is Ok,
    {
        Ok(())
    }
}

/// The Unix socket server applications report to.
pub struct IpcSocketServer {
    socket_path: String,
}

impl IpcSocketServer {
    /// A server for the socket at `socket_path`.
    pub fn new(socket_path: String) -> (r: IpcSocketServer)
        ensures
            r.socket_path() == socket_path@,
    {
        IpcSocketServer { socket_path }
    }

    /// The socket's path.
    pub closed spec fn socket_path(&self) -> Seq<char> {
        self.socket_path@
    }

    /// The socket's path.
    pub fn path(&self) -> (r: &str)
        ensures
            r@ == self.socket_path(),
    {
        self.socket_path.as_str()
    }
}

/// The screen-grabbing encoder (FFmpeg) manager.
pub struct FfmpegManager {}

impl FfmpegManager {
    /// A manager with no running encoder.
    pub fn new() -> (r: FfmpegManager)
    {
        FfmpegManager {}
    }
}

/// The media pipeline (GStreamer) manager.
pub struct GStreamerManager {}

} // verus!
