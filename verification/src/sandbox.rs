//! What the sandbox launcher computes before it starts processes: cgroup
//! locations and limits, application binary locations, the command lines
//! of the virtual display, the screen grabber and xdotool, the
//! environment handed to native applications, and frame timing.

use vstd::prelude::*;
use crate::text::{decimal, signed_decimal, u64_to_decimal, i64_to_decimal};
use crate::keys::{xdotool_key_name, map_key_to_xdotool};

verus! {

broadcast use vstd::string::group_string_axioms;

// ---------------------------------------------------------------------------
// String building
// ---------------------------------------------------------------------------

/// `s` with every `-` replaced by `_`.
pub open spec fn dashes_to_underscores(s: Seq<char>) -> Seq<char> {
    s.map_values(|c: char| if c == '-' { '_' } else { c })
}

/// Replaces every `-` of a name by `_` (binary names use underscores).
pub fn replace_dashes(s: &str) -> (r: String)
    ensures
        r@ == dashes_to_underscores(s@),
{
    let len = s.unicode_len();
    let mut r = String::new();
    let mut i: usize = 0;
    while i < len
        invariant
            len == s@.len(),
            0 <= i <= len,
            r@ == dashes_to_underscores(s@.subrange(0, i as int)),
        decreases len - i,
    {
        let c = s.get_char(i);
        if c == '-' {
            proof { reveal_strlit("_"); }
            r.append("_");
        } else {
            r.append(s.substring_char(i, i + 1));
        }
        i += 1;
        assert(r@ =~= dashes_to_underscores(s@.subrange(0, i as int)));
    }
    assert(s@.subrange(0, len as int) =~= s@);
    r
}

/// A string made of the given string slice.
fn owned(s: &str) -> (r: String)
    ensures
        r@ == s@,
{
    String::from_str(s)
}

// ---------------------------------------------------------------------------
// cgroups
// ---------------------------------------------------------------------------

/// `part` joined to `base` as `PathBuf::join` joins paths: an absolute
/// `part` replaces `base`; otherwise a separator goes between them unless
/// `base` is empty or already ends with one.
pub open spec fn joined(base: Seq<char>, part: Seq<char>) -> Seq<char> {
    if part.len() > 0 && part[0] == '/' {
        part
    } else if base.len() > 0 && base.last() != '/' {
        base + "/"@ + part
    } else {
        base + part
    }
}

/// Joins a path component to a base path.
pub fn join_path(base: &str, part: &str) -> (r: String)
    ensures
        r@ == joined(base@, part@),
{
    let blen = base.unicode_len();
    if part.unicode_len() > 0 && part.get_char(0) == '/' {
        owned(part)
    } else if blen > 0 && base.get_char(blen - 1) != '/' {
        let mut r = owned(base);
        r.append("/");
        r.append(part);
        r
    } else {
        let mut r = owned(base);
        r.append(part);
        r
    }
}

/// Directory of a session's cgroup: the session id joined to
/// `/sys/fs/cgroup/sandbox`.
pub open spec fn cgroup_dir(session_id: Seq<char>) -> Seq<char> {
    joined("/sys/fs/cgroup/sandbox"@, session_id)
}

/// The cgroup directory of a session.
pub fn cgroup_path(session_id: &str) -> (r: String)
    ensures
        r@ == cgroup_dir(session_id@),
{
    join_path("/sys/fs/cgroup/sandbox", session_id)
}

/// Storage directory of an owner: the owner's id joined to the storage root.
pub fn owner_storage_dir(storage_root: &str, user_id: &str) -> (r: String)
    ensures
        r@ == joined(storage_root@, user_id@),
{
    join_path(storage_root, user_id)
}

/// One cgroup control file and the value written to it.
#[derive(Debug)]
pub struct CgroupSetting {
    pub file: String,
    pub value: String,
}

/// Control files written for a session's process `pid`, in order: the
/// process is moved into the cgroup, then limited to half a CPU
/// (500 ms per 1000 ms period), 512 MiB of memory and 100 tasks.
pub open spec fn cgroup_settings_spec(pid: u32) -> Seq<(Seq<char>, Seq<char>)> {
    seq![
        ("cgroup.procs"@, decimal(pid as nat)),
        ("cpu.max"@, "500000 1000000"@),
        ("memory.max"@, decimal(512 * 1024 * 1024)),
        ("pids.max"@, "100"@),
    ]
}

/// The cgroup control files to write for a session's process.
pub fn cgroup_settings(pid: u32) -> (r: Vec<CgroupSetting>)
    ensures
        r@.len() == 4,
        forall|i: int| 0 <= i < 4 ==>
            ((#[trigger] r@[i]).file@, r@[i].value@) == cgroup_settings_spec(pid)[i],
{
    let mut r: Vec<CgroupSetting> = Vec::new();
    r.push(CgroupSetting { file: owned("cgroup.procs"), value: u64_to_decimal(pid as u64) });
    r.push(CgroupSetting { file: owned("cpu.max"), value: owned("500000 1000000") });
    r.push(CgroupSetting { file: owned("memory.max"), value: u64_to_decimal(512 * 1024 * 1024) });
    r.push(CgroupSetting { file: owned("pids.max"), value: owned("100") });
    r
}

// ---------------------------------------------------------------------------
// Application binaries
// ---------------------------------------------------------------------------

/// Location of a native application's binary: `{root}/{name}/{name}` with
/// the name's dashes turned into underscores.
pub open spec fn native_binary_path_spec(apps_root: Seq<char>, app_name: Seq<char>) -> Seq<char> {
    let b = dashes_to_underscores(app_name);
    apps_root + "/"@ + b + "/"@ + b
}

/// The binary of a native application under the applications root.
pub fn native_binary_path(apps_root: &str, app_name: &str) -> (r: String)
    ensures
        r@ == native_binary_path_spec(apps_root@, app_name@),
{
    let b = replace_dashes(app_name);
    let mut r = owned(apps_root);
    r.append("/");
    r.append(b.as_str());
    r.append("/");
    r.append(b.as_str());
    r
}

/// Location of a WebAssembly application: `{dir}/{name}.wasm` with the
/// name's dashes turned into underscores.
pub open spec fn wasm_module_path_spec(wasm_dir: Seq<char>, app_name: Seq<char>) -> Seq<char> {
    wasm_dir + "/"@ + dashes_to_underscores(app_name) + ".wasm"@
}

/// The module file of a WebAssembly application.
pub fn wasm_module_path(wasm_dir: &str, app_name: &str) -> (r: String)
    ensures
        r@ == wasm_module_path_spec(wasm_dir@, app_name@),
{
    let b = replace_dashes(app_name);
    let mut r = owned(wasm_dir);
    r.append("/");
    r.append(b.as_str());
    r.append(".wasm");
    r
}

// ---------------------------------------------------------------------------
// Virtual display (Xvfb)
// ---------------------------------------------------------------------------

/// First display number handed to sessions.
pub const FIRST_DISPLAY: u16 = 100;

/// Display number of the `n`-th allocation (counting from 0).
pub fn display_number(allocated_before: u16) -> (r: u16)
    requires
        allocated_before <= u16::MAX - FIRST_DISPLAY,
    ensures
        r == FIRST_DISPLAY + allocated_before,
{
    FIRST_DISPLAY + allocated_before
}

/// The X display name of a display number, `:{n}`.
pub fn display_name(display: u16) -> (r: String)
    ensures
        r@ == ":"@ + decimal(display as nat),
{
    let mut r = owned(":");
    r.append(u64_to_decimal(display as u64).as_str());
    r
}

/// Command-line arguments of Xvfb for a display of `width`x`height` with
/// 24-bit colour, access control off and the XTEST, GLX and RENDER
/// extensions on.
pub open spec fn xvfb_args_spec(display: Seq<char>, width: u16, height: u16) -> Seq<Seq<char>> {
    seq![
        display, "-screen"@, "0"@,
        decimal(width as nat) + "x"@ + decimal(height as nat) + "x24"@,
        "-ac"@, "+extension"@, "GLX"@, "+extension"@, "XTEST"@, "+render"@, "-noreset"@,
    ]
}

fn push_arg(args: &mut Vec<String>, s: &str)
    ensures
        final(args)@.len() == old(args)@.len() + 1,
        forall|i: int| 0 <= i < old(args)@.len() ==> final(args)@[i] == old(args)@[i],
        final(args)@.last()@ == s@,
{
    args.push(owned(s));
}

/// The views of a list of strings.
pub open spec fn views(v: Seq<String>) -> Seq<Seq<char>> {
    v.map_values(|s: String| s@)
}

/// The Xvfb command line for a session's display.
pub fn xvfb_args(display: &str, width: u16, height: u16) -> (r: Vec<String>)
    ensures
        views(r@) == xvfb_args_spec(display@, width, height),
{
    let mut res = u64_to_decimal(width as u64);
    res.append("x");
    res.append(u64_to_decimal(height as u64).as_str());
    res.append("x24");
    let mut args: Vec<String> = Vec::new();
    push_arg(&mut args, display);
    push_arg(&mut args, "-screen");
    push_arg(&mut args, "0");
    args.push(res);
    push_arg(&mut args, "-ac");
    push_arg(&mut args, "+extension");
    push_arg(&mut args, "GLX");
    push_arg(&mut args, "+extension");
    push_arg(&mut args, "XTEST");
    push_arg(&mut args, "+render");
    push_arg(&mut args, "-noreset");
    assert(views(args@) =~= xvfb_args_spec(display@, width, height));
    args
}

// ---------------------------------------------------------------------------
// Screen grabber (FFmpeg)
// ---------------------------------------------------------------------------

/// FFmpeg command line grabbing an X display at `width`x`height` and
/// `framerate` and writing a real-time H.264 stream (libx264, 1 Mbit/s,
/// low-latency settings) to stdout.
pub open spec fn ffmpeg_args_spec(display: Seq<char>, width: u16, height: u16, framerate: u8) -> Seq<Seq<char>> {
    seq![
        "-f"@, "x11grab"@, "-video_size"@, decimal(width as nat) + "x"@ + decimal(height as nat),
        "-framerate"@, decimal(framerate as nat), "-i"@, display,
        "-c:v"@, "libx264"@, "-b:v"@, "1M"@, "-preset"@, "ultrafast"@, "-tune"@, "zerolatency"@,
        "-pix_fmt"@, "yuv420p"@, "-g"@, "60"@, "-f"@, "h264"@, "pipe:1"@,
    ]
}

/// The FFmpeg command line for capturing a display.
pub fn ffmpeg_args(display: &str, width: u16, height: u16, framerate: u8) -> (r: Vec<String>)
    ensures
        views(r@) == ffmpeg_args_spec(display@, width, height, framerate),
{
    let mut res = u64_to_decimal(width as u64);
    res.append("x");
    res.append(u64_to_decimal(height as u64).as_str());
    let mut args: Vec<String> = Vec::new();
    push_arg(&mut args, "-f");
    push_arg(&mut args, "x11grab");
    push_arg(&mut args, "-video_size");
    args.push(res);
    push_arg(&mut args, "-framerate");
    args.push(u64_to_decimal(framerate as u64));
    push_arg(&mut args, "-i");
    push_arg(&mut args, display);
    push_arg(&mut args, "-c:v");
    push_arg(&mut args, "libx264");
    push_arg(&mut args, "-b:v");
    push_arg(&mut args, "1M");
    push_arg(&mut args, "-preset");
    push_arg(&mut args, "ultrafast");
    push_arg(&mut args, "-tune");
    push_arg(&mut args, "zerolatency");
    push_arg(&mut args, "-pix_fmt");
    push_arg(&mut args, "yuv420p");
    push_arg(&mut args, "-g");
    push_arg(&mut args, "60");
    push_arg(&mut args, "-f");
    push_arg(&mut args, "h264");
    push_arg(&mut args, "pipe:1");
    assert(views(args@) =~= ffmpeg_args_spec(display@, width, height, framerate));
    args
}

// ---------------------------------------------------------------------------
// xdotool
// ---------------------------------------------------------------------------

/// xdotool arguments moving the pointer to (x, y), waiting for the move.
pub fn xdotool_mousemove_args(x: i32, y: i32) -> (r: Vec<String>)
    ensures
        views(r@) == seq!["mousemove"@, "--sync"@, signed_decimal(x as int), signed_decimal(y as int)],
{
    let mut args: Vec<String> = Vec::new();
    push_arg(&mut args, "mousemove");
    push_arg(&mut args, "--sync");
    args.push(i64_to_decimal(x as i64));
    args.push(i64_to_decimal(y as i64));
    assert(views(args@) =~= seq!["mousemove"@, "--sync"@, signed_decimal(x as int), signed_decimal(y as int)]);
    args
}

/// xdotool arguments pressing (`mousedown`) or releasing (`mouseup`) a button.
pub fn xdotool_button_args(button: u8, pressed: bool) -> (r: Vec<String>)
    ensures
        views(r@) == seq![if pressed { "mousedown"@ } else { "mouseup"@ }, decimal(button as nat)],
{
    let mut args: Vec<String> = Vec::new();
    if pressed {
        push_arg(&mut args, "mousedown");
    } else {
        push_arg(&mut args, "mouseup");
    }
    args.push(u64_to_decimal(button as u64));
    assert(views(args@) =~= seq![if pressed { "mousedown"@ } else { "mouseup"@ }, decimal(button as nat)]);
    args
}

/// xdotool arguments pressing (`keydown`) or releasing (`keyup`) a key,
/// named as xdotool names it.
pub fn xdotool_key_args(key: &str, pressed: bool) -> (r: Vec<String>)
    ensures
        views(r@) == seq![if pressed { "keydown"@ } else { "keyup"@ }, xdotool_key_name(key@)],
{
    let mut args: Vec<String> = Vec::new();
    if pressed {
        push_arg(&mut args, "keydown");
    } else {
        push_arg(&mut args, "keyup");
    }
    args.push(map_key_to_xdotool(key));
    assert(views(args@) =~= seq![if pressed { "keydown"@ } else { "keyup"@ }, xdotool_key_name(key@)]);
    args
}

// ---------------------------------------------------------------------------
// Native applications
// ---------------------------------------------------------------------------

/// One environment variable.
#[derive(Debug)]
pub struct EnvVar {
    pub name: String,
    pub value: String,
}

/// Environment of a native application: its framebuffer and control fds,
/// the framebuffer size and the frame rate.
pub open spec fn native_app_env_spec(fb_fd: i32, ctrl_fd: i32, width: u32, height: u32, framerate: u32)
    -> Seq<(Seq<char>, Seq<char>)> {
    seq![
        ("SANDBOX_FB_FD"@, signed_decimal(fb_fd as int)),
        ("SANDBOX_CTRL_FD"@, signed_decimal(ctrl_fd as int)),
        ("SANDBOX_WIDTH"@, decimal(width as nat)),
        ("SANDBOX_HEIGHT"@, decimal(height as nat)),
        ("SANDBOX_FRAMERATE"@, decimal(framerate as nat)),
    ]
}

/// The environment a native application is started with.
pub fn native_app_env(fb_fd: i32, ctrl_fd: i32, width: u32, height: u32, framerate: u32) -> (r: Vec<EnvVar>)
    ensures
        r@.len() == 5,
        forall|i: int| 0 <= i < 5 ==> ((#[trigger] r@[i]).name@, r@[i].value@)
            == native_app_env_spec(fb_fd, ctrl_fd, width, height, framerate)[i],
{
    let mut r: Vec<EnvVar> = Vec::new();
    r.push(EnvVar { name: owned("SANDBOX_FB_FD"), value: i64_to_decimal(fb_fd as i64) });
    r.push(EnvVar { name: owned("SANDBOX_CTRL_FD"), value: i64_to_decimal(ctrl_fd as i64) });
    r.push(EnvVar { name: owned("SANDBOX_WIDTH"), value: u64_to_decimal(width as u64) });
    r.push(EnvVar { name: owned("SANDBOX_HEIGHT"), value: u64_to_decimal(height as u64) });
    r.push(EnvVar { name: owned("SANDBOX_FRAMERATE"), value: u64_to_decimal(framerate as u64) });
    r
}

/// Where the IPC socket of the platform lives: the configured path, else
/// `/tmp/sandbox-ipc.sock`.
pub open spec fn ipc_socket_path_spec(configured: Option<Seq<char>>) -> Seq<char> {
    match configured {
        Some(p) => p,
        None => "/tmp/sandbox-ipc.sock"@,
    }
}

/// The IPC socket path from the value of `IPC_SOCKET_PATH` (`None` when unset).
pub fn ipc_socket_path(configured: Option<&str>) -> (r: String)
    ensures
        r@ == ipc_socket_path_spec(match configured { Some(p) => Some(p@), None => None::<Seq<char>> }),
{
    match configured {
        Some(p) => owned(p),
        None => owned("/tmp/sandbox-ipc.sock"),
    }
}

/// Environment of an application started on a virtual display: the
/// display, the IPC socket and the screen size.
pub open spec fn x11_app_env_spec(display: Seq<char>, ipc_socket: Seq<char>, width: u16, height: u16)
    -> Seq<(Seq<char>, Seq<char>)> {
    seq![
        ("DISPLAY"@, display),
        ("IPC_SOCKET_PATH"@, ipc_socket),
        ("SANDBOX_WIDTH"@, decimal(width as nat)),
        ("SANDBOX_HEIGHT"@, decimal(height as nat)),
    ]
}

/// The environment an application on a virtual display is started with.
pub fn x11_app_env(display: &str, ipc_socket: &str, width: u16, height: u16) -> (r: Vec<EnvVar>)
    ensures
        r@.len() == 4,
        forall|i: int| 0 <= i < 4 ==> ((#[trigger] r@[i]).name@, r@[i].value@)
            == x11_app_env_spec(display@, ipc_socket@, width, height)[i],
{
    let mut r: Vec<EnvVar> = Vec::new();
    r.push(EnvVar { name: owned("DISPLAY"), value: owned(display) });
    r.push(EnvVar { name: owned("IPC_SOCKET_PATH"), value: owned(ipc_socket) });
    r.push(EnvVar { name: owned("SANDBOX_WIDTH"), value: u64_to_decimal(width as u64) });
    r.push(EnvVar { name: owned("SANDBOX_HEIGHT"), value: u64_to_decimal(height as u64) });
    r
}

/// Bytes of an RGBA framebuffer of `width`x`height` pixels.
pub fn framebuffer_size(width: u32, height: u32) -> (r: usize)
    requires
        width * height * 4 <= u32::MAX,
    ensures
        r == width * height * 4,
{
    assert(width * height * 4 <= u32::MAX);
    (width * height * 4) as usize
}

/// Milliseconds between frames at a target frame rate, so that frames come
/// at the requested rate: 1000 / rate (a rate of 0 counts as 1).
pub open spec fn frame_interval_ms_spec(framerate: u64) -> u64 {
    1000u64 / (if framerate == 0 { 1u64 } else { framerate })
}

/// The frame interval of a target frame rate, in milliseconds.
pub fn frame_interval_ms(framerate: u64) -> (r: u64)
    ensures
        r == frame_interval_ms_spec(framerate),
        r <= 1000,
{
    let rate = if framerate < 1 { 1 } else { framerate };
    1000 / rate
}

/// Milliseconds between frames of a WebAssembly application: the interval
/// of the frame rate, but never under 16 ms (at most about 60 frames a
/// second).
pub open spec fn wasm_frame_interval_ms_spec(framerate: u64) -> u64 {
    if frame_interval_ms_spec(framerate) < 16 { 16 } else { frame_interval_ms_spec(framerate) }
}

/// The frame interval of a WebAssembly application's render loop, in
/// milliseconds.
pub fn wasm_frame_interval_ms(framerate: u64) -> (r: u64)
    ensures
        r == wasm_frame_interval_ms_spec(framerate),
        16 <= r <= 1000,
{
    let interval = frame_interval_ms(framerate);
    if interval < 16 { 16 } else { interval }
}

} // verus!
