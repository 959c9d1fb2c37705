//! Decisions of the browser signaling channel: which action each signaling
//! message asks for, which reply goes back, what each WebSocket event does
//! to the connection, and the session a connection serves.

use vstd::prelude::*;

verus! {

broadcast use vstd::string::group_string_axioms;

/// A message of the signaling channel (JSON, tagged by `type`). The scroll
/// amount of a wheel event is not carried: nothing acts on it.
#[derive(Debug)]
pub enum SignalingMessage {
    RequestOffer,
    Offer { sdp: String },
    Answer { sdp: String },
    IceCandidate { candidate: String, sdp_mid: Option<String>, sdp_mline_index: Option<u16> },
    MouseMove { x: i32, y: i32 },
    MouseDown { button: u8 },
    MouseUp { button: u8 },
    MouseScroll,
    KeyDown { key: String, code: String },
    KeyUp { key: String, code: String },
    Resize { width: u32, height: u32 },
    Error { message: String },
}

/// What the server does for a signaling message.
#[derive(Debug)]
pub enum SignalingAction {
    /// Create the peer connection and the video stream, and answer with an offer.
    CreateOffer,
    /// Set the client's answer as the remote description.
    ApplyAnswer { sdp: String },
    /// Add the client's ICE candidate to the peer connection.
    AddIceCandidate { candidate: String, sdp_mid: Option<String>, sdp_mline_index: Option<u16> },
    /// Move the application's pointer.
    PointerMove { x: i32, y: i32 },
    /// Press or release a pointer button.
    MouseButton { button: u8, pressed: bool },
    /// Press or release a key.
    Keyboard { key: String, code: String, pressed: bool },
    /// Nothing (scrolling, resizing, and messages only the server sends).
    Nothing,
}

/// The action a signaling message asks for.
pub open spec fn signaling_action_spec(m: SignalingMessage) -> SignalingAction {
    match m {
        SignalingMessage::RequestOffer => SignalingAction::CreateOffer,
        SignalingMessage::Answer { sdp } => SignalingAction::ApplyAnswer { sdp },
        SignalingMessage::IceCandidate { candidate, sdp_mid, sdp_mline_index } =>
            SignalingAction::AddIceCandidate { candidate, sdp_mid, sdp_mline_index },
        SignalingMessage::MouseMove { x, y } => SignalingAction::PointerMove { x, y },
        SignalingMessage::MouseDown { button } => SignalingAction::MouseButton { button, pressed: true },
        SignalingMessage::MouseUp { button } => SignalingAction::MouseButton { button, pressed: false },
        SignalingMessage::KeyDown { key, code } => SignalingAction::Keyboard { key, code, pressed: true },
        SignalingMessage::KeyUp { key, code } => SignalingAction::Keyboard { key, code, pressed: false },
        _ => SignalingAction::Nothing,
    }
}

/// Decides what to do for a signaling message from the browser.
pub fn signaling_action(message: SignalingMessage) -> (r: SignalingAction)
    ensures
        r == signaling_action_spec(message),
{
    match message {
        SignalingMessage::RequestOffer => SignalingAction::CreateOffer,
        SignalingMessage::Answer { sdp } => SignalingAction::ApplyAnswer { sdp },
        SignalingMessage::IceCandidate { candidate, sdp_mid, sdp_mline_index } =>
            SignalingAction::AddIceCandidate { candidate, sdp_mid, sdp_mline_index },
        SignalingMessage::MouseMove { x, y } => SignalingAction::PointerMove { x, y },
        SignalingMessage::MouseDown { button } => SignalingAction::MouseButton { button, pressed: true },
        SignalingMessage::MouseUp { button } => SignalingAction::MouseButton { button, pressed: false },
        SignalingMessage::KeyDown { key, code } => SignalingAction::Keyboard { key, code, pressed: true },
        SignalingMessage::KeyUp { key, code } => SignalingAction::Keyboard { key, code, pressed: false },
        _ => SignalingAction::Nothing,
    }
}

/// Press and release messages are never conflated: a key-down message
/// presses its key and a key-up message releases it, a mouse-down message
/// presses its button and a mouse-up message releases it, each carrying the
/// key, code or button unchanged; and a press or release action comes only
/// from a message of that kind.
pub proof fn lemma_press_and_release(m: SignalingMessage)
    ensures
        m matches SignalingMessage::KeyDown { key, code }
            ==> signaling_action_spec(m) == (SignalingAction::Keyboard { key, code, pressed: true }),
        m matches SignalingMessage::KeyUp { key, code }
            ==> signaling_action_spec(m) == (SignalingAction::Keyboard { key, code, pressed: false }),
        m matches SignalingMessage::MouseDown { button }
            ==> signaling_action_spec(m) == (SignalingAction::MouseButton { button, pressed: true }),
        m matches SignalingMessage::MouseUp { button }
            ==> signaling_action_spec(m) == (SignalingAction::MouseButton { button, pressed: false }),
        signaling_action_spec(m) matches SignalingAction::Keyboard { pressed, .. }
            ==> (m is KeyDown || m is KeyUp) && (pressed <==> m is KeyDown),
        signaling_action_spec(m) matches SignalingAction::MouseButton { pressed, .. }
            ==> (m is MouseDown || m is MouseUp) && (pressed <==> m is MouseDown),
{
}

/// The reply to a handled message, from how the action went: an offer's
/// SDP is sent back as an `Offer`, a failure as an `Error` carrying its
/// text, and anything else gets no reply.
pub fn signaling_reply(outcome: Result<Option<String>, String>) -> (r: Option<SignalingMessage>)
    ensures
        r == (match outcome {
            Ok(Some(sdp)) => Some(SignalingMessage::Offer { sdp }),
            Ok(None) => None,
            Err(message) => Some(SignalingMessage::Error { message }),
        }),
{
    match outcome {
        Ok(Some(sdp)) => Some(SignalingMessage::Offer { sdp }),
        Ok(None) => None,
        Err(message) => Some(SignalingMessage::Error { message }),
    }
}

/// What arrived on the signaling WebSocket.
#[derive(Debug, Clone, Copy, PartialEq, Eq, Structural)]
pub enum SocketEvent {
    /// A text frame.
    Text,
    /// A close frame.
    Close,
    /// Any other frame (binary, ping, pong).
    OtherFrame,
    /// The socket failed.
    Failed,
    /// The stream ended.
    Ended,
}

/// What the connection does next.
#[derive(Debug, Clone, Copy, PartialEq, Eq, Structural)]
pub enum SocketStep {
    /// Parse the text as a signaling message and handle it, then read on.
    HandleText,
    /// Read the next frame.
    ReadOn,
    /// Stop reading, releasing the session's resources `releases` times
    /// (a close frame releases them at once and again on the way out).
    Finish { releases: u8 },
}

/// The step for each WebSocket event.
pub open spec fn socket_step_spec(event: SocketEvent) -> SocketStep {
    match event {
        SocketEvent::Text => SocketStep::HandleText,
        SocketEvent::Close => SocketStep::Finish { releases: 2 },
        SocketEvent::OtherFrame => SocketStep::ReadOn,
        SocketEvent::Failed => SocketStep::Finish { releases: 1 },
        SocketEvent::Ended => SocketStep::Finish { releases: 1 },
    }
}

/// The step for a WebSocket event.
pub fn socket_step(event: SocketEvent) -> (r: SocketStep)
    ensures
        r == socket_step_spec(event),
{
    match event {
        SocketEvent::Text => SocketStep::HandleText,
        SocketEvent::Close => SocketStep::Finish { releases: 2 },
        SocketEvent::OtherFrame => SocketStep::ReadOn,
        SocketEvent::Failed => SocketStep::Finish { releases: 1 },
        SocketEvent::Ended => SocketStep::Finish { releases: 1 },
    }
}

/// A connection releases its session on every way out: whenever a step
/// stops reading (a close frame, a failed socket, the end of the stream),
/// it releases the session's resources at least once; and only those
/// events stop it.
pub proof fn lemma_every_exit_releases(event: SocketEvent)
    ensures
        socket_step_spec(event) is Finish ==> socket_step_spec(event)->releases >= 1,
        socket_step_spec(event) is Finish <==>
            (event == SocketEvent::Close || event == SocketEvent::Failed || event == SocketEvent::Ended),
{
}

/// Whether a character is a lower-case hexadecimal digit.
pub open spec fn is_lower_hex(c: char) -> bool {
    ('0' <= c && c <= '9') || ('a' <= c && c <= 'f')
}

/// Whether a text is a random (version 4, RFC 4122 variant) UUID in
/// lower-case hyphenated form: 36 characters, hyphens at positions 8, 13,
/// 18 and 23, lower-case hexadecimal digits elsewhere, the version digit
/// `4` at position 14 and a variant digit `8`, `9`, `a` or `b` at 19.
pub open spec fn random_uuid_shape(s: Seq<char>) -> bool {
    &&& s.len() == 36
    &&& forall|i: int| 0 <= i < 36 ==> (#[trigger] s[i] == '-' <==> (i == 8 || i == 13 || i == 18 || i == 23))
    &&& forall|i: int| 0 <= i < 36 && !(i == 8 || i == 13 || i == 18 || i == 23) ==> is_lower_hex(#[trigger] s[i])
    &&& s[14] == '4'
    &&& (s[19] == '8' || s[19] == '9' || s[19] == 'a' || s[19] == 'b')
}

/// `uuid::Uuid::new_v4()` written out with `to_string`. The UUID is random,
/// so its digits are not stated; `new_v4` fixes the version digit to 4 and
/// the variant bits to `10`, and `to_string` writes the lower-case
/// hyphenated form.
#[verifier::external_body]
fn random_uuid_text() -> (r: String)
    ensures
        random_uuid_shape(r@),
{
    uuid::Uuid::new_v4().to_string()
}

/// The session a signaling connection serves: the one the client named,
/// else a fresh random UUID.
pub fn connection_session_id(requested: Option<String>) -> (r: String)
    ensures
        requested matches Some(s) ==> r == s,
        requested is None ==> random_uuid_shape(r@),
{
    match requested {
        Some(s) => s,
        None => random_uuid_text(),
    }
}

/// One ICE server handed to the peer connection.
#[derive(Debug)]
pub struct IceServer {
    pub urls: Vec<String>,
    pub username: String,
    pub credential: String,
    /// Whether `credential` is a password (for TURN); otherwise no
    /// credential type is set.
    pub password_credential: bool,
}

/// The value of a setting, or its default when unset.
pub open spec fn setting_or(value: Option<Seq<char>>, default: Seq<char>) -> Seq<char> {
    match value {
        Some(v) => v,
        None => default,
    }
}

fn owned_setting(value: Option<&str>, default: &str) -> (r: String)
    ensures
        r@ == setting_or(match value { Some(v) => Some(v@), None => None::<Seq<char>> }, default@),
{
    match value {
        Some(v) => String::from_str(v),
        None => String::from_str(default),
    }
}

/// The ICE servers of a peer connection, from the values of `TURN_SERVER`,
/// `TURN_USERNAME` and `TURN_CREDENTIAL` (`None` when unset): Google's
/// public STUN server, then the TURN server with password credentials
/// (defaults `turn:localhost:3478`, `sandbox`, `dev_turn_secret`).
pub fn ice_servers(turn_server: Option<&str>, turn_username: Option<&str>, turn_credential: Option<&str>)
    -> (r: Vec<IceServer>)
    ensures
        r@.len() == 2,
        r@[0].urls@.len() == 1,
        r@[0].urls@[0]@ == "stun:stun.l.google.com:19302"@,
        r@[0].username@ == Seq::<char>::empty(),
        r@[0].credential@ == Seq::<char>::empty(),
        !r@[0].password_credential,
        r@[1].urls@.len() == 1,
        r@[1].urls@[0]@ == setting_or(match turn_server { Some(v) => Some(v@), None => None::<Seq<char>> }, "turn:localhost:3478"@),
        r@[1].username@ == setting_or(match turn_username { Some(v) => Some(v@), None => None::<Seq<char>> }, "sandbox"@),
        r@[1].credential@ == setting_or(match turn_credential { Some(v) => Some(v@), None => None::<Seq<char>> }, "dev_turn_secret"@),
        r@[1].password_credential,
{
    let mut stun_urls: Vec<String> = Vec::new();
    stun_urls.push(String::from_str("stun:stun.l.google.com:19302"));
    let stun = IceServer { urls: stun_urls, username: String::new(), credential: String::new(), password_credential: false };
    let mut turn_urls: Vec<String> = Vec::new();
    turn_urls.push(owned_setting(turn_server, "turn:localhost:3478"));
    let turn = IceServer {
        urls: turn_urls,
        username: owned_setting(turn_username, "sandbox"),
        credential: owned_setting(turn_credential, "dev_turn_secret"),
        password_credential: true,
    };
    let mut r: Vec<IceServer> = Vec::new();
    r.push(stun);
    r.push(turn);
    r
}

/// States of a peer connection.
#[derive(Debug, Clone, Copy, PartialEq, Eq, Structural)]
pub enum PeerState {
    Unspecified,
    New,
    Connecting,
    Connected,
    Disconnected,
    Failed,
    Closed,
}

/// Whether a peer connection entering `state` stops the session's streams:
/// when it failed, disconnected or closed.
pub fn stops_streams(state: PeerState) -> (r: bool)
    ensures
        r == (state == PeerState::Failed || state == PeerState::Disconnected || state == PeerState::Closed),
{
    match state {
        PeerState::Failed | PeerState::Disconnected | PeerState::Closed => true,
        _ => false,
    }
}

/// Duration of one video sample at a frame rate, in milliseconds:
/// 1000 / rate, a rate of 0 counting as 1.
pub fn sample_duration_ms(framerate: u8) -> (r: u64)
    ensures
        r == 1000int / (if framerate == 0 { 1int } else { framerate as int }),
{
    let rate: u64 = if framerate == 0 { 1 } else { framerate as u64 };
    1000 / rate
}

} // verus!
