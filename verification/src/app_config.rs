//! How a sandboxed native application reads its start-up settings from the
//! environment the server gives it: integers as `str::parse` reads them,
//! with defaults for the optional settings.

use vstd::prelude::*;
use crate::text::{decimal, digit_char, signed_decimal};
use crate::sandbox::native_app_env_spec;

verus! {

broadcast use vstd::string::group_string_axioms;

/// Whether a character is an ASCII decimal digit.
pub open spec fn is_digit(c: char) -> bool {
    '0' <= c && c <= '9'
}

/// Whether every character of a text is an ASCII decimal digit.
pub open spec fn all_digits(s: Seq<char>) -> bool {
    forall|i: int| 0 <= i < s.len() ==> is_digit(#[trigger] s[i])
}

/// The value of a digit character.
pub open spec fn digit_value(c: char) -> nat {
    ((c as u32) - 48) as nat
}

/// The value of a string of decimal digits (most significant first).
pub open spec fn digits_value(s: Seq<char>) -> nat
    decreases s.len(),
{
    if s.len() == 0 {
        0
    } else {
        digits_value(s.drop_last()) * 10 + digit_value(s.last())
    }
}

/// The digits `str::parse` reads for an unsigned integer: a leading `+`
/// is allowed and skipped.
pub open spec fn unsigned_digits(s: Seq<char>) -> Seq<char> {
    if s.len() > 0 && s[0] == '+' { s.drop_first() } else { s }
}

/// Whether a text is a non-empty run of digits of value at most `limit`.
pub open spec fn digits_within(d: Seq<char>, limit: nat) -> bool {
    d.len() > 0 && all_digits(d) && digits_value(d) <= limit
}

/// What `s.parse::<u32>()` gives: `Some` of the value, `None` on error
/// (empty text, a character that is not a digit, or a value past
/// `u32::MAX`).
pub open spec fn parsed_u32(s: Seq<char>) -> Option<u32> {
    let d = unsigned_digits(s);
    if digits_within(d, u32::MAX as nat) { Some(digits_value(d) as u32) } else { None }
}

/// What `s.parse::<i32>()` gives: an optional sign, then digits; `None`
/// on error.
pub open spec fn parsed_i32(s: Seq<char>) -> Option<i32> {
    if s.len() > 0 && s[0] == '-' {
        let d = s.drop_first();
        if digits_within(d, 0x8000_0000) { Some((0 - digits_value(d)) as i32) } else { None }
    } else {
        let d = unsigned_digits(s);
        if digits_within(d, i32::MAX as nat) { Some(digits_value(d) as i32) } else { None }
    }
}

/// The value of a prefix of a digit string grows with the prefix.
proof fn lemma_prefix_value_grows(s: Seq<char>, i: int, j: int)
    requires
        all_digits(s),
        0 <= i <= j <= s.len(),
    ensures
        digits_value(s.subrange(0, i)) <= digits_value(s.subrange(0, j)),
    decreases j - i,
{
    if i < j {
        lemma_prefix_value_grows(s, i, j - 1);
        assert(s.subrange(0, j).drop_last() =~= s.subrange(0, j - 1));
    }
}

/// Reads the digits of `s` from `start` on as a number no larger than
/// `limit`; `None` if there are none, one is not a digit, or the value is
/// larger.
fn parse_digits(s: &str, start: usize, limit: u64) -> (r: Option<u64>)
    requires
        start <= s@.len(),
        limit <= 0x1_0000_0000,
    ensures
        r == (if digits_within(s@.subrange(start as int, s@.len() as int), limit as nat) {
            Some(digits_value(s@.subrange(start as int, s@.len() as int)) as u64)
        } else {
            None::<u64>
        }),
{
    let len = s.unicode_len();
    let ghost d = s@.subrange(start as int, len as int);
    if start == len {
        return None;
    }
    let mut acc: u64 = 0;
    let mut i: usize = start;
    assert(d.subrange(0, 0) =~= Seq::<char>::empty());
    while i < len
        invariant
            len == s@.len(),
            d == s@.subrange(start as int, len as int),
            start <= i <= len,
            limit <= 0x1_0000_0000,
            all_digits(d.subrange(0, i - start)),
            acc as nat == digits_value(d.subrange(0, i - start)),
            acc <= limit,
        decreases len - i,
    {
        let c = s.get_char(i);
        assert(c == d[i - start]);
        if !('0' <= c && c <= '9') {
            assert(!all_digits(d));
            return None;
        }
        let v: u64 = (c as u32 - 48) as u64;
        let next = acc * 10 + v;
        proof {
            assert(d.subrange(0, i + 1 - start).drop_last() =~= d.subrange(0, i - start));
            assert(d.subrange(0, i + 1 - start).last() == c);
            assert(all_digits(d.subrange(0, i + 1 - start)));
        }
        if next > limit {
            proof {
                if all_digits(d) {
                    lemma_prefix_value_grows(d, i + 1 - start, d.len() as int);
                    assert(d.subrange(0, d.len() as int) =~= d);
                }
            }
            return None;
        }
        acc = next;
        i += 1;
    }
    assert(d.subrange(0, len - start) =~= d);
    Some(acc)
}

/// Parses an unsigned 32-bit integer as `str::parse::<u32>` does.
pub fn parse_u32(s: &str) -> (r: Option<u32>)
    ensures
        r == parsed_u32(s@),
{
    let len = s.unicode_len();
    let start: usize = if len > 0 && s.get_char(0) == '+' { 1 } else { 0 };
    proof {
        assert(s@.subrange(start as int, len as int) =~= unsigned_digits(s@));
    }
    match parse_digits(s, start, 0xFFFF_FFFF) {
        Some(v) => Some(v as u32),
        None => None,
    }
}

/// Parses a signed 32-bit integer as `str::parse::<i32>` does.
pub fn parse_i32(s: &str) -> (r: Option<i32>)
    ensures
        r == parsed_i32(s@),
{
    let len = s.unicode_len();
    if len > 0 && s.get_char(0) == '-' {
        proof {
            assert(s@.subrange(1, len as int) =~= s@.drop_first());
        }
        match parse_digits(s, 1, 0x8000_0000) {
            Some(v) => Some((0i64 - v as i64) as i32),
            None => None,
        }
    } else {
        let start: usize = if len > 0 && s.get_char(0) == '+' { 1 } else { 0 };
        proof {
            assert(s@.subrange(start as int, len as int) =~= unsigned_digits(s@));
        }
        match parse_digits(s, start, 0x7FFF_FFFF) {
            Some(v) => Some(v as i32),
            None => None,
        }
    }
}

/// An optional setting: the value an environment variable holds, read as a
/// `u32`; the default when it is unset or does not read as one.
pub open spec fn u32_setting(value: Option<Seq<char>>, default: u32) -> u32 {
    match value {
        Some(s) => match parsed_u32(s) {
            Some(v) => v,
            None => default,
        },
        None => default,
    }
}

/// Reads an optional `u32` setting with its default.
pub fn u32_setting_or(value: Option<&str>, default: u32) -> (r: u32)
    ensures
        r == u32_setting(
            match value { Some(s) => Some(s@), None => None::<Seq<char>> },
            default,
        ),
{
    match value {
        Some(s) => match parse_u32(s) {
            Some(v) => v,
            None => default,
        },
        None => default,
    }
}

/// Settings of a sandboxed application.
#[derive(Debug, Clone, Copy, PartialEq, Eq, Structural)]
pub struct AppConfig {
    /// Descriptor of the shared framebuffer.
    pub fb_fd: i32,
    /// Descriptor of the control socket.
    pub ctrl_fd: i32,
    pub width: u32,
    pub height: u32,
    pub framerate: u32,
}

/// Why the settings cannot be read: a required descriptor is unset or not
/// an integer.
#[derive(Debug, Clone, Copy, PartialEq, Eq, Structural)]
pub enum ConfigError {
    FbFdUnset,
    FbFdNotInteger,
    CtrlFdUnset,
    CtrlFdNotInteger,
}

/// Default framebuffer width, height and frame rate.
pub const DEFAULT_APP_WIDTH: u32 = 800;
pub const DEFAULT_APP_HEIGHT: u32 = 600;
pub const DEFAULT_APP_FRAMERATE: u32 = 30;

/// A required descriptor setting.
pub open spec fn fd_setting(value: Option<Seq<char>>, unset: ConfigError, bad: ConfigError) -> Result<i32, ConfigError> {
    match value {
        None => Err(unset),
        Some(s) => match parsed_i32(s) {
            Some(v) => Ok(v),
            None => Err(bad),
        },
    }
}

/// The settings read from the values of `SANDBOX_FB_FD`, `SANDBOX_CTRL_FD`,
/// `SANDBOX_WIDTH`, `SANDBOX_HEIGHT` and `SANDBOX_FRAMERATE`: the
/// descriptors are required (checked in that order), the others default to
/// 800, 600 and 30.
pub open spec fn app_config_spec(
    fb_fd: Option<Seq<char>>,
    ctrl_fd: Option<Seq<char>>,
    width: Option<Seq<char>>,
    height: Option<Seq<char>>,
    framerate: Option<Seq<char>>,
) -> Result<AppConfig, ConfigError> {
    match fd_setting(fb_fd, ConfigError::FbFdUnset, ConfigError::FbFdNotInteger) {
        Err(e) => Err(e),
        Ok(fb) => match fd_setting(ctrl_fd, ConfigError::CtrlFdUnset, ConfigError::CtrlFdNotInteger) {
            Err(e) => Err(e),
            Ok(ctrl) => Ok(AppConfig {
                fb_fd: fb,
                ctrl_fd: ctrl,
                width: u32_setting(width, DEFAULT_APP_WIDTH),
                height: u32_setting(height, DEFAULT_APP_HEIGHT),
                framerate: u32_setting(framerate, DEFAULT_APP_FRAMERATE),
            }),
        },
    }
}

/// The view of an optional string slice.
pub open spec fn opt_view(v: Option<&str>) -> Option<Seq<char>> {
    match v {
        Some(s) => Some(s@),
        None => None,
    }
}

fn read_fd(value: Option<&str>, unset: ConfigError, bad: ConfigError) -> (r: Result<i32, ConfigError>)
    ensures
        r == fd_setting(opt_view(value), unset, bad),
{
    match value {
        None => Err(unset),
        Some(s) => match parse_i32(s) {
            Some(v) => Ok(v),
            None => Err(bad),
        },
    }
}

/// Reads an application's settings from the values of its environment
/// variables (`None` where a variable is unset).
pub fn read_app_config(
    fb_fd: Option<&str>,
    ctrl_fd: Option<&str>,
    width: Option<&str>,
    height: Option<&str>,
    framerate: Option<&str>,
) -> (r: Result<AppConfig, ConfigError>)
    ensures
        r == app_config_spec(opt_view(fb_fd), opt_view(ctrl_fd), opt_view(width), opt_view(height), opt_view(framerate)),
{
    let fb = match read_fd(fb_fd, ConfigError::FbFdUnset, ConfigError::FbFdNotInteger) {
        Ok(v) => v,
        Err(e) => return Err(e),
    };
    let ctrl = match read_fd(ctrl_fd, ConfigError::CtrlFdUnset, ConfigError::CtrlFdNotInteger) {
        Ok(v) => v,
        Err(e) => return Err(e),
    };
    Ok(AppConfig {
        fb_fd: fb,
        ctrl_fd: ctrl,
        width: u32_setting_or(width, DEFAULT_APP_WIDTH),
        height: u32_setting_or(height, DEFAULT_APP_HEIGHT),
        framerate: u32_setting_or(framerate, DEFAULT_APP_FRAMERATE),
    })
}

/// A digit character's value is the digit.
proof fn lemma_digit_char_value(d: nat)
    requires
        d < 10,
    ensures
        is_digit(digit_char(d)),
        digit_value(digit_char(d)) == d,
{
}

/// The decimal rendering of `n` is a non-empty digit string of value `n`
/// that does not start with a sign.
proof fn lemma_decimal_digits(n: nat)
    ensures
        decimal(n).len() > 0,
        all_digits(decimal(n)),
        digits_value(decimal(n)) == n,
        is_digit(decimal(n)[0]),
    decreases n,
{
    if n < 10 {
        lemma_digit_char_value(n);
        assert(decimal(n).drop_last() =~= Seq::<char>::empty());
        assert(digits_value(Seq::<char>::empty()) == 0);
        assert(digits_value(decimal(n)) == digits_value(decimal(n).drop_last()) * 10 + digit_value(decimal(n).last()));
    } else {
        lemma_decimal_digits(n / 10);
        lemma_digit_char_value(n % 10);
        let s = decimal(n);
        assert(s == decimal(n / 10).push(digit_char(n % 10)));
        assert(s.drop_last() =~= decimal(n / 10));
        assert(s[0] == decimal(n / 10)[0]);
        assert((n / 10) * 10 + n % 10 == n) by (nonlinear_arith);
        assert(digits_value(s) == digits_value(decimal(n / 10)) * 10 + digit_value(digit_char(n % 10)));
    }
}

/// Reading back the decimal rendering of a `u32` gives the number.
pub proof fn lemma_u32_decimal_roundtrip(n: u32)
    ensures
        parsed_u32(decimal(n as nat)) == Some(n),
{
    lemma_decimal_digits(n as nat);
}

/// Reading back the decimal rendering of an `i32` (with its sign) gives the
/// number.
pub proof fn lemma_i32_decimal_roundtrip(n: i32)
    ensures
        parsed_i32(signed_decimal(n as int)) == Some(n),
{
    if n < 0 {
        let m = (-(n as int)) as nat;
        lemma_decimal_digits(m);
        assert((seq!['-'] + decimal(m)).drop_first() =~= decimal(m));
    } else {
        lemma_decimal_digits(n as nat);
    }
}

/// An application reads back exactly the settings the server puts in its
/// environment: the descriptors, the framebuffer size and the frame rate.
pub proof fn lemma_app_reads_server_env(fb_fd: i32, ctrl_fd: i32, width: u32, height: u32, framerate: u32)
    ensures
        ({
            let env = native_app_env_spec(fb_fd, ctrl_fd, width, height, framerate);
            app_config_spec(Some(env[0].1), Some(env[1].1), Some(env[2].1), Some(env[3].1), Some(env[4].1))
                == Ok::<AppConfig, ConfigError>(AppConfig { fb_fd, ctrl_fd, width, height, framerate })
        }),
{
    lemma_i32_decimal_roundtrip(fb_fd);
    lemma_i32_decimal_roundtrip(ctrl_fd);
    lemma_u32_decimal_roundtrip(width);
    lemma_u32_decimal_roundtrip(height);
    lemma_u32_decimal_roundtrip(framerate);
}

} // verus!
