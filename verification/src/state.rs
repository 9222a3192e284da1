//! Application settings.
//!
//! The shared, lock-protected application state lives at the edge of the
//! program; the settings record, its defaults and the way the HTTP bearer
//! token is formed are defined here.
use vstd::prelude::*;

use std::path::PathBuf;

verus! {

/// `std::path::PathBuf`, carried through unchanged.
#[verifier::external_type_specification]
#[verifier::external_body]
pub struct ExPathBuf(PathBuf);

/// User settings.
#[derive(Debug)]
pub struct Settings {
    /// If true, don't fight Govee Home for UDP 4002 (slower discovery).
    pub conflict_safe: bool,
    /// If true, expose the LAN HTTP control endpoint. Off by default.
    pub http_enabled: bool,
    /// Port for the LAN HTTP server.
    pub http_port: u16,
    /// Bearer token required for HTTP control.
    pub http_token: String,
    /// Target frame rate for the screen-capture effect.
    pub capture_fps: u32,
    /// Folder for persistent settings.json.
    pub data_dir: PathBuf,
}

/// Default port of the LAN HTTP server.
pub const DEFAULT_HTTP_PORT: u16 = 7878;

/// Default frame rate of the screen-capture effect.
pub const DEFAULT_CAPTURE_FPS: u32 = 30;

/// Longest bearer token generated.
pub const TOKEN_MAX_LEN: usize = 32;

impl Settings {
    /// The default settings, given a freshly generated token and the data
    /// folder for this machine: conflict-safe discovery and the HTTP
    /// server off, port 7878, 30 frames per second.
    pub fn with_defaults(http_token: String, data_dir: PathBuf) -> (s: Settings)
        ensures
            !s.conflict_safe,
            !s.http_enabled,
            s.http_port == DEFAULT_HTTP_PORT,
            s.http_token@ == http_token@,
            s.capture_fps == DEFAULT_CAPTURE_FPS,
            s.data_dir == data_dir,
    {
        Settings {
            conflict_safe: false,
            http_enabled: false,
            http_port: DEFAULT_HTTP_PORT,
            http_token,
            capture_fps: DEFAULT_CAPTURE_FPS,
            data_dir,
        }
    }
}

/// Lowercase hexadecimal digit for `d` (0..=15).
pub open spec fn hex_digit(d: nat) -> char {
    if d == 0 {
        '0'
    } else if d == 1 {
        '1'
    } else if d == 2 {
        '2'
    } else if d == 3 {
        '3'
    } else if d == 4 {
        '4'
    } else if d == 5 {
        '5'
    } else if d == 6 {
        '6'
    } else if d == 7 {
        '7'
    } else if d == 8 {
        '8'
    } else if d == 9 {
        '9'
    } else if d == 10 {
        'a'
    } else if d == 11 {
        'b'
    } else if d == 12 {
        'c'
    } else if d == 13 {
        'd'
    } else if d == 14 {
        'e'
    } else {
        'f'
    }
}

/// Lowercase hexadecimal text of `n` without leading zeros ("0" for zero).
pub open spec fn hex_text(n: nat) -> Seq<char>
    decreases n,
{
    if n < 16 {
        seq![hex_digit(n)]
    } else {
        hex_text(n / 16) + seq![hex_digit(n % 16)]
    }
}

/// The token formed from a clock reading and a process id: the hex text
/// of both, cut to at most 32 characters.
pub open spec fn token_text(nanos: u128, pid: u32) -> Seq<char> {
    let s = hex_text(nanos as nat) + hex_text(pid as nat);
    if s.len() <= TOKEN_MAX_LEN {
        s
    } else {
        s.take(TOKEN_MAX_LEN as int)
    }
}

/// One hexadecimal digit as text.
fn hex_digit_text(d: u128) -> (s: &'static str)
    requires
        d < 16,
    ensures
        s@ == seq![hex_digit(d as nat)],
{
    proof {
        reveal_strlit("0");
        reveal_strlit("1");
        reveal_strlit("2");
        reveal_strlit("3");
        reveal_strlit("4");
        reveal_strlit("5");
        reveal_strlit("6");
        reveal_strlit("7");
        reveal_strlit("8");
        reveal_strlit("9");
        reveal_strlit("a");
        reveal_strlit("b");
        reveal_strlit("c");
        reveal_strlit("d");
        reveal_strlit("e");
        reveal_strlit("f");
    }
    let s = if d == 0 {
        "0"
    } else if d == 1 {
        "1"
    } else if d == 2 {
        "2"
    } else if d == 3 {
        "3"
    } else if d == 4 {
        "4"
    } else if d == 5 {
        "5"
    } else if d == 6 {
        "6"
    } else if d == 7 {
        "7"
    } else if d == 8 {
        "8"
    } else if d == 9 {
        "9"
    } else if d == 10 {
        "a"
    } else if d == 11 {
        "b"
    } else if d == 12 {
        "c"
    } else if d == 13 {
        "d"
    } else if d == 14 {
        "e"
    } else {
        "f"
    };
    assert(s@ =~= seq![hex_digit(d as nat)]);
    s
}

/// Append the hex text of `n` to `out`.
fn append_hex(out: &mut String, n: u128)
    ensures
        final(out)@ == old(out)@ + hex_text(n as nat),
    decreases n,
{
    if n >= 16 {
        append_hex(out, n / 16);
    }
    out.append(hex_digit_text(n % 16));
    proof {
        if n >= 16 {
            assert(hex_text(n as nat) == hex_text((n / 16) as nat) + seq![hex_digit((n % 16) as nat)]);
        }
        assert(final(out)@ =~= old(out)@ + hex_text(n as nat));
    }
}

/// The HTTP bearer token for a clock reading (nanoseconds since the Unix
/// epoch) and a process id. Not cryptographic: just enough entropy that a
/// neighbour's token cannot be guessed over the LAN.
pub fn token_from(nanos: u128, pid: u32) -> (t: String)
    ensures
        t@ == token_text(nanos, pid),
{
    let mut s = String::new();
    append_hex(&mut s, nanos);
    append_hex(&mut s, pid as u128);
    assert(s@ =~= hex_text(nanos as nat) + hex_text(pid as nat));
    let n = s.as_str().unicode_len();
    if n <= TOKEN_MAX_LEN {
        s
    } else {
        s.as_str().substring_char(0, TOKEN_MAX_LEN).to_owned()
    }
}

/// The value of a hexadecimal digit character (0 for anything else).
pub open spec fn digit_value(c: char) -> nat {
    if c == '0' {
        0
    } else if c == '1' {
        1
    } else if c == '2' {
        2
    } else if c == '3' {
        3
    } else if c == '4' {
        4
    } else if c == '5' {
        5
    } else if c == '6' {
        6
    } else if c == '7' {
        7
    } else if c == '8' {
        8
    } else if c == '9' {
        9
    } else if c == 'a' {
        10
    } else if c == 'b' {
        11
    } else if c == 'c' {
        12
    } else if c == 'd' {
        13
    } else if c == 'e' {
        14
    } else if c == 'f' {
        15
    } else {
        0
    }
}

/// The number a string of hexadecimal digits denotes, most significant
/// digit first.
pub open spec fn hex_value(s: Seq<char>) -> nat
    decreases s.len(),
{
    if s.len() == 0 {
        0
    } else {
        hex_value(s.drop_last()) * 16 + digit_value(s.last())
    }
}

proof fn lemma_digit_round_trip(d: nat)
    requires
        d < 16,
    ensures
        digit_value(hex_digit(d)) == d,
        d > 0 ==> hex_digit(d) != '0',
{
}

/// Hex text reads back as the number it was made from, and has no leading
/// zero except for zero itself.
pub proof fn law_hex_text_reads_back(n: nat)
    ensures
        hex_value(hex_text(n)) == n,
        n > 0 ==> hex_text(n)[0] != '0',
    decreases n,
{
    if n < 16 {
        lemma_digit_round_trip(n);
        let h = hex_text(n);
        assert(h.drop_last() =~= Seq::<char>::empty());
        assert(hex_value(h.drop_last()) == 0);
        assert(h.last() == hex_digit(n));
    } else {
        lemma_digit_round_trip(n % 16);
        law_hex_text_reads_back(n / 16);
        let h = hex_text(n);
        assert(h.drop_last() =~= hex_text(n / 16));
        assert(h[0] == hex_text(n / 16)[0]);
        assert(h.last() == hex_digit(n % 16));
        assert(hex_value(h) == hex_value(hex_text(n / 16)) * 16 + digit_value(h.last()));
        vstd::arithmetic::div_mod::lemma_fundamental_div_mod(n as int, 16);
    }
}

/// When the two hex texts fit in a token, the token is the clock reading's
/// hex text followed by the process id's, each reading back as its number.
pub proof fn law_token_reads_back(nanos: u128, pid: u32)
    ensures
        ({
            let a = hex_text(nanos as nat);
            let b = hex_text(pid as nat);
            let t = token_text(nanos, pid);
            a.len() + b.len() <= TOKEN_MAX_LEN ==> {
                &&& t.len() == a.len() + b.len()
                &&& hex_value(t.subrange(0, a.len() as int)) == nanos
                &&& hex_value(t.subrange(a.len() as int, t.len() as int)) == pid
            }
        }),
{
    law_hex_text_reads_back(nanos as nat);
    law_hex_text_reads_back(pid as nat);
    let a = hex_text(nanos as nat);
    let b = hex_text(pid as nat);
    let t = token_text(nanos, pid);
    if a.len() + b.len() <= TOKEN_MAX_LEN {
        assert(t.subrange(0, a.len() as int) =~= a);
        assert(t.subrange(a.len() as int, t.len() as int) =~= b);
    }
}

/// Hex text is never empty and consists of hex digits only.
proof fn lemma_hex_text_digits(n: nat)
    ensures
        hex_text(n).len() >= 1,
        forall|i: int| 0 <= i < hex_text(n).len() ==> exists|d: nat| d < 16 && #[trigger] hex_text(n)[i] == hex_digit(d),
    decreases n,
{
    if n < 16 {
        assert(hex_text(n)[0] == hex_digit(n));
    } else {
        lemma_hex_text_digits(n / 16);
        let h = hex_text(n);
        assert forall|i: int| 0 <= i < h.len() implies exists|d: nat| d < 16 && #[trigger] h[i] == hex_digit(d) by {
            if i < hex_text(n / 16).len() {
                assert(h[i] == hex_text(n / 16)[i]);
            } else {
                assert(h[i] == hex_digit(n % 16));
            }
        }
    }
}

/// A generated token is between 2 and 32 characters long and made of
/// lowercase hexadecimal digits only.
pub proof fn law_token_shape(nanos: u128, pid: u32)
    ensures
        2 <= token_text(nanos, pid).len() <= TOKEN_MAX_LEN,
        forall|i: int|
            0 <= i < token_text(nanos, pid).len() ==> exists|d: nat|
                d < 16 && #[trigger] token_text(nanos, pid)[i] == hex_digit(d),
{
    lemma_hex_text_digits(nanos as nat);
    lemma_hex_text_digits(pid as nat);
    let a = hex_text(nanos as nat);
    let b = hex_text(pid as nat);
    let s = a + b;
    let t = token_text(nanos, pid);
    assert forall|i: int| 0 <= i < t.len() implies exists|d: nat| d < 16 && #[trigger] t[i] == hex_digit(d) by {
        assert(t[i] == s[i]);
        if i < a.len() {
            assert(s[i] == a[i]);
        } else {
            assert(s[i] == b[i - a.len()]);
        }
    }
}

} // verus!
