//! Small helpers of the web layer: form anti-forgery tokens, option validation and the
//! login redirect.

use vstd::prelude::*;
use vstd::string::*;

verus! {

/// The body of a JSON error response.
#[derive(Debug, Clone)]
pub struct JsonErrorResponse {
    pub code: String,
    pub message: String,
}

/// Characters in a form anti-forgery token.
pub const CSRF_TOKEN_LEN: usize = 30;

pub open spec fn is_ascii_alphanumeric(c: char) -> bool {
    ('a' <= c && c <= 'z') || ('A' <= c && c <= 'Z') || ('0' <= c && c <= '9')
}

/// Relies on rand's `SampleString::sample_string` for the `Alphanumeric` distribution
/// with the thread-local generator: `len` characters, each an ASCII letter or digit.
#[verifier::external_body]
fn random_alphanumeric(len: usize) -> (r: String)
    ensures
        r@.len() == len,
        forall|i: int| 0 <= i < len ==> is_ascii_alphanumeric(#[trigger] r@[i]),
{
    rand::distr::SampleString::sample_string(&rand::distr::Alphanumeric, &mut rand::rng(), len)
}

/// A fresh anti-forgery token for a form: 30 random ASCII letters and digits.
pub fn gen_csrf_token() -> (r: String)
    ensures
        r@.len() == CSRF_TOKEN_LEN,
        forall|i: int| 0 <= i < r@.len() ==> is_ascii_alphanumeric(#[trigger] r@[i]),
{
    random_alphanumeric(CSRF_TOKEN_LEN)
}

pub open spec fn is_valid_value(valid_values: Seq<String>, v: Seq<char>) -> bool {
    exists|i: int| 0 <= i < valid_values.len() && (#[trigger] valid_values[i])@ == v
}

/// The option if it is one of the valid values, else the default.
pub fn validate_option(option: Option<String>, valid_values: &[String], default_value: &str) -> (r: String)
    ensures
        (option matches Some(o) && is_valid_value(valid_values@, o@)) ==> r == option->0,
        !(option matches Some(o) && is_valid_value(valid_values@, o@)) ==> r@ == default_value@,
{
    if let Some(o) = option {
        let mut i: usize = 0;
        while i < valid_values.len()
            invariant
                i <= valid_values@.len(),
                option == Some(o),
                forall|j: int| 0 <= j < i ==> (#[trigger] valid_values@[j])@ != o@,
            decreases valid_values@.len() - i,
        {
            if valid_values[i].eq(&o) {
                assert(is_valid_value(valid_values@, o@));
                return o;
            }
            i = i + 1;
        }
        assert(!is_valid_value(valid_values@, o@));
    }
    default_value.to_owned()
}

/// Bytes that stand for themselves in an encoded path: unreserved characters and `/`.
pub open spec fn keeps_byte(b: u8) -> bool {
    (0x61 <= b && b <= 0x7a) || (0x41 <= b && b <= 0x5a) || (0x30 <= b && b <= 0x39)
        || b == 0x2d || b == 0x2e || b == 0x5f || b == 0x7e || b == 0x2f
}

pub open spec fn upper_hex_alphabet() -> Seq<char> {
    seq!['0', '1', '2', '3', '4', '5', '6', '7', '8', '9', 'A', 'B', 'C', 'D', 'E', 'F']
}

/// One byte of a path, percent-encoded.
pub open spec fn encode_byte(b: u8) -> Seq<char> {
    if keeps_byte(b) {
        seq![b as char]
    } else {
        seq!['%', upper_hex_alphabet()[(b / 16) as int], upper_hex_alphabet()[(b % 16) as int]]
    }
}

/// The UTF-8 bytes of a path, percent-encoded one by one.
pub open spec fn percent_encoded(bytes: Seq<u8>) -> Seq<char>
    decreases bytes.len(),
{
    if bytes.len() == 0 {
        Seq::empty()
    } else {
        percent_encoded(bytes.drop_last()) + encode_byte(bytes.last())
    }
}

/// Relies on std's `String::push`: the character is appended.
#[verifier::external_body]
fn push_char(s: &mut String, c: char)
    ensures
        final(s)@ == old(s)@.push(c),
{
    s.push(c)
}

fn upper_hex_char(d: u8) -> (r: char)
    requires
        d < 16,
    ensures
        r == upper_hex_alphabet()[d as int],
{
    match d {
        0 => '0', 1 => '1', 2 => '2', 3 => '3', 4 => '4', 5 => '5', 6 => '6', 7 => '7',
        8 => '8', 9 => '9', 10 => 'A', 11 => 'B', 12 => 'C', 13 => 'D', 14 => 'E', _ => 'F',
    }
}

/// `path` with every byte but unreserved characters and `/` percent-encoded.
pub fn percent_encode(path: &str) -> (r: String)
    ensures
        r@ == percent_encoded(path.spec_bytes()),
{
    let bytes = path.as_bytes();
    let mut out = String::new();
    let mut i: usize = 0;
    while i < bytes.len()
        invariant
            i <= bytes@.len(),
            bytes@ == path.spec_bytes(),
            out@ == percent_encoded(bytes@.subrange(0, i as int)),
        decreases bytes@.len() - i,
    {
        let b = bytes[i];
        let keep = (0x61 <= b && b <= 0x7a) || (0x41 <= b && b <= 0x5a) || (0x30 <= b && b <= 0x39)
            || b == 0x2d || b == 0x2e || b == 0x5f || b == 0x7e || b == 0x2f;
        if keep {
            push_char(&mut out, b as char);
        } else {
            push_char(&mut out, '%');
            push_char(&mut out, upper_hex_char(b / 16));
            push_char(&mut out, upper_hex_char(b % 16));
        }
        proof {
            let s = bytes@.subrange(0, i as int + 1);
            assert(s.drop_last() =~= bytes@.subrange(0, i as int));
            assert(s.last() == b);
        }
        i = i + 1;
        assert(out@ =~= percent_encoded(bytes@.subrange(0, i as int)));
    }
    assert(bytes@.subrange(0, bytes@.len() as int) =~= bytes@);
    out
}

/// Where an unauthenticated request is sent: the login page, with the requested path to
/// come back to.
pub fn not_authorized(path: &str) -> (r: String)
    ensures
        r@ == "/auth/login?return_to="@ + percent_encoded(path.spec_bytes()),
{
    "/auth/login?return_to=".to_owned().concat(percent_encode(path).as_str())
}

/// Whether a navigation link is the active one: its target equals the current path
/// when `exact`, else it is a prefix of it.
pub fn is_active(current_path: &str, href: &str, exact: bool) -> (r: bool)
    ensures
        exact ==> r == (current_path.spec_bytes() == href.spec_bytes()),
        !exact ==> r == href.spec_bytes().is_prefix_of(current_path.spec_bytes()),
{
    let c = current_path.as_bytes();
    let h = href.as_bytes();
    if h.len() > c.len() || (exact && h.len() != c.len()) {
        return false;
    }
    let mut i: usize = 0;
    while i < h.len()
        invariant
            h@ == href.spec_bytes(),
            c@ == current_path.spec_bytes(),
            h@.len() <= c@.len(),
            i <= h@.len(),
            forall|j: int| 0 <= j < i ==> h@[j] == c@[j],
        decreases h@.len() - i,
    {
        if h[i] != c[i] {
            assert(!h@.is_prefix_of(c@));
            return false;
        }
        i = i + 1;
    }
    assert(c@.subrange(0, h@.len() as int) =~= h@);
    assert(h@.is_prefix_of(c@));
    if exact {
        assert(c@ =~= h@);
    }
    true
}

} // verus!
