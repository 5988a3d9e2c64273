//! Text helpers: decimal rendering, ASCII filters and the fixed messages.

use vstd::prelude::*;

verus! {

/// What `str::to_lowercase` returns for a string: the Unicode lowercase mapping
/// of its characters.
pub uninterp spec fn lower_of(s: Seq<char>) -> Seq<char>;

/// Relies on `str::to_lowercase`: the result depends on the characters alone.
#[verifier::external_body]
pub(crate) fn lowercase(s: &str) -> (r: String)
    ensures
        r@ == lower_of(s@),
{
    s.to_lowercase()
}

/// Relies on `String::push`: the character is appended at the end.
#[verifier::external_body]
pub(crate) fn push_char(s: &mut String, c: char)
    ensures
        final(s)@ == old(s)@.push(c),
{
    s.push(c)
}

pub open spec fn is_ascii_alphanumeric(c: char) -> bool {
    ('0' <= c && c <= '9') || ('a' <= c && c <= 'z') || ('A' <= c && c <= 'Z')
}

/// The characters of `s` that are ASCII letters or digits, in order.
pub open spec fn keep_alphanumeric(s: Seq<char>) -> Seq<char>
    decreases s.len(),
{
    if s.len() == 0 {
        Seq::empty()
    } else {
        let rest = keep_alphanumeric(s.drop_last());
        if is_ascii_alphanumeric(s.last()) {
            rest.push(s.last())
        } else {
            rest
        }
    }
}

/// Keeps the ASCII letters and digits of `s`, dropping every other character.
pub fn retain_alphanumeric(s: &str) -> (r: String)
    ensures
        r@ == keep_alphanumeric(s@),
{
    let n = s.unicode_len();
    let mut out = String::new();
    let mut i: usize = 0;
    while i < n
        invariant
            n == s@.len(),
            i <= n,
            out@ == keep_alphanumeric(s@.subrange(0, i as int)),
        decreases n - i,
    {
        let c = s.get_char(i);
        assert(s@.subrange(0, i + 1).drop_last() =~= s@.subrange(0, i as int));
        if ('0' <= c && c <= '9') || ('a' <= c && c <= 'z') || ('A' <= c && c <= 'Z') {
            push_char(&mut out, c);
        }
        i = i + 1;
    }
    assert(s@.subrange(0, n as int) =~= s@);
    out
}

pub open spec fn digit_char(d: nat) -> char {
    if d == 0 { '0' }
    else if d == 1 { '1' }
    else if d == 2 { '2' }
    else if d == 3 { '3' }
    else if d == 4 { '4' }
    else if d == 5 { '5' }
    else if d == 6 { '6' }
    else if d == 7 { '7' }
    else if d == 8 { '8' }
    else { '9' }
}

/// The decimal digits of `n`, most significant first, without leading zeros.
pub open spec fn decimal(n: nat) -> Seq<char>
    decreases n,
{
    if n < 10 {
        seq![digit_char(n)]
    } else {
        decimal(n / 10).push(digit_char(n % 10))
    }
}

/// `n` written with at least two digits (a leading zero below ten).
pub open spec fn two_digits(n: nat) -> Seq<char> {
    if n < 10 {
        seq!['0'].add(decimal(n))
    } else {
        decimal(n)
    }
}

fn digit_text(d: u64) -> (r: &'static str)
    requires
        d < 10,
    ensures
        r@ == seq![digit_char(d as nat)],
{
    proof {
        reveal_strlit("0");
        reveal_strlit("1");
        reveal_strlit("2");
        reveal_strlit("3");
        reveal_strlit("4");
        reveal_strlit("5");
        reveal_strlit("6");
        reveal_strlit("7");
        reveal_strlit("8");
        reveal_strlit("9");
    }
    if d == 0 { "0" }
    else if d == 1 { "1" }
    else if d == 2 { "2" }
    else if d == 3 { "3" }
    else if d == 4 { "4" }
    else if d == 5 { "5" }
    else if d == 6 { "6" }
    else if d == 7 { "7" }
    else if d == 8 { "8" }
    else { "9" }
}

/// Renders `n` in decimal.
pub fn decimal_text(n: u128) -> (r: String)
    ensures
        r@ == decimal(n as nat),
    decreases n,
{
    if n < 10 {
        String::from_str(digit_text(n as u64))
    } else {
        let mut s = decimal_text(n / 10);
        s.append(digit_text((n % 10) as u64));
        s
    }
}

/// Renders `n` in decimal with at least two digits.
pub fn two_digit_text(n: u128) -> (r: String)
    ensures
        r@ == two_digits(n as nat),
{
    if n < 10 {
        proof {
            reveal_strlit("0");
        }
        let mut s = String::from_str("0");
        let d = decimal_text(n);
        s.append(d.as_str());
        s
    } else {
        decimal_text(n)
    }
}

/// The greeting returned to a caller that gives its name.
pub fn greet(name: &str) -> (r: String)
    ensures
        r@ == "Hello, "@ + name@ + "! You've been greeted from Rust!"@,
{
    let mut s = String::from_str("Hello, ");
    s.append(name);
    s.append("! You've been greeted from Rust!");
    s
}

/// The notification shown once a game has been downloaded.
pub fn generate_download_complete_message(game_name: &str) -> (r: String)
    ensures
        r@ == game_name@ + " has been successfully downloaded."@,
{
    let mut s = String::from_str(game_name);
    s.append(" has been successfully downloaded.");
    s
}

} // verus!
