//! Text building blocks: decimal rendering of counters and file URIs.

use vstd::prelude::*;
use vstd::string::*;

verus! {

/// The character that stands for the decimal digit `d`.
pub open spec fn digit_char(d: nat) -> char {
    if d == 0 {
        '0'
    } else if d == 1 {
        '1'
    } else if d == 2 {
        '2'
    } else if d == 3 {
        '3'
    } else if d == 4 {
        '4'
    } else if d == 5 {
        '5'
    } else if d == 6 {
        '6'
    } else if d == 7 {
        '7'
    } else if d == 8 {
        '8'
    } else {
        '9'
    }
}

/// The decimal rendering of `n`, most significant digit first, without
/// leading zeros; zero renders as a single `0`.
pub open spec fn decimal(n: nat) -> Seq<char>
    decreases n,
{
    if n < 10 {
        seq![digit_char(n)]
    } else {
        decimal(n / 10).push(digit_char(n % 10))
    }
}

/// The one-character text of a decimal digit.
fn digit_str(d: usize) -> (s: &'static str)
    requires
        d < 10,
    ensures
        s@ == seq![digit_char(d as nat)],
{
    proof {
        reveal_strlit("0");
        reveal_strlit("1");
        reveal_strlit("2");
        reveal_strlit("3");
        reveal_strlit("4");
        reveal_strlit("5");
        reveal_strlit("6");
        reveal_strlit("7");
        reveal_strlit("8");
        reveal_strlit("9");
    }
    let s = if d == 0 {
        "0"
    } else if d == 1 {
        "1"
    } else if d == 2 {
        "2"
    } else if d == 3 {
        "3"
    } else if d == 4 {
        "4"
    } else if d == 5 {
        "5"
    } else if d == 6 {
        "6"
    } else if d == 7 {
        "7"
    } else if d == 8 {
        "8"
    } else {
        "9"
    };
    assert(s@ =~= seq![digit_char(d as nat)]);
    s
}

/// Appends the decimal rendering of `n` to `out`.
pub fn push_decimal(out: &mut String, n: usize)
    ensures
        final(out)@ == old(out)@ + decimal(n as nat),
    decreases n,
{
    if n >= 10 {
        push_decimal(out, n / 10);
    }
    out.append(digit_str(n % 10));
    assert(final(out)@ =~= old(out)@ + decimal(n as nat));
}

/// The decimal rendering of `n` as a fresh string.
pub fn decimal_string(n: usize) -> (s: String)
    ensures
        s@ == decimal(n as nat),
{
    let mut s = String::new();
    push_decimal(&mut s, n);
    assert(s@ =~= decimal(n as nat));
    s
}

/// The scheme prefix under which picked paths travel through the front-end.
pub open spec fn uri_prefix() -> Seq<char> {
    "file:///"@
}

/// The file URI that stands for `path`.
pub open spec fn file_uri_of(path: Seq<char>) -> Seq<char> {
    uri_prefix() + path
}

/// The plain path that a file URI stands for: the text behind the scheme
/// prefix, or the whole text where it carries no such prefix.
pub open spec fn bare_path_of(uri: Seq<char>) -> Seq<char> {
    if uri_prefix().is_prefix_of(uri) {
        uri.skip(uri_prefix().len() as int)
    } else {
        uri
    }
}

/// Whether `text` begins with `prefix`.
pub fn starts_with(text: &str, prefix: &str) -> (r: bool)
    ensures
        r == prefix@.is_prefix_of(text@),
{
    let n = prefix.unicode_len();
    if text.unicode_len() < n {
        return false;
    }
    let mut i: usize = 0;
    while i < n
        invariant
            i <= n,
            n == prefix@.len(),
            n <= text@.len(),
            forall|j: int| 0 <= j < i ==> text@[j] == prefix@[j],
        decreases n - i,
    {
        if text.get_char(i) != prefix.get_char(i) {
            assert(text@.subrange(0, n as int)[i as int] != prefix@[i as int]);
            return false;
        }
        i = i + 1;
    }
    assert(text@.subrange(0, n as int) =~= prefix@);
    true
}

/// Wraps a picked path into a file URI.
pub fn file_uri(path: &str) -> (uri: String)
    ensures
        uri@ == file_uri_of(path@),
{
    let uri = String::from_str("file:///").concat(path);
    assert(uri@ =~= file_uri_of(path@));
    uri
}

/// Unwraps a file URI into the plain path that workers expect.
pub fn bare_path(uri: &str) -> (path: String)
    ensures
        path@ == bare_path_of(uri@),
{
    if starts_with(uri, "file:///") {
        let from = "file:///".unicode_len();
        let to = uri.unicode_len();
        String::from_str(uri.substring_char(from, to))
    } else {
        String::from_str(uri)
    }
}

/// Wrapping a path into a file URI and unwrapping it again gives the path
/// back, whatever the path holds.
pub proof fn lemma_file_uri_round_trip(path: Seq<char>)
    ensures
        bare_path_of(file_uri_of(path)) == path,
{
    let uri = file_uri_of(path);
    assert(uri.subrange(0, uri_prefix().len() as int) =~= uri_prefix());
    assert(uri.skip(uri_prefix().len() as int) =~= path);
}

} // verus!
