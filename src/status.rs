use vstd::prelude::*;

verus! {

/// The color in which the status line is drawn.
#[derive(Clone, Copy, Debug, PartialEq, Eq, Structural)]
pub enum StatusColor {
    Red,
    Green,
    Gray,
}

pub open spec fn starts_with(s: Seq<char>, prefix: Seq<char>) -> bool {
    prefix.len() <= s.len() && s.subrange(0, prefix.len() as int) == prefix
}

/// Red for a status that begins with `Error`, green for one that begins with
/// `Success`, gray for any other.
pub open spec fn color_of(status: Seq<char>) -> StatusColor {
    if starts_with(status, "Error"@) {
        StatusColor::Red
    } else if starts_with(status, "Success"@) {
        StatusColor::Green
    } else {
        StatusColor::Gray
    }
}

/// True when `s` begins with `prefix`.
pub fn has_prefix(s: &str, prefix: &str) -> (r: bool)
    ensures
        r == starts_with(s@, prefix@),
{
    let n = prefix.unicode_len();
    if n > s.unicode_len() {
        return false;
    }
    let mut i: usize = 0;
    while i < n
        invariant
            n == prefix@.len(),
            n <= s@.len(),
            i <= n,
            s@.subrange(0, i as int) == prefix@.subrange(0, i as int),
        decreases n - i,
    {
        if s.get_char(i) != prefix.get_char(i) {
            assert(s@.subrange(0, n as int)[i as int] != prefix@[i as int]);
            return false;
        }
        assert(s@.subrange(0, i + 1) == s@.subrange(0, i as int).push(s@[i as int]));
        assert(prefix@.subrange(0, i + 1) == prefix@.subrange(0, i as int).push(prefix@[i as int]));
        i = i + 1;
    }
    assert(prefix@ == prefix@.subrange(0, n as int));
    true
}

/// The color of a status line, from its prefix alone.
pub fn status_color(status: &str) -> (r: StatusColor)
    ensures
        r == color_of(status@),
{
    if has_prefix(status, "Error") {
        StatusColor::Red
    } else if has_prefix(status, "Success") {
        StatusColor::Green
    } else {
        StatusColor::Gray
    }
}

/// A status that begins with `Error` is red and one that begins with `Success`
/// is green, whatever follows; one that begins with neither is gray.
pub proof fn lemma_color_follows_prefix(rest: Seq<char>, other: Seq<char>)
    requires
        !starts_with(other, "Error"@),
        !starts_with(other, "Success"@),
    ensures
        color_of("Error"@ + rest) == StatusColor::Red,
        color_of("Success"@ + rest) == StatusColor::Green,
        color_of(other) == StatusColor::Gray,
{
    reveal_strlit("Error");
    reveal_strlit("Success");
    let e = "Error"@ + rest;
    let s = "Success"@ + rest;
    assert(e.subrange(0, 5) == "Error"@);
    assert(s.subrange(0, 7) == "Success"@);
    assert(s.subrange(0, 5)[0] != "Error"@[0]);
}

} // verus!
