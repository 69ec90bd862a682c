use vstd::prelude::*;
use vstd::string::*;

verus! {

/// Appends a `char` to a `String` (`String::push`, documented as "Appends the
/// given char to the end of this String").
pub assume_specification[ String::push ](s: &mut String, ch: char)
    ensures
        final(s)@ == old(s)@.push(ch),
;

/// Whether `c` has the Unicode `White_Space` property (what `char::is_whitespace`
/// tests, and so what `str::trim` strips).
pub open spec fn is_unicode_whitespace(c: char) -> bool {
    let u = c as u32;
    ||| 0x09 <= u <= 0x0d
    ||| u == 0x20
    ||| u == 0x85
    ||| u == 0xa0
    ||| u == 0x1680
    ||| 0x2000 <= u <= 0x200a
    ||| u == 0x2028
    ||| u == 0x2029
    ||| u == 0x202f
    ||| u == 0x205f
    ||| u == 0x3000
}

/// Executable `White_Space` test.
pub fn is_whitespace_char(c: char) -> (r: bool)
    ensures
        r == is_unicode_whitespace(c),
{
    let u = c as u32;
    (0x09 <= u && u <= 0x0d) || u == 0x20 || u == 0x85 || u == 0xa0 || u == 0x1680 || (0x2000
        <= u && u <= 0x200a) || u == 0x2028 || u == 0x2029 || u == 0x202f || u == 0x205f || u
        == 0x3000
}

/// A line-ending character (`\n` or `\r`).
pub open spec fn is_newline(c: char) -> bool {
    c == '\n' || c == '\r'
}

/// `s` with every trailing `\n` / `\r` removed.
pub open spec fn strip_trailing_newlines(s: Seq<char>) -> Seq<char>
    decreases s.len(),
{
    if s.len() > 0 && is_newline(s.last()) {
        strip_trailing_newlines(s.drop_last())
    } else {
        s
    }
}

/// `s` with its leading whitespace removed.
pub open spec fn trim_start_ws(s: Seq<char>) -> Seq<char>
    decreases s.len(),
{
    if s.len() > 0 && is_unicode_whitespace(s[0]) {
        trim_start_ws(s.drop_first())
    } else {
        s
    }
}

/// `s` with its trailing whitespace removed.
pub open spec fn trim_end_ws(s: Seq<char>) -> Seq<char>
    decreases s.len(),
{
    if s.len() > 0 && is_unicode_whitespace(s.last()) {
        trim_end_ws(s.drop_last())
    } else {
        s
    }
}

/// `s` with leading and trailing whitespace removed (`str::trim`).
pub open spec fn trim_ws(s: Seq<char>) -> Seq<char> {
    trim_end_ws(trim_start_ws(s))
}

/// Everything after the first space of `s`, or `None` when `s` has no space.
pub open spec fn after_first_space(s: Seq<char>) -> Option<Seq<char>>
    decreases s.len(),
{
    if s.len() == 0 {
        None
    } else if s[0] == ' ' {
        Some(s.drop_first())
    } else {
        after_first_space(s.drop_first())
    }
}

/// The marker the type-smoke asserts on: the trimmed argument after the first
/// space of the script (trailing line endings removed first); when there is
/// no space, or the argument trims to nothing, the whole script without its
/// trailing line endings.
pub open spec fn spec_smoke_marker(script: Seq<char>) -> Seq<char> {
    let t = strip_trailing_newlines(script);
    match after_first_space(t) {
        Some(rest) => if trim_ws(rest).len() > 0 { trim_ws(rest) } else { t },
        None => t,
    }
}

/// The substring the type-smoke asserts on: the argument of the scripted
/// `echo <marker>` (everything after the first space, trimmed, with the
/// trailing newline removed). For a non-echo script, falls back to the whole
/// script without its trailing newlines.
pub fn smoke_marker(script: &str) -> (r: String)
    ensures
        r@ == spec_smoke_marker(script@),
{
    let ghost s = script@;
    let n = script.unicode_len();
    // Drop trailing line endings.
    let mut end: usize = n;
    assert(s.take(n as int) =~= s);
    while end > 0 && (script.get_char(end - 1) == '\n' || script.get_char(end - 1) == '\r')
        invariant
            end <= n,
            n == s.len(),
            s == script@,
            strip_trailing_newlines(s.take(end as int)) == strip_trailing_newlines(s),
        decreases end,
    {
        assert(s.take(end as int).drop_last() =~= s.take(end - 1));
        end = end - 1;
    }
    assert(strip_trailing_newlines(s.take(end as int)) == s.take(end as int));
    let ghost t = s.take(end as int);
    // Find the first space.
    let mut i: usize = 0;
    assert(t.skip(0) =~= t);
    while i < end && script.get_char(i) != ' '
        invariant
            i <= end,
            end <= n,
            n == s.len(),
            s == script@,
            t == s.take(end as int),
            after_first_space(t) == after_first_space(t.skip(i as int)),
        decreases end - i,
    {
        assert(t.skip(i as int).drop_first() =~= t.skip(i + 1));
        i = i + 1;
    }
    if i < end {
        assert(after_first_space(t.skip(i as int)) == Some(t.skip(i + 1))) by {
            assert(t.skip(i as int).drop_first() =~= t.skip(i + 1));
        }
        let ghost rest = t.skip(i + 1);
        // Trim leading whitespace of the argument.
        let mut a: usize = i + 1;
        assert(rest =~= s.subrange(i + 1, end as int));
        while a < end && is_whitespace_char(script.get_char(a))
            invariant
                i + 1 <= a <= end,
                end <= n,
                n == s.len(),
                s == script@,
                rest == s.subrange(i + 1, end as int),
                trim_start_ws(rest) == trim_start_ws(s.subrange(a as int, end as int)),
            decreases end - a,
        {
            assert(s.subrange(a as int, end as int).drop_first() =~= s.subrange(a + 1, end as int));
            a = a + 1;
        }
        assert(trim_start_ws(s.subrange(a as int, end as int)) == s.subrange(a as int, end as int));
        // Trim trailing whitespace.
        let mut b: usize = end;
        while b > a && is_whitespace_char(script.get_char(b - 1))
            invariant
                a <= b <= end,
                end <= n,
                n == s.len(),
                s == script@,
                trim_ws(rest) == trim_end_ws(s.subrange(a as int, b as int)),
            decreases b,
        {
            assert(s.subrange(a as int, b as int).drop_last() =~= s.subrange(a as int, b - 1));
            b = b - 1;
        }
        assert(trim_end_ws(s.subrange(a as int, b as int)) == s.subrange(a as int, b as int));
        if a < b {
            return String::from_str(script.substring_char(a, b));
        }
    }
    String::from_str(script.substring_char(0, end))
}

/// The synthetic `(macOS keyCode, characters)` pair for one script character
/// of the type-smoke: line endings map to Return (`0x24`, `"\r"`), a space to
/// Space (`0x31`, `" "`), and anything else to keycode 0 carrying the
/// character itself.
pub open spec fn spec_synth_key_for_char(ch: char) -> (u16, Seq<char>) {
    if ch == '\n' || ch == '\r' {
        (0x24, seq!['\r'])
    } else if ch == ' ' {
        (0x31, seq![' '])
    } else {
        (0, seq![ch])
    }
}

/// Map a script character to a synthetic `(macOS keyCode, characters-string)`
/// pair for building a `keyDown` event. Newline maps to Return.
pub fn synth_key_for_char(ch: char) -> (r: (u16, String))
    ensures
        r.0 == spec_synth_key_for_char(ch).0,
        r.1@ == spec_synth_key_for_char(ch).1,
{
    let mut s = String::new();
    if ch == '\n' || ch == '\r' {
        s.push('\r');
        (0x24, s)
    } else if ch == ' ' {
        s.push(' ');
        (0x31, s)
    } else {
        s.push(ch);
        (0, s)
    }
}

} // verus!
