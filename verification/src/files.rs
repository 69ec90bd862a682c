use vstd::prelude::*;
use vstd::string::*;
use crate::keybind::WriteScreenAction;

verus! {

/// The decimal digit character for `d` (`0 <= d < 10`).
pub open spec fn digit_char(d: nat) -> char {
    if d == 0 {
        '0'
    } else if d == 1 {
        '1'
    } else if d == 2 {
        '2'
    } else if d == 3 {
        '3'
    } else if d == 4 {
        '4'
    } else if d == 5 {
        '5'
    } else if d == 6 {
        '6'
    } else if d == 7 {
        '7'
    } else if d == 8 {
        '8'
    } else {
        '9'
    }
}

/// `n` written in decimal, without leading zeros.
pub open spec fn decimal(n: nat) -> Seq<char>
    decreases n,
{
    if n < 10 {
        seq![digit_char(n)]
    } else {
        decimal(n / 10).push(digit_char(n % 10))
    }
}

/// The name of the temp file a `write_*_file` action writes: the app name,
/// the kind of text (`scrollback`, `screen`, `selection`), the process id and
/// a per-process counter, so names never repeat within a run.
pub open spec fn spec_temp_file_name(kind: Seq<char>, pid: nat, n: nat) -> Seq<char> {
    "qwertty-term-"@ + kind + "-"@ + decimal(pid) + "-"@ + decimal(n) + ".txt"@
}

fn digit(d: u64) -> (c: char)
    requires
        d < 10,
    ensures
        c == digit_char(d as nat),
{
    if d == 0 {
        '0'
    } else if d == 1 {
        '1'
    } else if d == 2 {
        '2'
    } else if d == 3 {
        '3'
    } else if d == 4 {
        '4'
    } else if d == 5 {
        '5'
    } else if d == 6 {
        '6'
    } else if d == 7 {
        '7'
    } else if d == 8 {
        '8'
    } else {
        '9'
    }
}

/// Append `n` in decimal to `s`.
fn push_decimal(s: &mut String, n: u64)
    ensures
        final(s)@ == old(s)@ + decimal(n as nat),
    decreases n,
{
    if n >= 10 {
        push_decimal(s, n / 10);
    }
    s.push(digit(n % 10));
    assert(final(s)@ =~= old(s)@ + decimal(n as nat));
}

/// The temp-file name for the `n`th write of `kind` text by process `pid`:
/// `qwertty-term-<kind>-<pid>-<n>.txt`.
pub fn temp_file_name(kind: &str, pid: u32, n: u64) -> (r: String)
    ensures
        r@ == spec_temp_file_name(kind@, pid as nat, n as nat),
{
    let mut s = String::from_str("qwertty-term-");
    s.append(kind);
    s.append("-");
    push_decimal(&mut s, pid as u64);
    s.append("-");
    push_decimal(&mut s, n);
    s.append(".txt");
    assert(s@ =~= spec_temp_file_name(kind@, pid as nat, n as nat));
    s
}

proof fn lemma_decimal_shape(n: nat)
    ensures
        decimal(n).len() >= 1,
        n < 10 ==> decimal(n).len() == 1,
        n >= 10 ==> decimal(n).len() >= 2,
    decreases n,
{
    if n >= 10 {
        lemma_decimal_shape(n / 10);
    }
}

proof fn lemma_digit_injective(a: nat, b: nat)
    requires
        a < 10,
        b < 10,
        digit_char(a) == digit_char(b),
    ensures
        a == b,
{
}

/// Different numbers are written differently.
pub proof fn lemma_decimal_injective(a: nat, b: nat)
    requires
        decimal(a) == decimal(b),
    ensures
        a == b,
    decreases a,
{
    lemma_decimal_shape(a);
    lemma_decimal_shape(b);
    if a < 10 && b < 10 {
        assert(decimal(a)[0] == digit_char(a));
        assert(decimal(b)[0] == digit_char(b));
        lemma_digit_injective(a, b);
    } else if a >= 10 && b >= 10 {
        let da = decimal(a);
        let db = decimal(b);
        assert(da.last() == digit_char(a % 10));
        assert(db.last() == digit_char(b % 10));
        lemma_digit_injective(a % 10, b % 10);
        assert(da.drop_last() =~= decimal(a / 10));
        assert(db.drop_last() =~= decimal(b / 10));
        lemma_decimal_injective(a / 10, b / 10);
    }
}

/// Each write of a run gets its own file: temp-file names for different
/// counter values differ (for the same kind and process).
pub proof fn lemma_temp_file_names_unique(kind: Seq<char>, pid: nat, n1: nat, n2: nat)
    requires
        n1 != n2,
    ensures
        spec_temp_file_name(kind, pid, n1) != spec_temp_file_name(kind, pid, n2),
{
    let prefix = "qwertty-term-"@ + kind + "-"@ + decimal(pid) + "-"@;
    let a = spec_temp_file_name(kind, pid, n1);
    let b = spec_temp_file_name(kind, pid, n2);
    assert(a =~= prefix + decimal(n1) + ".txt"@);
    assert(b =~= prefix + decimal(n2) + ".txt"@);
    if a == b {
        assert(a.len() == b.len());
        assert(decimal(n1).len() == decimal(n2).len()) by {
            reveal_strlit(".txt");
        }
        assert(a.subrange(prefix.len() as int, (prefix.len() + decimal(n1).len()) as int) =~= decimal(n1));
        assert(b.subrange(prefix.len() as int, (prefix.len() + decimal(n2).len()) as int) =~= decimal(n2));
        lemma_decimal_injective(n1, n2);
    }
}

/// What happens to the written file's path.
#[derive(Clone, Copy, Debug, PartialEq, Eq, Structural)]
pub enum PathDelivery {
    /// Put the path on the clipboard.
    Clipboard,
    /// Type the path into the tab's focused pane.
    TypeIntoFocused,
    /// Open the file with the system handler.
    Open,
}

/// Where a `write_*_file` action delivers the written file's path.
pub fn path_delivery(action: WriteScreenAction) -> (r: PathDelivery)
    ensures
        r == (match action {
            WriteScreenAction::Copy => PathDelivery::Clipboard,
            WriteScreenAction::Paste => PathDelivery::TypeIntoFocused,
            WriteScreenAction::Open => PathDelivery::Open,
        }),
{
    match action {
        WriteScreenAction::Copy => PathDelivery::Clipboard,
        WriteScreenAction::Paste => PathDelivery::TypeIntoFocused,
        WriteScreenAction::Open => PathDelivery::Open,
    }
}

} // verus!
