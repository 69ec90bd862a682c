use vstd::prelude::*;
use vstd::string::*;

verus! {

/// `ESC [ 2 0 0 ~`, the bracketed-paste start marker.
pub open spec fn paste_start() -> Seq<u8> {
    seq![0x1bu8, 0x5bu8, 0x32u8, 0x30u8, 0x30u8, 0x7eu8]
}

/// `ESC [ 2 0 1 ~`, the bracketed-paste end marker.
pub open spec fn paste_end() -> Seq<u8> {
    seq![0x1bu8, 0x5bu8, 0x32u8, 0x30u8, 0x31u8, 0x7eu8]
}

/// What a paste of `text` (its UTF-8 bytes) writes to the pty: wrapped in the
/// bracketed-paste markers when the program enabled bracketed paste, else the
/// bytes as they are.
pub open spec fn spec_paste_payload(text: Seq<u8>, bracketed: bool) -> Seq<u8> {
    if bracketed { paste_start() + text + paste_end() } else { text }
}

/// Append `src` to `dst`, byte by byte.
fn append_bytes(dst: &mut Vec<u8>, src: &[u8])
    ensures
        final(dst)@ == old(dst)@ + src@,
{
    let mut i: usize = 0;
    while i < src.len()
        invariant
            i <= src@.len(),
            dst@ == old(dst)@ + src@.take(i as int),
        decreases src@.len() - i,
    {
        dst.push(src[i]);
        assert(src@.take(i + 1) =~= src@.take(i as int).push(src@[i as int]));
        i = i + 1;
    }
    assert(src@.take(src@.len() as int) =~= src@);
}

/// The pty payload for pasting `text`: `ESC[200~ text ESC[201~` when
/// `bracketed`, otherwise the text's bytes unchanged.
pub fn paste_payload(text: &str, bracketed: bool) -> (r: Vec<u8>)
    ensures
        r@ == spec_paste_payload(text.spec_bytes(), bracketed),
{
    let bytes = text.as_bytes();
    if bracketed {
        let mut p = vec![0x1bu8, 0x5bu8, 0x32u8, 0x30u8, 0x30u8, 0x7eu8];
        append_bytes(&mut p, bytes);
        let end = vec![0x1bu8, 0x5bu8, 0x32u8, 0x30u8, 0x31u8, 0x7eu8];
        append_bytes(&mut p, end.as_slice());
        assert(p@ =~= spec_paste_payload(text.spec_bytes(), bracketed));
        p
    } else {
        let mut p: Vec<u8> = Vec::new();
        append_bytes(&mut p, bytes);
        assert(p@ =~= spec_paste_payload(text.spec_bytes(), bracketed));
        p
    }
}

/// The number of `\n` bytes in `s`.
pub open spec fn count_newlines(s: Seq<u8>) -> nat
    decreases s.len(),
{
    if s.len() == 0 {
        0
    } else {
        count_newlines(s.drop_last()) + if s.last() == 0x0au8 { 1nat } else { 0nat }
    }
}

proof fn lemma_count_newlines_bound(s: Seq<u8>)
    ensures
        count_newlines(s) <= s.len(),
    decreases s.len(),
{
    if s.len() > 0 {
        lemma_count_newlines_bound(s.drop_last());
    }
}

/// How many lines `str::lines` yields for text with UTF-8 bytes `s`: one per
/// `\n`, plus one for a non-empty unterminated last line.
pub open spec fn line_count(s: Seq<u8>) -> nat {
    count_newlines(s) + if s.len() > 0 && s.last() != 0x0au8 { 1nat } else { 0nat }
}

/// The line count the unsafe-paste confirmation reports: the number of lines
/// of the text, but at least one.
pub open spec fn spec_unsafe_paste_line_count(s: Seq<u8>) -> nat {
    if line_count(s) == 0 { 1 } else { line_count(s) }
}

/// The number of lines the unsafe-paste confirmation alert reports for
/// `text` ("The clipboard contains N lines of text"): the count of lines
/// (`\n`-separated, a trailing line ending not starting a new one), at
/// least 1.
pub fn unsafe_paste_line_count(text: &str) -> (r: usize)
    ensures
        r == spec_unsafe_paste_line_count(text.spec_bytes()),
{
    let bytes = text.as_bytes();
    let n = bytes.len();
    let mut count: usize = 0;
    let mut i: usize = 0;
    while i < n
        invariant
            n == bytes@.len(),
            i <= n,
            count == count_newlines(bytes@.take(i as int)),
            count <= i,
        decreases n - i,
    {
        assert(bytes@.take(i + 1).drop_last() =~= bytes@.take(i as int));
        if bytes[i] == 0x0a {
            count = count + 1;
        }
        i = i + 1;
    }
    assert(bytes@.take(n as int) =~= bytes@);
    if n > 0 {
        proof {
            lemma_count_newlines_bound(bytes@.drop_last());
        }
    }
    let lines = if n > 0 && bytes[n - 1] != 0x0a { count + 1 } else { count };
    if lines == 0 { 1 } else { lines }
}

/// The next step of a paste, as far as paste protection is concerned.
#[derive(Clone, Copy, Debug, PartialEq, Eq, Structural)]
pub enum PasteStep {
    /// Write the paste to the pane.
    Write,
    /// Ask the user first (the paste looks unsafe), then decide again with
    /// the answer.
    Confirm,
    /// Drop the paste (unsafe, and the user declined).
    Drop,
}

/// The step a paste takes: see `paste_step`.
pub open spec fn spec_paste_step(unsafe_paste: bool, answer: Option<bool>) -> PasteStep {
    if !unsafe_paste {
        PasteStep::Write
    } else {
        match answer {
            None => PasteStep::Confirm,
            Some(true) => PasteStep::Write,
            Some(false) => PasteStep::Drop,
        }
    }
}

/// Gate a paste: a safe paste (`unsafe_paste` false under the configured
/// protection and the pane's bracketed-paste mode) is written at once; an
/// unsafe one needs the user's answer (`None`: not asked yet), and is
/// written only when the user confirmed.
pub fn paste_step(unsafe_paste: bool, answer: Option<bool>) -> (r: PasteStep)
    ensures
        r == spec_paste_step(unsafe_paste, answer),
{
    if !unsafe_paste {
        return PasteStep::Write;
    }
    match answer {
        None => PasteStep::Confirm,
        Some(true) => PasteStep::Write,
        Some(false) => PasteStep::Drop,
    }
}

/// An unsafe paste reaches the pane only with the user's consent: it is
/// written exactly when it is safe or the user confirmed it, and it is never
/// written before the user has been asked.
pub proof fn lemma_unsafe_paste_needs_consent(unsafe_paste: bool, answer: Option<bool>)
    ensures
        (spec_paste_step(unsafe_paste, answer) == PasteStep::Write) == (!unsafe_paste || answer == Some(true)),
        unsafe_paste && answer is None ==> spec_paste_step(unsafe_paste, answer) == PasteStep::Confirm,
{
}

} // verus!
