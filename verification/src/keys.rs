use vstd::prelude::*;

verus! {

/// `ESC [ A` / `ESC [ B` (normal cursor-key mode) or `ESC O A` / `ESC O B`
/// (application cursor-key mode, DECCKM set), as a byte sequence.
pub open spec fn spec_arrow_key_bytes(up: bool, cursor_key_application: bool) -> Seq<u8> {
    let intro: u8 = if cursor_key_application { 0x4f } else { 0x5b };
    let fin: u8 = if up { 0x41 } else { 0x42 };
    seq![0x1bu8, intro, fin]
}

/// The byte sequence for a synthetic cursor-up/down arrow key on the
/// alternate-scroll path, respecting DECCKM: application mode sends
/// `ESC O A` / `ESC O B`, normal mode `ESC [ A` / `ESC [ B`.
pub fn arrow_key_bytes(up: bool, cursor_key_application: bool) -> (r: Vec<u8>)
    ensures
        r@ == spec_arrow_key_bytes(up, cursor_key_application),
{
    let intro: u8 = if cursor_key_application { 0x4f } else { 0x5b };
    let fin: u8 = if up { 0x41 } else { 0x42 };
    let r = vec![0x1bu8, intro, fin];
    assert(r@ =~= spec_arrow_key_bytes(up, cursor_key_application));
    r
}


/// `CSI I` (focus in) or `CSI O` (focus out): the xterm mode-1004 focus report.
pub open spec fn spec_focus_report_bytes(focused: bool) -> Seq<u8> {
    seq![0x1bu8, 0x5bu8, if focused { 0x49u8 } else { 0x4fu8 }]
}

/// The bytes a pane sends its program on a focus change when the program has
/// enabled focus reporting (mode 1004): `CSI I` on focus-in, `CSI O` on
/// focus-out.
pub fn focus_report_bytes(focused: bool) -> (r: Vec<u8>)
    ensures
        r@ == spec_focus_report_bytes(focused),
{
    let last: u8 = if focused { 0x49 } else { 0x4f };
    let r = vec![0x1bu8, 0x5bu8, last];
    assert(r@ =~= spec_focus_report_bytes(focused));
    r
}

/// What a focus change does to a pane: whether its io thread is told (a live
/// pane with a pty; it then starts or stops its password poll), and the focus
/// report written to the program, when it enabled focus reporting and the
/// pane is still alive after reading that mode (`dead_after`: the engine lock
/// came back poisoned).
pub fn focus_change(dead: bool, has_pty: bool, reporting: bool, dead_after: bool, focused: bool) -> (r: (
    bool,
    Option<Vec<u8>>,
))
    ensures
        r.0 == (!dead && has_pty),
        (r.0 && reporting && !dead_after) ==> (r.1 matches Some(b) && b@ == spec_focus_report_bytes(focused)),
        !(r.0 && reporting && !dead_after) ==> r.1 is None,
{
    if dead || !has_pty {
        return (false, None);
    }
    if dead_after || !reporting {
        return (true, None);
    }
    (true, Some(focus_report_bytes(focused)))
}

} // verus!
