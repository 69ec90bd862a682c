use vstd::prelude::*;
use vstd::string::*;

verus! {

/// Whether the app runs in the background (accessory activation policy, no
/// activation). `override_value` is the value of the
/// `QWERTTY_TERM_BACKGROUND` override, if set: `0` forces the foreground,
/// anything else the background. Without it, smoke runs (`smoke_run`: some
/// `QWERTTY_TERM_SMOKE*` variable is set) run in the background.
pub fn background_mode(override_value: Option<&str>, smoke_run: bool) -> (r: bool)
    ensures
        r == (match override_value {
            Some(v) => v@ != "0"@,
            None => smoke_run,
        }),
{
    proof {
        reveal_strlit("0");
    }
    match override_value {
        Some(v) => {
            if v.unicode_len() != 1 {
                assert(v@.len() != "0"@.len());
                return true;
            }
            let c = v.get_char(0);
            if c == '0' {
                assert(v@ =~= "0"@);
            } else {
                assert(v@[0] != "0"@[0]);
            }
            c != '0'
        },
        None => smoke_run,
    }
}

} // verus!
