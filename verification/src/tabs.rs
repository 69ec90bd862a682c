use vstd::prelude::*;

verus! {

/// A built-in tab-navigation action (the `previous_tab` / `next_tab` /
/// `last_tab` / `goto_tab:N` keybinds and the Show Next/Previous Tab menu
/// items).
#[derive(Clone, Copy, Debug, PartialEq, Eq, Structural)]
pub enum TabAction {
    PreviousTab,
    NextTab,
    LastTab,
    /// 1-based tab number.
    GotoTab(usize),
}

/// The index of the tab an action selects, given the selected tab's index
/// and the number of tabs in the group (visual tab-bar order): next/previous
/// wrap around, `GotoTab(n)` is 1-based and clamps to the last tab, and
/// `LastTab` selects the last tab.
pub open spec fn spec_tab_target(action: TabAction, selected: int, count: int) -> int {
    match action {
        TabAction::NextTab => (selected + 1) % count,
        TabAction::PreviousTab => (selected + count - 1) % count,
        TabAction::GotoTab(n) => if n == 0 { 0 } else if n - 1 < count - 1 { n - 1 } else { count - 1 },
        TabAction::LastTab => count - 1,
    }
}

/// Resolve the target tab index for a tab-navigation action. `selected` is
/// the selected window's index in the group's visual order and `count` the
/// group's size (a lone window is a group of one, so every action is then a
/// harmless re-selection of it).
pub fn tab_target_index(action: TabAction, selected: usize, count: usize) -> (r: usize)
    requires
        0 < count,
        selected < count,
    ensures
        r == spec_tab_target(action, selected as int, count as int),
        r < count,
{
    proof {
        lemma_tab_target_exact(selected as int, count as int);
    }
    match action {
        TabAction::NextTab => {
            if selected + 1 >= count {
                0
            } else {
                selected + 1
            }
        },
        TabAction::PreviousTab => {
            if selected == 0 {
                count - 1
            } else {
                selected - 1
            }
        },
        TabAction::GotoTab(n) => {
            let k = if n == 0 { 0 } else { n - 1 };
            if k < count - 1 { k } else { count - 1 }
        },
        TabAction::LastTab => count - 1,
    }
}

/// The position of the first occurrence of `x` in `ids`, or 0 when it does
/// not occur.
pub open spec fn position_or_first(ids: Seq<u64>, x: u64) -> int
    decreases ids.len(),
{
    if ids.len() == 0 {
        0
    } else if ids[0] == x {
        0
    } else if ids.drop_first().contains(x) {
        1 + position_or_first(ids.drop_first(), x)
    } else {
        0
    }
}

/// Resolve a tab-navigation action against a window's tab group: `ids` are
/// the group's windows in visual (tab-bar) order and `selected` the selected
/// one (a selection not found in the group counts as the first tab). `None`
/// for an empty group; otherwise the index of the window to select.
pub fn tab_action_target(ids: &Vec<u64>, selected: u64, action: TabAction) -> (r: Option<usize>)
    ensures
        ids@.len() == 0 ==> r is None,
        ids@.len() > 0 ==> r == Some(
            spec_tab_target(action, position_or_first(ids@, selected), ids@.len() as int) as usize,
        ),
{
    let count = ids.len();
    if count == 0 {
        return None;
    }
    let mut i: usize = 0;
    let mut found: Option<usize> = None;
    while i < count
        invariant
            count == ids@.len(),
            i <= count,
            found is None ==> forall|j: int| 0 <= j < i ==> ids@[j] != selected,
            found matches Some(k) ==> k < count && ids@[k as int] == selected && forall|j: int|
                0 <= j < k ==> ids@[j] != selected,
        decreases count - i,
    {
        if found.is_none() && ids[i] == selected {
            found = Some(i);
        }
        i = i + 1;
    }
    let idx = match found {
        Some(k) => k,
        None => 0,
    };
    proof {
        lemma_position_or_first(ids@, selected, idx as int, found is Some);
    }
    Some(tab_target_index(action, idx, count))
}

proof fn lemma_position_or_first(ids: Seq<u64>, x: u64, k: int, present: bool)
    requires
        present ==> 0 <= k < ids.len() && ids[k] == x && forall|j: int| 0 <= j < k ==> ids[j] != x,
        !present ==> k == 0 && forall|j: int| 0 <= j < ids.len() ==> ids[j] != x,
    ensures
        position_or_first(ids, x) == k,
    decreases ids.len(),
{
    if ids.len() > 0 && ids[0] != x {
        let rest = ids.drop_first();
        if present {
            assert(rest[k - 1] == x);
            lemma_position_or_first(rest, x, k - 1, true);
        } else {
            assert forall|j: int| 0 <= j < rest.len() implies rest[j] != x by {
                assert(rest[j] == ids[j + 1]);
            }
            assert(!rest.contains(x));
        }
    }
}

proof fn lemma_tab_target_exact(selected: int, count: int)
    requires
        0 < count,
        0 <= selected < count,
    ensures
        spec_tab_target(TabAction::NextTab, selected, count) == if selected + 1 >= count { 0 } else { selected + 1 },
        spec_tab_target(TabAction::PreviousTab, selected, count) == if selected == 0 { count - 1 } else { selected - 1 },
{
    if selected + 1 < count {
        vstd::arithmetic::div_mod::lemma_small_mod((selected + 1) as nat, count as nat);
    } else {
        vstd::arithmetic::div_mod::lemma_mod_self_0(count);
    }
    if selected == 0 {
        vstd::arithmetic::div_mod::lemma_small_mod((count - 1) as nat, count as nat);
    } else {
        vstd::arithmetic::div_mod::lemma_mod_add_multiples_vanish(selected - 1, count);
        vstd::arithmetic::div_mod::lemma_small_mod((selected - 1) as nat, count as nat);
    }
}

/// Going to the next tab and then to the previous one lands back on the tab
/// you started from (and the other way around): next/previous wrap, so they
/// undo each other.
pub proof fn lemma_next_previous_inverse(selected: int, count: int)
    requires
        0 < count,
        0 <= selected < count,
    ensures
        spec_tab_target(TabAction::PreviousTab, spec_tab_target(TabAction::NextTab, selected, count), count) == selected,
        spec_tab_target(TabAction::NextTab, spec_tab_target(TabAction::PreviousTab, selected, count), count) == selected,
{
    lemma_tab_target_exact(selected, count);
    let n = spec_tab_target(TabAction::NextTab, selected, count);
    let p = spec_tab_target(TabAction::PreviousTab, selected, count);
    lemma_tab_target_exact(n, count);
    lemma_tab_target_exact(p, count);
}

/// `k` presses of next-tab starting from `selected`.
pub open spec fn next_tab_times(selected: int, count: int, k: nat) -> int
    decreases k,
{
    if k == 0 {
        selected
    } else {
        spec_tab_target(TabAction::NextTab, next_tab_times(selected, count, (k - 1) as nat), count)
    }
}

/// Pressing next-tab `k` times advances `k` places around the tab ring, so
/// `count` presses come back to the starting tab.
pub proof fn lemma_next_tab_cycles(selected: int, count: int, k: nat)
    requires
        0 < count,
        0 <= selected < count,
    ensures
        next_tab_times(selected, count, k) == (selected + k) % count,
        next_tab_times(selected, count, count as nat) == selected,
{
    lemma_next_tab_times(selected, count, k);
    lemma_next_tab_times(selected, count, count as nat);
    vstd::arithmetic::div_mod::lemma_mod_add_multiples_vanish(selected, count);
    vstd::arithmetic::div_mod::lemma_small_mod(selected as nat, count as nat);
}

proof fn lemma_next_tab_times(selected: int, count: int, k: nat)
    requires
        0 < count,
        0 <= selected < count,
    ensures
        next_tab_times(selected, count, k) == (selected + k) % count,
    decreases k,
{
    if k > 0 {
        lemma_next_tab_times(selected, count, (k - 1) as nat);
        vstd::arithmetic::div_mod::lemma_add_mod_noop_right(1, selected + k - 1, count);
    } else {
        vstd::arithmetic::div_mod::lemma_small_mod(selected as nat, count as nat);
    }
}

/// Every action selects a tab that exists.
pub proof fn lemma_tab_target_in_range(action: TabAction, selected: int, count: int)
    requires
        0 < count,
        0 <= selected < count,
    ensures
        0 <= spec_tab_target(action, selected, count) < count,
{
    vstd::arithmetic::div_mod::lemma_mod_bound(selected + 1, count);
    vstd::arithmetic::div_mod::lemma_mod_bound(selected + count - 1, count);
}

/// `goto_tab:N` selects the N-th tab (1-based) when there is one and the
/// last tab otherwise (`goto_tab:0` the first); `last_tab` selects the last
/// tab; next/previous move exactly one place, wrapping only at the ends.
pub proof fn lemma_tab_actions_select_what_they_name(selected: int, count: int, n: usize)
    requires
        0 < count,
        0 <= selected < count,
    ensures
        1 <= n <= count ==> spec_tab_target(TabAction::GotoTab(n), selected, count) == n - 1,
        n > count ==> spec_tab_target(TabAction::GotoTab(n), selected, count) == count - 1,
        n == 0 ==> spec_tab_target(TabAction::GotoTab(n), selected, count) == 0,
        spec_tab_target(TabAction::LastTab, selected, count) == count - 1,
        selected + 1 < count ==> spec_tab_target(TabAction::NextTab, selected, count) == selected + 1,
        selected + 1 == count ==> spec_tab_target(TabAction::NextTab, selected, count) == 0,
        selected > 0 ==> spec_tab_target(TabAction::PreviousTab, selected, count) == selected - 1,
        selected == 0 ==> spec_tab_target(TabAction::PreviousTab, selected, count) == count - 1,
{
    lemma_tab_target_exact(selected, count);
}

} // verus!
