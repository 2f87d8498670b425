use vstd::prelude::*;

use crate::tree::{col_fixed, col_flex, row_fixed, row_flex, spec_total_gap, SizeSpec, UiTree};
use crate::tree::t_wf;
use crate::widgets::list_view::ListView;
use crate::widgets::select::Select;
use crate::widgets::text_input::TextInput;
use crate::input::PointerState;
use crate::geometry::POS_LIMIT;

verus! {

/// The flex shares handed out to the first `k` entries of a column.
pub open spec fn col_flex_shares(t: UiTree, k: int) -> int
    decreases k,
{
    if k <= 0 {
        0
    } else {
        col_flex_shares(t, k - 1) + (match t.widgets@[k - 1].layout.height {
            SizeSpec::Flex(_) => t.col_main(k - 1),
            _ => 0,
        })
    }
}

proof fn lemma_div_sum(a: int, b: int, d: int)
    requires
        0 < d,
        0 <= a,
        0 <= b,
    ensures
        a / d + b / d <= (a + b) / d,
{
    vstd::arithmetic::div_mod::lemma_fundamental_div_mod(a, d);
    vstd::arithmetic::div_mod::lemma_mod_bound(a, d);
    vstd::arithmetic::div_mod::lemma_fundamental_div_mod(b, d);
    vstd::arithmetic::div_mod::lemma_mod_bound(b, d);
    vstd::arithmetic::div_mod::lemma_div_pos_is_pos(a, d);
    vstd::arithmetic::div_mod::lemma_div_pos_is_pos(b, d);
    let qa = a / d;
    let qb = b / d;
    let ra = a % d;
    let rb = b % d;
    if ra + rb < d {
        assert(a + b == (qa + qb) * d + (ra + rb)) by (nonlinear_arith)
            requires
                a == d * qa + ra,
                b == d * qb + rb;
        vstd::arithmetic::div_mod::lemma_fundamental_div_mod_converse_div(
            a + b, d, qa + qb, ra + rb);
    } else {
        assert(a + b == (qa + qb + 1) * d + (ra + rb - d)) by (nonlinear_arith)
            requires
                a == d * qa + ra,
                b == d * qb + rb;
        vstd::arithmetic::div_mod::lemma_fundamental_div_mod_converse_div(
            a + b, d, qa + qb + 1, ra + rb - d);
    }
}

proof fn lemma_col_flex_prefix(t: UiTree, k: int)
    requires
        0 <= k <= t.widgets@.len(),
    ensures
        col_flex(t.widgets@.subrange(0, k)) <= col_flex(t.widgets@),
        col_flex(t.widgets@.subrange(0, k)) >= 0,
    decreases t.widgets@.len() - k,
{
    let s = t.widgets@;
    if k == s.len() {
        assert(s.subrange(0, k) =~= s);
        lemma_col_flex_nonneg_local(s.subrange(0, k));
    } else {
        assert(s.subrange(0, k + 1).drop_last() =~= s.subrange(0, k));
        assert(s.subrange(0, k + 1).last() == s[k]);
        lemma_col_flex_nonneg_local(s.subrange(0, k));
        lemma_col_flex_prefix(t, k + 1);
    }
}

proof fn lemma_col_flex_nonneg_local(s: Seq<crate::tree::WidgetEntry>)
    ensures
        col_flex(s) >= 0,
    decreases s.len(),
{
    if s.len() > 0 {
        lemma_col_flex_nonneg_local(s.drop_last());
    }
}

proof fn lemma_col_shares_bound(t: UiTree, k: int)
    requires
        t_wf(t),
        col_flex(t.widgets@) > 0,
        0 <= k <= t.widgets@.len(),
    ensures
        0 <= col_flex_shares(t, k),
        col_flex_shares(t, k) <= t.col_remaining() * col_flex(t.widgets@.subrange(0, k))
            / col_flex(t.widgets@),
    decreases k,
{
    let s = t.widgets@;
    let rem = t.col_remaining();
    let total = col_flex(s);
    if k <= 0 {
        assert(s.subrange(0, 0) =~= Seq::<crate::tree::WidgetEntry>::empty());
        vstd::arithmetic::div_mod::lemma_div_of0(total);
    } else {
        lemma_col_shares_bound(t, k - 1);
        lemma_col_flex_prefix(t, k - 1);
        lemma_col_flex_prefix(t, k);
        assert(s.subrange(0, k).drop_last() =~= s.subrange(0, k - 1));
        assert(s.subrange(0, k).last() == s[k - 1]);
        let prev_flex = col_flex(s.subrange(0, k - 1));
        let cur_flex = col_flex(s.subrange(0, k));
        match s[k - 1].layout.height {
            SizeSpec::Flex(f) => {
                let fx = if f > 0 {
                    f as int
                } else {
                    0
                };
                assert(cur_flex == prev_flex + fx);
                assert(0 <= rem * fx && rem * prev_flex + rem * fx == rem * cur_flex
                    && 0 <= rem * prev_flex) by (nonlinear_arith)
                    requires
                        0 <= rem,
                        0 <= fx,
                        0 <= prev_flex,
                        cur_flex == prev_flex + fx;
                lemma_div_sum(rem * prev_flex, rem * fx, total);
                vstd::arithmetic::div_mod::lemma_div_pos_is_pos(rem * fx, total);
            },
            _ => {
                assert(cur_flex == prev_flex);
            },
        }
    }
}

/// In a column whose fixed and intrinsic entries (plus the inter-entry
/// gaps) fit in the inner area, the fixed and intrinsic sizes, the flex
/// shares and the gaps together still fit: flex distribution never
/// overcommits the tree's inner height.
pub proof fn lemma_column_layout_fits(t: UiTree)
    requires
        t_wf(t),
        col_fixed(t.widgets@) + spec_total_gap(t.gap as int, t.widgets@.len() as int)
            <= t.spec_inner().height,
    ensures
        col_fixed(t.widgets@) + col_flex_shares(t, t.widgets@.len() as int) + spec_total_gap(
            t.gap as int, t.widgets@.len() as int) <= t.spec_inner().height,
{
    let s = t.widgets@;
    let n = s.len() as int;
    let total = col_flex(s);
    let rem = t.col_remaining();
    lemma_col_fixed_nonneg(s);
    if total > 0 {
        lemma_col_shares_bound(t, n);
        assert(s.subrange(0, n) =~= s);
        assert(rem * total / total == rem) by {
            vstd::arithmetic::div_mod::lemma_div_multiples_vanish(rem, total);
            assert(rem * total == total * rem) by (nonlinear_arith);
        }
    } else {
        lemma_col_shares_zero(t, n);
    }
}

proof fn lemma_col_fixed_nonneg(s: Seq<crate::tree::WidgetEntry>)
    ensures
        col_fixed(s) >= 0,
    decreases s.len(),
{
    if s.len() > 0 {
        lemma_col_fixed_nonneg(s.drop_last());
    }
}

proof fn lemma_col_shares_zero(t: UiTree, k: int)
    requires
        col_flex(t.widgets@) <= 0,
        0 <= k <= t.widgets@.len(),
    ensures
        col_flex_shares(t, k) == 0,
    decreases k,
{
    if k > 0 {
        lemma_col_shares_zero(t, k - 1);
    }
}

/// The flex shares handed out to the first `k` entries of a row.
pub open spec fn row_flex_shares(t: UiTree, k: int) -> int
    decreases k,
{
    if k <= 0 {
        0
    } else {
        row_flex_shares(t, k - 1) + (match t.widgets@[k - 1].layout.width {
            SizeSpec::Flex(_) => t.row_main(k - 1),
            _ => 0,
        })
    }
}

proof fn lemma_row_flex_prefix(t: UiTree, k: int)
    requires
        0 <= k <= t.widgets@.len(),
    ensures
        row_flex(t.widgets@.subrange(0, k)) <= row_flex(t.widgets@),
        row_flex(t.widgets@.subrange(0, k)) >= 0,
    decreases t.widgets@.len() - k,
{
    let s = t.widgets@;
    if k == s.len() {
        assert(s.subrange(0, k) =~= s);
        lemma_row_flex_nonneg_local(s.subrange(0, k));
    } else {
        assert(s.subrange(0, k + 1).drop_last() =~= s.subrange(0, k));
        assert(s.subrange(0, k + 1).last() == s[k]);
        lemma_row_flex_nonneg_local(s.subrange(0, k));
        lemma_row_flex_prefix(t, k + 1);
    }
}

proof fn lemma_row_flex_nonneg_local(s: Seq<crate::tree::WidgetEntry>)
    ensures
        row_flex(s) >= 0,
    decreases s.len(),
{
    if s.len() > 0 {
        lemma_row_flex_nonneg_local(s.drop_last());
    }
}

proof fn lemma_row_shares_bound(t: UiTree, k: int)
    requires
        t_wf(t),
        row_flex(t.widgets@) > 0,
        0 <= k <= t.widgets@.len(),
    ensures
        0 <= row_flex_shares(t, k),
        row_flex_shares(t, k) <= t.row_remaining() * row_flex(t.widgets@.subrange(0, k))
            / row_flex(t.widgets@),
    decreases k,
{
    let s = t.widgets@;
    let rem = t.row_remaining();
    let total = row_flex(s);
    if k <= 0 {
        assert(s.subrange(0, 0) =~= Seq::<crate::tree::WidgetEntry>::empty());
        vstd::arithmetic::div_mod::lemma_div_of0(total);
    } else {
        lemma_row_shares_bound(t, k - 1);
        lemma_row_flex_prefix(t, k - 1);
        lemma_row_flex_prefix(t, k);
        assert(s.subrange(0, k).drop_last() =~= s.subrange(0, k - 1));
        assert(s.subrange(0, k).last() == s[k - 1]);
        let prev_flex = row_flex(s.subrange(0, k - 1));
        let cur_flex = row_flex(s.subrange(0, k));
        match s[k - 1].layout.width {
            SizeSpec::Flex(f) => {
                let fx = if f > 0 {
                    f as int
                } else {
                    0
                };
                assert(cur_flex == prev_flex + fx);
                assert(0 <= rem * fx && rem * prev_flex + rem * fx == rem * cur_flex
                    && 0 <= rem * prev_flex) by (nonlinear_arith)
                    requires
                        0 <= rem,
                        0 <= fx,
                        0 <= prev_flex,
                        cur_flex == prev_flex + fx;
                lemma_div_sum(rem * prev_flex, rem * fx, total);
                vstd::arithmetic::div_mod::lemma_div_pos_is_pos(rem * fx, total);
            },
            _ => {
                assert(cur_flex == prev_flex);
            },
        }
    }
}

/// In a row whose fixed and intrinsic entries (plus the inter-entry gaps)
/// fit in the inner area, the fixed and intrinsic sizes, the flex shares
/// and the gaps together still fit: flex distribution never overcommits
/// the tree's inner width.
pub proof fn lemma_row_layout_fits(t: UiTree)
    requires
        t_wf(t),
        row_fixed(t.widgets@) + spec_total_gap(t.gap as int, t.widgets@.len() as int)
            <= t.spec_inner().width,
    ensures
        row_fixed(t.widgets@) + row_flex_shares(t, t.widgets@.len() as int) + spec_total_gap(
            t.gap as int, t.widgets@.len() as int) <= t.spec_inner().width,
{
    let s = t.widgets@;
    let n = s.len() as int;
    let total = row_flex(s);
    let rem = t.row_remaining();
    lemma_row_fixed_nonneg(s);
    if total > 0 {
        lemma_row_shares_bound(t, n);
        assert(s.subrange(0, n) =~= s);
        assert(rem * total / total == rem) by {
            vstd::arithmetic::div_mod::lemma_div_multiples_vanish(rem, total);
            assert(rem * total == total * rem) by (nonlinear_arith);
        }
    } else {
        lemma_row_shares_zero(t, n);
    }
}

proof fn lemma_row_fixed_nonneg(s: Seq<crate::tree::WidgetEntry>)
    ensures
        row_fixed(s) >= 0,
    decreases s.len(),
{
    if s.len() > 0 {
        lemma_row_fixed_nonneg(s.drop_last());
    }
}

proof fn lemma_row_shares_zero(t: UiTree, k: int)
    requires
        row_flex(t.widgets@) <= 0,
        0 <= k <= t.widgets@.len(),
    ensures
        row_flex_shares(t, k) == 0,
    decreases k,
{
    if k > 0 {
        lemma_row_shares_zero(t, k - 1);
    }
}

/// Inserting text at the cursor and then deleting it again (as the
/// selection it left behind) restores both the text and the cursor.
pub proof fn lemma_insert_delete_round_trip(text: Seq<char>, cursor: int, typed: Seq<char>)
    requires
        0 <= cursor <= text.len(),
        typed.len() > 0,
    ensures
        ({
            let inserted = TextInput::spec_ins_step(text, cursor, None, typed);
            let deleted = TextInput::spec_bs_step(inserted.0, inserted.1, Some(cursor), true);
            &&& deleted.0 == text
            &&& deleted.1 == cursor
            &&& deleted.2 == None::<int>
        }),
{
    let inserted = TextInput::spec_ins_step(text, cursor, None, typed);
    assert(inserted.0 =~= text.subrange(0, cursor) + typed + text.subrange(
        cursor, text.len() as int));
    let deleted = TextInput::spec_bs_step(inserted.0, inserted.1, Some(cursor), true);
    assert(deleted.0 =~= text);
}

/// Selecting the whole text and then typing replaces the entire value: the
/// new value is exactly the typed text and the cursor sits at its end.
pub proof fn lemma_select_all_then_type(text: Seq<char>, typed: Seq<char>)
    ensures
        TextInput::spec_ins_step(text, text.len() as int, Some(0), typed) == (
        typed, typed.len() as int, None::<int>),
{
    let stepped = TextInput::spec_ins_step(text, text.len() as int, Some(0), typed);
    assert(stepped.0 =~= typed);
}

/// The states a closed, focused dropdown passes through under `n` repeats
/// of the same directional signal.
pub open spec fn select_nav_iter(s: Select, input: PointerState, n: nat) -> Select
    decreases n,
{
    if n == 0 {
        s
    } else {
        select_nav_iter(s, input, (n - 1) as nat).spec_after_nav(input)
    }
}

proof fn lemma_select_step_adds_one(sel: int, n: int, len: int)
    requires
        0 < len,
        0 <= sel < len,
        0 <= n,
    ensures
        ((sel + n) % len + 1) % len == (sel + n + 1) % len,
{
    vstd::arithmetic::div_mod::lemma_mod_bound(sel + n, len);
    vstd::arithmetic::div_mod::lemma_fundamental_div_mod(sel + n, len);
    let q = (sel + n) / len;
    let r = (sel + n) % len;
    if r + 1 < len {
        vstd::arithmetic::div_mod::lemma_small_mod((r + 1) as nat, len as nat);
        assert(sel + n + 1 == q * len + (r + 1)) by (nonlinear_arith)
            requires sel + n == len * q + r;
        vstd::arithmetic::div_mod::lemma_fundamental_div_mod_converse_mod(
            sel + n + 1, len, q, r + 1);
    } else {
        assert(r + 1 == len);
        vstd::arithmetic::div_mod::lemma_mod_self_0(len);
        assert(sel + n + 1 == (q + 1) * len + 0) by (nonlinear_arith)
            requires sel + n == len * q + r, r + 1 == len;
        vstd::arithmetic::div_mod::lemma_fundamental_div_mod_converse_mod(
            sel + n + 1, len, q + 1, 0);
    }
}

proof fn lemma_select_iter_selected(s: Select, input: PointerState, n: nat)
    requires
        s.wf(),
        s.focused,
        !s.open,
        s.options@.len() > 0,
        input.move_right || input.move_down,
        !input.move_left,
        !input.move_up,
    ensures
        select_nav_iter(s, input, n) == (Select {
            selected: ((s.selected + n) % (s.options@.len() as int)) as usize,
            ..s
        }),
        select_nav_iter(s, input, n).wf(),
    decreases n,
{
    let len = s.options@.len() as int;
    vstd::std_specs::vec::axiom_spec_len(&s.options);
    vstd::arithmetic::div_mod::lemma_mod_bound(s.selected + n, len);
    if n == 0 {
        vstd::arithmetic::div_mod::lemma_small_mod(s.selected as nat, len as nat);
    } else {
        lemma_select_iter_selected(s, input, (n - 1) as nat);
        vstd::arithmetic::div_mod::lemma_mod_bound(s.selected + n - 1, len);
        vstd::arithmetic::div_mod::lemma_mod_bound(s.selected + n, len);
        lemma_select_step_adds_one(s.selected as int, n as int - 1, len);
    }
}

/// While a focused dropdown is closed, pressing the same directional signal
/// as many times as there are options returns the selection to where it
/// started (the stepping is circular).
pub proof fn lemma_select_cycle(s: Select, input: PointerState)
    requires
        s.wf(),
        s.focused,
        !s.open,
        s.options@.len() > 0,
        input.move_right || input.move_down,
        !input.move_left,
        !input.move_up,
    ensures
        select_nav_iter(s, input, s.options@.len()) == s,
{
    let len = s.options@.len() as int;
    lemma_select_iter_selected(s, input, s.options@.len());
    vstd::arithmetic::div_mod::lemma_mod_add_multiples_vanish(s.selected as int, len);
    vstd::arithmetic::div_mod::lemma_small_mod(s.selected as nat, len as nat);
}

/// After any selection change, the selected row's rect lies fully inside
/// the viewport, provided a row fits in it at all and the content height
/// stays within the coordinate range.
pub proof fn lemma_selected_row_visible(l: ListView, i: int)
    requires
        l.wf(),
        l.items@.len() > 0,
        l.row_height <= l.rect.height,
        l.items@.len() * l.row_height <= POS_LIMIT,
        0 <= l.scroll_offset,
        0 <= i,
    ensures
        ({
            let moved = l.spec_after_select(i);
            let len = l.items@.len() as int;
            let j = if i > len - 1 {
                len - 1
            } else {
                i
            };
            &&& moved.selected == Some(j as usize)
            &&& moved.scroll_offset <= j * l.row_height
            &&& j * l.row_height + l.row_height <= moved.scroll_offset + l.rect.height
        }),
{
    let len = l.items@.len() as int;
    let rh = l.row_height as int;
    let h = l.rect.height as int;
    let j = if i > len - 1 {
        len - 1
    } else {
        i
    };
    let top = j * rh;
    let bottom = top + rh;
    assert(0 <= top && bottom <= len * rh) by (nonlinear_arith)
        requires
            0 <= j <= len - 1,
            0 < rh,
            top == j * rh,
            bottom == top + rh;
    proof_items_len_bound(l);
    let moved = l.spec_after_select(i);
    let base = if l.selected == Some(j as usize) {
        l
    } else {
        ListView { selected: Some(j as usize), selection_anchor: Some(j as usize), ..l }
    };
    assert(moved.scroll_offset as int == base.spec_visible_scroll());
    let scr = l.scroll_offset as int;
    let lim = base.spec_max_scroll();
    let adjusted = if top < scr {
        top
    } else if bottom > scr + h {
        if bottom - h > 0 {
            bottom - h
        } else {
            0
        }
    } else {
        scr
    };
    let result = if adjusted < 0 {
        0int
    } else if adjusted > lim {
        lim
    } else {
        adjusted
    };
    assert(lim == if len * rh - h > 0 {
        len * rh - h
    } else {
        0
    });
    assert(0 <= result <= lim <= POS_LIMIT);
    assert(base.spec_visible_scroll() == result);
    assert(moved.scroll_offset as int == result);
    assert(result <= top && result + h >= bottom);
}

/// A vector's length always fits in `usize`.
proof fn proof_items_len_bound(l: ListView)
    ensures
        l.items@.len() <= usize::MAX,
{
    vstd::std_specs::vec::axiom_spec_len(&l.items);
}

} // verus!
