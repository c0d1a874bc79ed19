//! Moving a cursor through a list, and the part of a list that is on screen.

use std::sync::Arc;
use vstd::arithmetic::div_mod::*;
use vstd::prelude::*;

verus! {

/// One step of a cursor.
#[derive(Debug, Clone, Copy, PartialEq, Eq, Structural)]
pub enum Step {
    Up,
    Down,
    PageUp,
    PageDown,
    Home,
    End,
}

/// The last position of a list, or the first of an empty one.
pub open spec fn last_of(len: int) -> int {
    if len > 0 {
        len - 1
    } else {
        0
    }
}

/// The smaller of two numbers.
pub open spec fn smaller(a: int, b: int) -> int {
    if a <= b {
        a
    } else {
        b
    }
}

/// A cursor one or more rows up, stopping at the first.
pub open spec fn raised(cursor: usize, by: int) -> usize {
    if cursor >= by {
        (cursor - by) as usize
    } else {
        0
    }
}

/// A cursor after a step through a list of `len` rows, `page` rows to a page.
pub open spec fn stepped(step: Step, cursor: usize, len: usize, page: usize) -> usize {
    match step {
        Step::Up => raised(cursor, 1),
        Step::Down => if cursor + 1 < len {
            (cursor + 1) as usize
        } else {
            cursor
        },
        Step::PageUp => raised(cursor, page as int),
        Step::PageDown => smaller(cursor + page, last_of(len as int)) as usize,
        Step::Home => 0,
        Step::End => last_of(len as int) as usize,
    }
}

/// Move a cursor through a list.
pub fn step_cursor(step: Step, cursor: usize, len: usize, page: usize) -> (moved: usize)
    ensures
        moved == stepped(step, cursor, len, page),
{
    let last: usize = len.saturating_sub(1);
    match step {
        Step::Up => cursor.saturating_sub(1),
        Step::Down => if cursor < last {
            cursor + 1
        } else {
            cursor
        },
        Step::PageUp => cursor.saturating_sub(page),
        Step::PageDown => {
            if cursor <= last && page <= last - cursor {
                cursor + page
            } else {
                last
            }
        },
        Step::Home => 0,
        Step::End => last,
    }
}

/// A cursor on a row of the list stays on one.
pub proof fn law_cursor_stays_in_the_list(step: Step, cursor: usize, len: usize, page: usize)
    requires
        cursor < len,
    ensures
        stepped(step, cursor, len, page) < len,
{
}

/// One entry up in a menu whose ends meet.
pub open spec fn round_up(cursor: usize, count: usize) -> usize {
    if count > 0 {
        ((cursor + count - 1) % count as int) as usize
    } else {
        cursor
    }
}

/// One entry down in a menu whose ends meet.
pub open spec fn round_down(cursor: usize, count: usize) -> usize {
    if count > 0 {
        ((cursor + 1) % count as int) as usize
    } else {
        cursor
    }
}

/// Going round a menu one way and back ends where it began.
pub proof fn law_rounds_undo_each_other(cursor: usize, count: usize)
    requires
        cursor < count,
    ensures
        round_down(round_up(cursor, count), count) == cursor,
        round_up(round_down(cursor, count), count) == cursor,
        round_up(cursor, count) < count,
        round_down(cursor, count) < count,
{
    let n = count as int;
    if cursor == 0 {
        lemma_small_mod((count - 1) as nat, count as nat);
        lemma_mod_self_0(n);
    } else {
        lemma_mod_add_multiples_vanish(cursor - 1, n);
        lemma_small_mod((cursor - 1) as nat, count as nat);
        lemma_small_mod(cursor as nat, count as nat);
    }
    if cursor + 1 == count {
        lemma_mod_self_0(n);
        lemma_small_mod((count - 1) as nat, count as nat);
    } else {
        lemma_small_mod((cursor + 1) as nat, count as nat);
        lemma_mod_add_multiples_vanish(cursor as int, n);
        lemma_small_mod(cursor as nat, count as nat);
    }
}

/// One entry up in a menu whose ends meet.
pub fn go_round_up(cursor: usize, count: usize) -> (moved: usize)
    ensures
        moved == round_up(cursor, count),
{
    if count == 0 {
        return cursor;
    }
    if cursor == 0 {
        proof {
            lemma_small_mod((count - 1) as nat, count as nat);
        }
        count - 1
    } else {
        proof {
            lemma_mod_add_multiples_vanish(cursor - 1, count as int);
        }
        (cursor - 1) % count
    }
}

/// One entry down in a menu whose ends meet.
pub fn go_round_down(cursor: usize, count: usize) -> (moved: usize)
    ensures
        moved == round_down(cursor, count),
{
    if count == 0 {
        return cursor;
    }
    let at: usize = cursor % count;
    proof {
        lemma_add_mod_noop(cursor as int, 1, count as int);
        lemma_add_mod_noop(at as int, 1, count as int);
        lemma_small_mod(at as nat, count as nat);
    }
    if at + 1 == count {
        proof {
            lemma_mod_self_0(count as int);
        }
        0
    } else {
        proof {
            lemma_small_mod((at + 1) as nat, count as nat);
        }
        at + 1
    }
}

/// The next entry of a menu of `count` entries, stopping at the last.
pub open spec fn menu_down(selected: usize, count: int) -> usize {
    smaller(selected + 1, last_of(count)) as usize
}

pub fn next_entry(selected: usize, count: usize) -> (next: usize)
    ensures
        next == menu_down(selected, count as int),
{
    let last: usize = count.saturating_sub(1);
    if selected < last {
        selected + 1
    } else {
        last
    }
}

/// The first row on screen: as late as it can be with the cursor on the first
/// page, then scrolling so that the cursor is the last row.
pub open spec fn first_visible(cursor: int, len: int, per_page: int) -> int {
    if len <= per_page || cursor < per_page {
        0
    } else if cursor >= len {
        len - per_page
    } else {
        cursor - per_page + 1
    }
}

/// Where the visible part of a list starts.
pub fn window_start(cursor: usize, len: usize, per_page: usize) -> (first: usize)
    requires
        per_page > 0,
    ensures
        first == first_visible(cursor as int, len as int, per_page as int),
        cursor < len ==> first <= cursor < first + per_page,
        len > 0 ==> first < len,
{
    if len <= per_page || cursor < per_page {
        0
    } else if cursor >= len {
        len - per_page
    } else {
        cursor - per_page + 1
    }
}

/// Where the visible part of a list ends.
pub fn window_end(first: usize, len: usize, per_page: usize) -> (end: usize)
    requires
        first <= len,
    ensures
        end == smaller(first + per_page, len as int),
{
    if per_page <= len - first {
        first + per_page
    } else {
        len
    }
}

/// How many entries of `rows` rows each fit, at least one.
pub open spec fn entries_per_page(height: u16, rows: u16) -> usize {
    if rows > 0 && height / rows > 0 {
        (height / rows) as usize
    } else {
        1
    }
}

pub fn per_page(height: u16, rows: u16) -> (n: usize)
    requires
        rows > 0,
    ensures
        n == entries_per_page(height, rows),
        n > 0,
{
    let n: u16 = height / rows;
    if n > 0 {
        n as usize
    } else {
        1
    }
}

// The order of a list.

/// Whether positions name each entry of a list of `n` once.
pub open spec fn is_order(order: Seq<usize>, n: nat) -> bool {
    &&& order.len() == n
    &&& forall|i: int| 0 <= i < n ==> #[trigger] order[i] < n
    &&& forall|i: int, j: int| 0 <= i < j < n ==> #[trigger] order[i] != #[trigger] order[j]
}

/// The entries of a list in the order of their positions.
pub open spec fn reordered<T>(list: Seq<T>, order: Seq<usize>) -> Seq<T> {
    Seq::new(order.len(), |i: int| list[order[i] as int])
}

/// Another order leaves the list its entries, each as often as it was there.
pub proof fn law_orders_keep_the_entries<T>(list: Seq<T>, order: Seq<usize>)
    requires
        is_order(order, list.len()),
    ensures
        reordered(list, order).to_multiset() == list.to_multiset(),
    decreases list.len(),
{
    broadcast use vstd::seq_lib::group_to_multiset_ensures;

    if list.len() == 0 {
        assert(reordered(list, order) =~= list);
    } else {
        let last = order.last();
        let rest = list.remove(last as int);
        // The positions of the others once the last named entry is taken out.
        let others = Seq::new(
            (order.len() - 1) as nat,
            |i: int|
                if order[i] < last {
                    order[i]
                } else {
                    (order[i] - 1) as usize
                },
        );
        assert forall|i: int| 0 <= i < others.len() implies #[trigger] others[i] < rest.len() by {
            assert(order[i] != order[order.len() - 1]);
        }
        assert forall|i: int, j: int| 0 <= i < j < others.len() implies #[trigger] others[i]
            != #[trigger] others[j] by {
            assert(order[i] != order[order.len() - 1]);
            assert(order[j] != order[order.len() - 1]);
            assert(order[i] != order[j]);
        }
        law_orders_keep_the_entries(rest, others);
        assert forall|i: int| 0 <= i < others.len() implies rest[others[i] as int]
            == list[#[trigger] order[i] as int] by {
            assert(order[i] != order[order.len() - 1]);
        }
        assert(reordered(list, order) =~= reordered(rest, others).push(list[last as int]));
        assert(list.contains(list[last as int]));
        assert(list.to_multiset() =~= rest.to_multiset().insert(list[last as int]));
    }
}

/// Whether positions name each entry of a list of `n` once.
pub fn orders(order: &Vec<usize>, n: usize) -> (answer: bool)
    ensures
        answer == is_order(order@, n as nat),
{
    if order.len() != n {
        return false;
    }
    let mut named: Vec<bool> = Vec::new();
    let mut k: usize = 0;
    while k < n
        invariant
            k <= n,
            named@.len() == k,
            forall|m: int| 0 <= m < k ==> !#[trigger] named@[m],
        decreases n - k,
    {
        named.push(false);
        k += 1;
    }
    let mut i: usize = 0;
    while i < n
        invariant
            i <= n,
            n == order@.len(),
            named@.len() == n,
            forall|m: int| 0 <= m < i ==> #[trigger] order@[m] < n,
            forall|m: int| 0 <= m < i ==> named@[#[trigger] order@[m] as int],
            forall|at: int|
                0 <= at < n && #[trigger] named@[at] ==> exists|m: int|
                    0 <= m < i && #[trigger] order@[m] == at,
            forall|m: int, l: int| 0 <= m < l < i ==> #[trigger] order@[m] != #[trigger] order@[l],
        decreases n - i,
    {
        let at: usize = order[i];
        if at >= n || named[at] {
            return false;
        }
        let ghost before = named@;
        named[at] = true;
        assert forall|p: int| 0 <= p < n && #[trigger] named@[p] implies exists|m: int|
            0 <= m < i + 1 && #[trigger] order@[m] == p by {
            if p == at {
                assert(order@[i as int] == p);
            } else {
                assert(before[p]);
            }
        }
        i += 1;
    }
    true
}

/// The entries of a list in another order.
pub fn reorder<T>(list: &Vec<Arc<T>>, order: &Vec<usize>) -> (sorted: Vec<Arc<T>>)
    requires
        is_order(order@, list@.len()),
    ensures
        sorted@ == reordered(list@, order@),
{
    let mut sorted: Vec<Arc<T>> = Vec::new();
    let mut i: usize = 0;
    while i < order.len()
        invariant
            i <= order@.len(),
            is_order(order@, list@.len()),
            sorted@ == reordered(list@, order@.take(i as int)),
        decreases order@.len() - i,
    {
        sorted.push(list[order[i]].clone());
        assert(sorted@ =~= reordered(list@, order@.take(i + 1)));
        i += 1;
    }
    assert(order@.take(i as int) =~= order@);
    sorted
}

/// Up and down move by one row, the page keys by a page, and home and end go to
/// the ends; none leaves the list.
pub proof fn law_steps_move_by_rows_and_pages(cursor: usize, len: usize, page: usize)
    requires
        cursor < len,
    ensures
        cursor > 0 ==> stepped(Step::Up, cursor, len, page) == cursor - 1,
        stepped(Step::Up, 0, len, page) == 0,
        cursor + 1 < len ==> stepped(Step::Down, cursor, len, page) == cursor + 1,
        cursor + 1 == len ==> stepped(Step::Down, cursor, len, page) == cursor,
        cursor >= page ==> stepped(Step::PageUp, cursor, len, page) == cursor - page,
        cursor < page ==> stepped(Step::PageUp, cursor, len, page) == 0,
        cursor + page < len ==> stepped(Step::PageDown, cursor, len, page) == cursor + page,
        cursor + page >= len ==> stepped(Step::PageDown, cursor, len, page) == len - 1,
        stepped(Step::Home, cursor, len, page) == 0,
        stepped(Step::End, cursor, len, page) == len - 1,
{
}

/// The page that is drawn holds the row under the cursor, lies in the list, and
/// is full where the list is long enough.
pub proof fn law_the_cursor_is_on_the_page(cursor: int, len: int, per_page: int)
    requires
        0 <= cursor < len,
        per_page > 0,
    ensures
        ({
            let first = first_visible(cursor, len, per_page);
            &&& 0 <= first <= cursor < first + per_page
            &&& len >= per_page ==> first + per_page <= len
            &&& len < per_page ==> first == 0
        }),
{
}

} // verus!
