//! The app tabs.

use vstd::prelude::*;

use crate::text::same_text;

pub mod auto_search;
pub mod coming_soon;
pub mod delete_prompt;
pub mod downloads;
pub mod jellyfin;
pub mod radarr;
pub mod revealing;
pub mod settings;
pub mod sonarr;

verus! {

/// Every app tab's id and label, in the built-in order. The single source of
/// tab identity for the persisted tab order, so a tab can be named and
/// labelled (even a hidden one) without building it.
pub const TAB_CATALOG: [(&'static str, &'static str); 4] = [
    ("jellyfin", "Jellyfin"),
    ("radarr", "Radarr"),
    ("sonarr", "Sonarr"),
    ("settings", "Settings"),
];

/// Where an id stands in a list of ids: its first position, or `None`.
pub open spec fn position_of(known: Seq<Seq<char>>, id: Seq<char>) -> Option<int>
    decreases known.len(),
{
    if known.len() == 0 {
        None
    } else {
        match position_of(known.drop_last(), id) {
            Some(i) => Some(i),
            None => if known.last() == id {
                Some(known.len() - 1)
            } else {
                None
            },
        }
    }
}

/// The list with a position behind it, unless it is there already.
pub open spec fn with_new(order: Seq<int>, i: int) -> Seq<int> {
    if order.contains(i) {
        order
    } else {
        order.push(i)
    }
}

/// The positions that the saved ids name, each where it is named first.
pub open spec fn saved_order(known: Seq<Seq<char>>, saved: Seq<Seq<char>>) -> Seq<int>
    decreases saved.len(),
{
    if saved.len() == 0 {
        Seq::empty()
    } else {
        let before = saved_order(known, saved.drop_last());
        match position_of(known, saved.last()) {
            Some(i) => with_new(before, i),
            None => before,
        }
    }
}

/// An order filled up with the positions below `n` that it lacks.
pub open spec fn filled_up(order: Seq<int>, n: nat) -> Seq<int>
    decreases n,
{
    if n == 0 {
        order
    } else {
        with_new(filled_up(order, (n - 1) as nat), n - 1)
    }
}

/// The display order of the tabs: the saved ones first, then the others as
/// they are built.
pub open spec fn tab_order(known: Seq<Seq<char>>, saved: Seq<Seq<char>>) -> Seq<int> {
    filled_up(saved_order(known, saved), known.len())
}

/// The characters of each slice.
pub open spec fn slice_texts(list: Seq<&str>) -> Seq<Seq<char>> {
    list.map_values(|s: &str| s@)
}

/// Whether every position below `n` is listed exactly once, and nothing else.
pub open spec fn is_permutation(order: Seq<int>, n: nat) -> bool {
    &&& order.len() == n
    &&& order.no_duplicates()
    &&& forall|i: int| 0 <= i < order.len() ==> 0 <= #[trigger] order[i] < n
    &&& forall|i: int| 0 <= i < n ==> #[trigger] order.contains(i)
}

proof fn lemma_position_in_range(known: Seq<Seq<char>>, id: Seq<char>)
    ensures
        position_of(known, id) is Some ==> 0 <= position_of(known, id)->0 < known.len(),
        position_of(known, id) is Some ==> known[position_of(known, id)->0] == id,
    decreases known.len(),
{
    if known.len() > 0 {
        lemma_position_in_range(known.drop_last(), id);
    }
}

proof fn lemma_with_new(order: Seq<int>, i: int, n: nat)
    requires
        order.no_duplicates(),
        forall|k: int| 0 <= k < order.len() ==> 0 <= #[trigger] order[k] < n,
        0 <= i < n,
    ensures
        with_new(order, i).no_duplicates(),
        forall|k: int| 0 <= k < with_new(order, i).len() ==> 0 <= #[trigger] with_new(order, i)[k]
            < n,
        with_new(order, i).contains(i),
        forall|j: int| #[trigger] order.contains(j) ==> with_new(order, i).contains(j),
{
    let next = with_new(order, i);
    if !order.contains(i) {
        assert(next[order.len() as int] == i);
        assert forall|j: int| #[trigger] order.contains(j) implies next.contains(j) by {
            let k = choose|k: int| 0 <= k < order.len() && order[k] == j;
            assert(next[k] == j);
        }
    }
}

proof fn lemma_saved_order(known: Seq<Seq<char>>, saved: Seq<Seq<char>>)
    ensures
        saved_order(known, saved).no_duplicates(),
        forall|k: int|
            0 <= k < saved_order(known, saved).len() ==> 0 <= #[trigger] saved_order(
                known,
                saved,
            )[k] < known.len(),
    decreases saved.len(),
{
    if saved.len() > 0 {
        lemma_saved_order(known, saved.drop_last());
        lemma_position_in_range(known, saved.last());
        if let Some(i) = position_of(known, saved.last()) {
            lemma_with_new(saved_order(known, saved.drop_last()), i, known.len());
        }
    }
}

proof fn lemma_filled_up(order: Seq<int>, m: nat, n: nat)
    requires
        m <= n,
        order.no_duplicates(),
        forall|k: int| 0 <= k < order.len() ==> 0 <= #[trigger] order[k] < n,
    ensures
        filled_up(order, m).no_duplicates(),
        forall|k: int| 0 <= k < filled_up(order, m).len() ==> 0 <= #[trigger] filled_up(order, m)[k]
            < n,
        forall|i: int| 0 <= i < m ==> #[trigger] filled_up(order, m).contains(i),
    decreases m,
{
    if m > 0 {
        lemma_filled_up(order, (m - 1) as nat, n);
        let before = filled_up(order, (m - 1) as nat);
        lemma_with_new(before, m - 1, n);
        assert forall|i: int| 0 <= i < m implies #[trigger] filled_up(order, m).contains(i) by {
            if i < m - 1 {
                assert(before.contains(i));
            }
        }
    }
}

proof fn lemma_full_length(order: Seq<int>, n: nat)
    requires
        order.no_duplicates(),
        forall|k: int| 0 <= k < order.len() ==> 0 <= #[trigger] order[k] < n,
        forall|i: int| 0 <= i < n ==> #[trigger] order.contains(i),
    ensures
        order.len() == n,
{
    let all = vstd::set_lib::set_int_range(0, n as int);
    vstd::set_lib::lemma_int_range(0, n as int);
    assert(order.to_set() =~= all) by {
        assert forall|i: int| order.to_set().contains(i) == all.contains(i) by {
            if order.contains(i) {
                let k = choose|k: int| 0 <= k < order.len() && order[k] == i;
                assert(0 <= order[k] < n);
            }
        }
    }
    order.unique_seq_to_set();
}

/// The display order names every tab exactly once, whatever was saved.
pub proof fn law_tab_order_is_a_permutation(known: Seq<Seq<char>>, saved: Seq<Seq<char>>)
    ensures
        is_permutation(tab_order(known, saved), known.len()),
{
    lemma_saved_order(known, saved);
    lemma_filled_up(saved_order(known, saved), known.len(), known.len());
    lemma_full_length(tab_order(known, saved), known.len());
}

/// The saved tabs come first, in the order they were saved in.
pub proof fn law_saved_tabs_come_first(known: Seq<Seq<char>>, saved: Seq<Seq<char>>)
    ensures
        saved_order(known, saved).is_prefix_of(tab_order(known, saved)),
{
    lemma_filling_up_appends(saved_order(known, saved), known.len());
}

proof fn lemma_filling_up_appends(order: Seq<int>, n: nat)
    ensures
        order.is_prefix_of(filled_up(order, n)),
    decreases n,
{
    if n > 0 {
        lemma_filling_up_appends(order, (n - 1) as nat);
    }
}

/// Among the saved tabs are exactly those that some saved id names, each once,
/// in the order in which they are named first.
pub proof fn law_saved_tabs_keep_their_first_places(known: Seq<Seq<char>>, saved: Seq<Seq<char>>)
    ensures
        saved_order(known, saved).no_duplicates(),
        forall|i: int| #[trigger]
            saved_order(known, saved).contains(i) <==> exists|k: int|
                0 <= k < saved.len() && position_of(known, #[trigger] saved[k]) == Some(i),
        forall|a: int, b: int|
            0 <= a < b < saved_order(known, saved).len() ==> {
                let (x, y) = (
                    known[#[trigger] saved_order(known, saved)[a]],
                    known[#[trigger] saved_order(known, saved)[b]],
                );
                &&& position_of(saved, x) is Some
                &&& position_of(saved, y) is Some
                &&& position_of(saved, x)->0 < position_of(saved, y)->0
            },
{
    lemma_saved_order(known, saved);
    lemma_named_positions(known, saved);
    let order = saved_order(known, saved);
    assert forall|a: int, b: int| 0 <= a < b < order.len() implies {
        let (x, y) = (known[#[trigger] order[a]], known[#[trigger] order[b]]);
        &&& position_of(saved, x) is Some
        &&& position_of(saved, y) is Some
        &&& position_of(saved, x)->0 < position_of(saved, y)->0
    } by {
        lemma_first_places(known, saved, a, b);
    }
}

proof fn lemma_named_positions(known: Seq<Seq<char>>, saved: Seq<Seq<char>>)
    ensures
        forall|i: int| #[trigger]
            saved_order(known, saved).contains(i) <==> exists|k: int|
                0 <= k < saved.len() && position_of(known, #[trigger] saved[k]) == Some(i),
    decreases saved.len(),
{
    let order = saved_order(known, saved);
    if saved.len() > 0 {
        let shorter = saved.drop_last();
        let before = saved_order(known, shorter);
        lemma_named_positions(known, shorter);
        assert forall|i: int| #[trigger] order.contains(i) <==> exists|k: int|
            0 <= k < saved.len() && position_of(known, #[trigger] saved[k]) == Some(i) by {
            lemma_with_new_members(before, position_of(known, saved.last()), i);
            if before.contains(i) {
                let k = choose|k: int|
                    0 <= k < shorter.len() && position_of(known, #[trigger] shorter[k]) == Some(i);
                assert(position_of(known, saved[k]) == Some(i));
            }
            if exists|k: int|
                0 <= k < saved.len() && position_of(known, #[trigger] saved[k]) == Some(i) {
                let k = choose|k: int|
                    0 <= k < saved.len() && position_of(known, #[trigger] saved[k]) == Some(i);
                if k < shorter.len() {
                    assert(position_of(known, shorter[k]) == Some(i));
                }
            }
            if position_of(known, saved.last()) == Some(i) {
                assert(position_of(known, saved[saved.len() - 1]) == Some(i));
            }
        }
    }
}

proof fn lemma_with_new_members(order: Seq<int>, found: Option<int>, i: int)
    ensures
        found matches Some(at) ==> (with_new(order, at).contains(i) <==> order.contains(i) || i
            == at),
{
    if let Some(at) = found {
        let next = with_new(order, at);
        if !order.contains(at) {
            assert(next[order.len() as int] == at);
            if order.contains(i) {
                let k = choose|k: int| 0 <= k < order.len() && order[k] == i;
                assert(next[k] == i);
            }
            if next.contains(i) {
                let k = choose|k: int| 0 <= k < next.len() && next[k] == i;
                if k < order.len() {
                    assert(order[k] == i);
                }
            }
        }
    }
}

proof fn lemma_position_is_first(list: Seq<Seq<char>>, k: int)
    requires
        0 <= k < list.len(),
    ensures
        position_of(list, list[k]) is Some,
        position_of(list, list[k])->0 <= k,
    decreases list.len(),
{
    if k < list.len() - 1 {
        lemma_position_is_first(list.drop_last(), k);
    } else {
        lemma_position_in_range(list.drop_last(), list[k]);
    }
}

proof fn lemma_first_places(known: Seq<Seq<char>>, saved: Seq<Seq<char>>, a: int, b: int)
    requires
        0 <= a <= b < saved_order(known, saved).len(),
    ensures
        ({
            let order = saved_order(known, saved);
            let (x, y) = (known[order[a]], known[order[b]]);
            &&& position_of(saved, x) is Some
            &&& position_of(saved, y) is Some
            &&& a < b ==> position_of(saved, x)->0 < position_of(saved, y)->0
        }),
    decreases saved.len(),
{
    let shorter = saved.drop_last();
    let before = saved_order(known, shorter);
    let order = saved_order(known, saved);
    if b < before.len() {
        lemma_first_places(known, shorter, a, b);
    } else {
        // The last id was named for the first time.
        let at = position_of(known, saved.last())->0;
        lemma_position_in_range(known, saved.last());
        assert(order == before.push(at));
        assert(known[at] == saved.last());
        assert(position_of(shorter, saved.last()) is None) by {
            if position_of(shorter, saved.last()) is Some {
                let k = position_of(shorter, saved.last())->0;
                lemma_position_in_range(shorter, saved.last());
                lemma_named_positions(known, shorter);
                assert(position_of(known, shorter[k]) == Some(at));
                assert(before.contains(at));
            }
        }
        if a < b {
            lemma_first_places(known, shorter, a, a);
            lemma_position_in_range(shorter, known[order[a]]);
        }
    }
}

/// The tabs that are not saved follow the saved ones as they are built.
pub proof fn law_other_tabs_follow_in_order(known: Seq<Seq<char>>, saved: Seq<Seq<char>>)
    ensures
        forall|a: int, b: int|
            saved_order(known, saved).len() <= a < b < known.len() ==> #[trigger] tab_order(
                known,
                saved,
            )[a] < #[trigger] tab_order(known, saved)[b],
{
    law_tab_order_is_a_permutation(known, saved);
    lemma_filling_ascends(saved_order(known, saved), known.len());
}

proof fn lemma_filling_ascends(order: Seq<int>, n: nat)
    ensures
        filled_up(order, n).len() >= order.len(),
        forall|a: int|
            order.len() <= a < filled_up(order, n).len() ==> #[trigger] filled_up(order, n)[a] < n,
        forall|a: int, b: int|
            order.len() <= a < b < filled_up(order, n).len() ==> #[trigger] filled_up(order, n)[a]
                < #[trigger] filled_up(order, n)[b],
    decreases n,
{
    if n > 0 {
        lemma_filling_ascends(order, (n - 1) as nat);
    }
}

/// The ids at positions, in order.
pub open spec fn ids_at(known: Seq<Seq<char>>, order: Seq<int>) -> Seq<Seq<char>> {
    order.map_values(|i: int| known[i])
}

/// Saving the display order and resolving it again gives it back.
pub proof fn law_resolved_orders_are_stable(known: Seq<Seq<char>>, saved: Seq<Seq<char>>)
    requires
        known.no_duplicates(),
    ensures
        tab_order(known, ids_at(known, tab_order(known, saved))) == tab_order(known, saved),
{
    let order = tab_order(known, saved);
    law_tab_order_is_a_permutation(known, saved);
    lemma_named_order(known, order);
    lemma_full_is_kept(order, known.len(), known.len());
}

proof fn lemma_own_position(known: Seq<Seq<char>>, i: int)
    requires
        known.no_duplicates(),
        0 <= i < known.len(),
    ensures
        position_of(known, known[i]) == Some(i),
{
    lemma_position_is_first(known, i);
    lemma_position_in_range(known, known[i]);
}

proof fn lemma_named_order(known: Seq<Seq<char>>, order: Seq<int>)
    requires
        known.no_duplicates(),
        order.no_duplicates(),
        forall|k: int| 0 <= k < order.len() ==> 0 <= #[trigger] order[k] < known.len(),
    ensures
        saved_order(known, ids_at(known, order)) == order,
    decreases order.len(),
{
    if order.len() > 0 {
        let shorter = order.drop_last();
        assert(ids_at(known, order).drop_last() =~= ids_at(known, shorter));
        lemma_named_order(known, shorter);
        lemma_own_position(known, order.last());
        assert(!shorter.contains(order.last())) by {
            if shorter.contains(order.last()) {
                let k = choose|k: int| 0 <= k < shorter.len() && shorter[k] == order.last();
                assert(order[k] == order[order.len() - 1]);
            }
        }
        assert(shorter.push(order.last()) =~= order);
    } else {
        assert(ids_at(known, order) =~= Seq::empty());
        assert(order =~= Seq::empty());
    }
}

proof fn lemma_full_is_kept(order: Seq<int>, m: nat, n: nat)
    requires
        m <= n,
        forall|i: int| 0 <= i < n ==> #[trigger] order.contains(i),
    ensures
        filled_up(order, m) == order,
    decreases m,
{
    if m > 0 {
        lemma_full_is_kept(order, (m - 1) as nat, n);
        assert(order.contains(m - 1));
    }
}

/// With nothing saved, the tabs stand as they are built.
pub proof fn law_default_order(known: Seq<Seq<char>>)
    ensures
        tab_order(known, Seq::empty()) == Seq::new(known.len(), |i: int| i),
{
    lemma_filling_the_empty(known.len());
}

proof fn lemma_filling_the_empty(n: nat)
    ensures
        filled_up(Seq::empty(), n) == Seq::new(n, |i: int| i),
    decreases n,
{
    if n > 0 {
        lemma_filling_the_empty((n - 1) as nat);
    }
    assert(filled_up(Seq::empty(), n) =~= Seq::new(n, |i: int| i));
}

/// An order of positions as integers.
pub open spec fn positions(order: Seq<usize>) -> Seq<int> {
    order.map_values(|i: usize| i as int)
}

fn push_new(order: &mut Vec<usize>, i: usize)
    ensures
        positions(final(order)@) == with_new(positions(old(order)@), i as int),
{
    let mut k: usize = 0;
    while k < order.len()
        invariant
            k <= order@.len(),
            forall|j: int| 0 <= j < k ==> #[trigger] order@[j] != i,
        decreases order@.len() - k,
    {
        if order[k] == i {
            assert(positions(order@)[k as int] == i as int);
            return;
        }
        k += 1;
    }
    assert(!positions(order@).contains(i as int)) by {
        if positions(order@).contains(i as int) {
            let j = choose|j: int| 0 <= j < order@.len() && positions(order@)[j] == i as int;
            assert(order@[j] == i);
        }
    }
    let ghost before = order@;
    order.push(i);
    assert(positions(order@) =~= positions(before).push(i as int));
}

fn find_id(known_ids: &[&str], id: &str) -> (found: Option<usize>)
    ensures
        found is Some == position_of(slice_texts(known_ids@), id@) is Some,
        found is Some ==> found->0 == position_of(slice_texts(known_ids@), id@)->0 && found->0
            < known_ids@.len(),
{
    let mut i: usize = 0;
    while i < known_ids.len()
        invariant
            i <= known_ids@.len(),
            position_of(slice_texts(known_ids@).take(i as int), id@) is None,
        decreases known_ids@.len() - i,
    {
        let ghost all = slice_texts(known_ids@);
        assert(all.take(i + 1).drop_last() =~= all.take(i as int));
        if same_text(known_ids[i], id) {
            proof {
                lemma_position_stays(all, i + 1, id@);
            }
            return Some(i);
        }
        i += 1;
    }
    assert(slice_texts(known_ids@).take(i as int) =~= slice_texts(known_ids@));
    None
}

proof fn lemma_position_stays(known: Seq<Seq<char>>, n: int, id: Seq<char>)
    requires
        0 <= n <= known.len(),
        position_of(known.take(n), id) is Some,
    ensures
        position_of(known, id) == position_of(known.take(n), id),
    decreases known.len() - n,
{
    if n < known.len() {
        assert(known.take(n + 1).drop_last() =~= known.take(n));
        lemma_position_stays(known, n + 1, id);
    } else {
        assert(known.take(n) =~= known);
    }
}

/// Resolve a persisted tab order into display positions over `known_ids`: the
/// `saved` ids first, in the order given (skipping any that no longer name a
/// known tab, and any duplicate), then every remaining known id in its
/// original order. A saved order that predates a new app still shows that app
/// (at the end), and an id dropped from a build simply disappears.
pub fn order_indices(known_ids: &[&str], saved: &[String]) -> (order: Vec<usize>)
    ensures
        positions(order@) == tab_order(slice_texts(known_ids@), crate::text::texts(saved@)),
        is_permutation(positions(order@), known_ids@.len()),
{
    let mut order: Vec<usize> = Vec::new();
    let ghost known = slice_texts(known_ids@);
    let ghost all = crate::text::texts(saved@);
    assert(positions(order@) =~= Seq::empty());
    let mut i: usize = 0;
    while i < saved.len()
        invariant
            i <= saved@.len(),
            known == slice_texts(known_ids@),
            all == crate::text::texts(saved@),
            positions(order@) == saved_order(known, all.take(i as int)),
        decreases saved@.len() - i,
    {
        assert(all.take(i + 1).drop_last() =~= all.take(i as int));
        if let Some(at) = find_id(known_ids, saved[i].as_str()) {
            push_new(&mut order, at);
        }
        i += 1;
    }
    assert(all.take(i as int) =~= all);
    let mut k: usize = 0;
    while k < known_ids.len()
        invariant
            k <= known_ids@.len(),
            positions(order@) == filled_up(saved_order(known, all), k as nat),
        decreases known_ids@.len() - k,
    {
        push_new(&mut order, k);
        k += 1;
    }
    proof {
        law_tab_order_is_a_permutation(known, all);
    }
    order
}

} // verus!
