//! The hints of keys: the short row at the foot of a screen and the columns of
//! the full help.

use vstd::prelude::*;

use crate::ui::list::smaller;

verus! {

/// A key and what it does.
pub type Hint = (&'static str, &'static str);

/// One titled column of the full help.
pub struct Section {
    pub title: &'static str,
    pub entries: Vec<Hint>,
}

/// The keys that move through a list.
pub const NAV: [Hint; 4] = [
    ("↑/↓", "move"),
    ("pgup/pgdn", "page"),
    ("g/G", "first/last"),
    ("esc", "back"),
];

/// The columns as values.
pub open spec fn sections(list: Seq<Section>) -> Seq<(&'static str, Seq<Hint>)> {
    list.map_values(|s: Section| (s.title, s.entries@))
}

/// The longest column.
pub open spec fn tallest(list: Seq<Section>) -> nat
    decreases list.len(),
{
    if list.len() == 0 {
        0
    } else if list.last().entries@.len() > tallest(list.drop_last()) {
        list.last().entries@.len()
    } else {
        tallest(list.drop_last())
    }
}

/// The rows that the full help takes: the titles and the longest column.
pub fn rows(list: &Vec<Section>) -> (count: usize)
    ensures
        count == smaller((tallest(list@) + 1) as int, usize::MAX as int),
{
    let mut most: usize = 0;
    let mut i: usize = 0;
    while i < list.len()
        invariant
            i <= list@.len(),
            most == tallest(list@.take(i as int)),
        decreases list@.len() - i,
    {
        assert(list@.take(i + 1).drop_last() =~= list@.take(i as int));
        if list[i].entries.len() > most {
            most = list[i].entries.len();
        }
        i += 1;
    }
    assert(list@.take(i as int) =~= list@);
    most.saturating_add(1)
}

/// A list of hints out of a table.
pub fn hints(table: &[Hint]) -> (list: Vec<Hint>)
    ensures
        list@ == table@,
{
    let mut list: Vec<Hint> = Vec::new();
    let mut i: usize = 0;
    while i < table.len()
        invariant
            i <= table@.len(),
            list@ == table@.take(i as int),
        decreases table@.len() - i,
    {
        list.push(table[i]);
        assert(list@ =~= table@.take(i + 1));
        i += 1;
    }
    assert(list@ =~= table@);
    list
}

} // verus!
