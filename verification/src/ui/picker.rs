//! A filterable list to choose from: some entries pinned to its top, the rest
//! narrowed down by what is typed.

use vstd::prelude::*;
use vstd::string::*;

use crate::app::{KeyCode, KeyEvent};
use crate::text::{contains, lowercase, occurs, same_text, to_lowercase};
use crate::ui::input::{TextInput, TextModel};

verus! {

/// An entry: the key it is known by and the label it is shown under.
#[derive(Debug)]
pub struct PickerItem {
    pub key: String,
    pub label: String,
}

/// An entry as values: key and label.
pub type ItemModel = (Seq<char>, Seq<char>);

impl View for PickerItem {
    type V = ItemModel;

    open spec fn view(&self) -> ItemModel {
        (self.key@, self.label@)
    }
}

impl PickerItem {
    pub fn new(key: &str, label: String) -> (item: PickerItem)
        ensures
            item@ == (key@, label@),
    {
        PickerItem { key: key.to_owned(), label }
    }

    fn copy(&self) -> (item: PickerItem)
        ensures
            item@ == self@,
    {
        PickerItem { key: self.key.clone(), label: self.label.clone() }
    }
}

/// Entries as values.
pub open spec fn item_models(items: Seq<PickerItem>) -> Seq<ItemModel> {
    items.map_values(|i: PickerItem| i@)
}

/// What a key did to the list.
#[derive(Debug)]
pub enum PickerEvent {
    /// Nothing for the owner to do.
    Consumed,
    /// The entry with this key was chosen.
    Chosen(String),
    /// The list was left without a choice.
    Cancel,
}

/// What a key did to the list, as values.
pub enum PickerOutcome {
    Consumed,
    Chosen(Seq<char>),
    Cancel,
}

impl View for PickerEvent {
    type V = PickerOutcome;

    open spec fn view(&self) -> PickerOutcome {
        match self {
            PickerEvent::Consumed => PickerOutcome::Consumed,
            PickerEvent::Chosen(key) => PickerOutcome::Chosen(key@),
            PickerEvent::Cancel => PickerOutcome::Cancel,
        }
    }
}

/// The list.
#[derive(Debug)]
pub struct Picker {
    pub pinned: Vec<PickerItem>,
    pub items: Vec<PickerItem>,
    pub filter: TextInput,
    pub cursor: usize,
}

/// The list as values.
#[verifier::ext_equal]
pub struct PickerModel {
    pub pinned: Seq<ItemModel>,
    pub items: Seq<ItemModel>,
    pub filter: TextModel,
    pub cursor: usize,
}

impl View for Picker {
    type V = PickerModel;

    open spec fn view(&self) -> PickerModel {
        PickerModel {
            pinned: item_models(self.pinned@),
            items: item_models(self.items@),
            filter: self.filter@,
            cursor: self.cursor,
        }
    }
}

/// The entries whose label contains the needle, whatever the case, in order.
pub open spec fn matching(items: Seq<ItemModel>, needle: Seq<char>) -> Seq<ItemModel>
    decreases items.len(),
{
    if items.len() == 0 {
        Seq::empty()
    } else if occurs(lowercase(items.last().1), needle) {
        matching(items.drop_last(), needle).push(items.last())
    } else {
        matching(items.drop_last(), needle)
    }
}

/// The position of the first entry with a key.
pub open spec fn item_at(items: Seq<ItemModel>, key: Seq<char>) -> Option<int>
    decreases items.len(),
{
    if items.len() == 0 {
        None
    } else {
        match item_at(items.drop_last(), key) {
            Some(i) => Some(i),
            None => if items.last().0 == key {
                Some(items.len() - 1)
            } else {
                None
            },
        }
    }
}

proof fn lemma_item_at_stays(items: Seq<ItemModel>, key: Seq<char>, n: int)
    requires
        0 <= n <= items.len(),
        item_at(items.take(n), key) is Some,
    ensures
        item_at(items, key) == item_at(items.take(n), key),
    decreases items.len() - n,
{
    if n < items.len() {
        assert(items.take(n + 1).drop_last() =~= items.take(n));
        lemma_item_at_stays(items, key, n + 1);
    } else {
        assert(items.take(n) =~= items);
    }
}

impl PickerModel {
    pub open spec fn opened(pinned: Seq<ItemModel>, items: Seq<ItemModel>) -> PickerModel {
        PickerModel {
            pinned,
            items,
            filter: TextModel { focused: true, ..TextModel::empty() },
            cursor: 0,
        }
    }

    /// The entries on screen: the pinned ones, whatever is typed, then those
    /// that match it.
    pub open spec fn rows(self) -> Seq<ItemModel> {
        self.pinned + matching(self.items, lowercase(self.filter.value))
    }

    /// The list with the cursor on the entry with a key, where it is on screen.
    pub open spec fn on(self, key: Seq<char>) -> PickerModel {
        match item_at(self.rows(), key) {
            Some(i) => PickerModel { cursor: i as usize, ..self },
            None => self,
        }
    }

    pub open spec fn key_event(self, code: KeyCode) -> PickerOutcome {
        match code {
            KeyCode::Esc => PickerOutcome::Cancel,
            KeyCode::Enter => if self.cursor < self.rows().len() {
                PickerOutcome::Chosen(self.rows()[self.cursor as int].0)
            } else {
                PickerOutcome::Consumed
            },
            _ => PickerOutcome::Consumed,
        }
    }

    /// The list after a key: the arrows move the cursor, other keys edit the
    /// filter and put the cursor on the first entry.
    pub open spec fn after_key(self, key: KeyEvent) -> PickerModel {
        match key.code {
            KeyCode::Esc | KeyCode::Enter => self,
            KeyCode::Up => PickerModel {
                cursor: if self.cursor > 0 {
                    (self.cursor - 1) as usize
                } else {
                    0
                },
                ..self
            },
            KeyCode::Down => PickerModel {
                cursor: if self.cursor + 1 < self.rows().len() {
                    (self.cursor + 1) as usize
                } else {
                    self.cursor
                },
                ..self
            },
            _ => if self.filter.edits(key) {
                PickerModel { filter: self.filter.typed(key), cursor: 0, ..self }
            } else {
                self
            },
        }
    }
}

impl Picker {
    pub fn new(pinned: Vec<PickerItem>, items: Vec<PickerItem>) -> (picker: Picker)
        ensures
            picker@ == PickerModel::opened(item_models(pinned@), item_models(items@)),
    {
        let mut filter: TextInput = TextInput::new();
        filter.focused = true;
        Picker { pinned, items, filter, cursor: 0 }
    }

    /// The entries on screen.
    pub fn rows(&self) -> (rows: Vec<PickerItem>)
        ensures
            item_models(rows@) == self@.rows(),
    {
        let mut rows: Vec<PickerItem> = Vec::new();
        let mut i: usize = 0;
        while i < self.pinned.len()
            invariant
                i <= self.pinned@.len(),
                item_models(rows@) == self@.pinned.take(i as int),
            decreases self.pinned@.len() - i,
        {
            let item: PickerItem = self.pinned[i].copy();
            assert(item_models(rows@.push(item)) =~= item_models(rows@).push(item@));
            assert(self@.pinned.take(i + 1) =~= self@.pinned.take(i as int).push(item@));
            rows.push(item);
            i += 1;
        }
        assert(self@.pinned.take(i as int) =~= self@.pinned);
        let needle: String = to_lowercase(self.filter.value());
        let mut k: usize = 0;
        assert(item_models(rows@) =~= self@.pinned + matching(self@.items.take(0), needle@));
        while k < self.items.len()
            invariant
                k <= self.items@.len(),
                needle@ == lowercase(self@.filter.value),
                item_models(rows@) == self@.pinned + matching(
                    self@.items.take(k as int),
                    needle@,
                ),
            decreases self.items@.len() - k,
        {
            let ghost upto = self@.items.take(k + 1);
            assert(upto.drop_last() =~= self@.items.take(k as int));
            assert(upto.last() == self.items@[k as int]@);
            if contains(to_lowercase(self.items[k].label.as_str()).as_str(), needle.as_str()) {
                let item: PickerItem = self.items[k].copy();
                assert(item_models(rows@.push(item)) =~= item_models(rows@).push(item@));
                assert(self@.pinned + matching(upto, needle@) =~= (self@.pinned + matching(
                    upto.drop_last(),
                    needle@,
                )).push(item@));
                rows.push(item);
            }
            k += 1;
        }
        assert(self@.items.take(k as int) =~= self@.items);
        rows
    }

    /// Put the cursor on the entry with a key, where it is on screen.
    pub fn select(&mut self, key: &str)
        ensures
            final(self)@ == old(self)@.on(key@),
    {
        let rows: Vec<PickerItem> = self.rows();
        let ghost shown = self@.rows();
        let mut i: usize = 0;
        while i < rows.len()
            invariant
                *self == *old(self),
                i <= rows@.len(),
                item_models(rows@) == shown,
                shown == self@.rows(),
                item_at(shown.take(i as int), key@) is None,
            decreases rows@.len() - i,
        {
            assert(shown.take(i + 1).drop_last() =~= shown.take(i as int));
            assert(shown.take(i + 1).last() == rows@[i as int]@);
            if same_text(rows[i].key.as_str(), key) {
                proof {
                    lemma_item_at_stays(shown, key@, i + 1);
                }
                self.cursor = i;
                return;
            }
            i += 1;
        }
        assert(shown.take(i as int) =~= shown);
    }

    /// Hand the list a key.
    pub fn on_key(&mut self, key: KeyEvent) -> (event: PickerEvent)
        ensures
            final(self)@ == old(self)@.after_key(key),
            event@ == old(self)@.key_event(key.code),
    {
        match key.code {
            KeyCode::Esc => PickerEvent::Cancel,
            KeyCode::Enter => {
                let rows: Vec<PickerItem> = self.rows();
                assert(item_models(rows@).len() == rows@.len());
                if self.cursor < rows.len() {
                    assert(item_models(rows@)[self.cursor as int] == rows@[self.cursor as int]@);
                    PickerEvent::Chosen(rows[self.cursor].key.clone())
                } else {
                    PickerEvent::Consumed
                }
            },
            KeyCode::Up => {
                self.cursor = self.cursor.saturating_sub(1);
                PickerEvent::Consumed
            },
            KeyCode::Down => {
                let rows: Vec<PickerItem> = self.rows();
                assert(item_models(rows@).len() == rows@.len());
                if self.cursor < rows.len().saturating_sub(1) {
                    self.cursor = self.cursor + 1;
                }
                PickerEvent::Consumed
            },
            _ => {
                if self.filter.on_key(key) {
                    self.cursor = 0;
                }
                PickerEvent::Consumed
            },
        }
    }
}

} // verus!
