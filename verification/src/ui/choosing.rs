//! What choosing in a picker and filling in a form come to.

use vstd::prelude::*;

use crate::app::{KeyCode, KeyEvent};
use crate::text::{lowercase, occurs};
use crate::ui::form::{
    field_at, lemma_field_at_in_range, visible_from, visible_up_to, FieldModel, FormEvent,
    FormModel,
};
use crate::ui::picker::{item_at, matching, ItemModel, PickerModel, PickerOutcome};

verus! {

/// The filter keeps exactly the entries whose label holds it, whatever the
/// case, and keeps them in order.
pub proof fn law_the_filter_keeps_the_matching_entries(items: Seq<ItemModel>, needle: Seq<char>)
    ensures
        forall|item: ItemModel|
            #![trigger matching(items, needle).contains(item)]
            matching(items, needle).contains(item) <==> items.contains(item) && occurs(
                lowercase(item.1),
                needle,
            ),
        matching(items, needle).len() <= items.len(),
    decreases items.len(),
{
    if items.len() > 0 {
        let before = items.drop_last();
        law_the_filter_keeps_the_matching_entries(before, needle);
        assert forall|item: ItemModel|
            #![trigger matching(items, needle).contains(item)]
            matching(items, needle).contains(item) <==> items.contains(item) && occurs(
                lowercase(item.1),
                needle,
            ) by {
            let kept = matching(before, needle);
            assert(items =~= before.push(items.last()));
            assert(items.contains(item) <==> before.contains(item) || item == items.last()) by {
                if items.contains(item) {
                    let i = choose|i: int| 0 <= i < items.len() && items[i] == item;
                    if i < before.len() {
                        assert(before[i] == item);
                    }
                }
                if before.contains(item) {
                    let i = choose|i: int| 0 <= i < before.len() && before[i] == item;
                    assert(items[i] == item);
                }
                assert(items[items.len() - 1] == items.last());
            }
            assert(kept.contains(item) <==> before.contains(item) && occurs(
                lowercase(item.1),
                needle,
            ));
            if occurs(lowercase(items.last().1), needle) {
                let all = kept.push(items.last());
                if all.contains(item) {
                    let i = choose|i: int| 0 <= i < all.len() && all[i] == item;
                    if i < kept.len() {
                        assert(kept[i] == item);
                    }
                }
                if kept.contains(item) {
                    let i = choose|i: int| 0 <= i < kept.len() && kept[i] == item;
                    assert(all[i] == item);
                }
                assert(all[kept.len() as int] == items.last());
            }
        }
    }
}

/// Two entries of which both match are shown in the order in which they came.
pub proof fn law_filtering_splits_over_lists(
    first: Seq<ItemModel>,
    second: Seq<ItemModel>,
    needle: Seq<char>,
)
    ensures
        matching(first + second, needle) == matching(first, needle) + matching(second, needle),
    decreases second.len(),
{
    if second.len() == 0 {
        assert(first + second =~= first);
    } else {
        law_filtering_splits_over_lists(first, second.drop_last(), needle);
        assert((first + second).drop_last() =~= first + second.drop_last());
    }
}

/// The pinned entries come first, whatever the filter.
pub proof fn law_pinned_entries_stay(picker: PickerModel, i: int)
    requires
        0 <= i < picker.pinned.len(),
    ensures
        i < picker.rows().len() && picker.rows()[i] == picker.pinned[i],
{
}

/// Enter chooses the row under the cursor, and the arrows move the cursor to
/// the row before and after.
pub proof fn law_the_row_under_the_cursor_is_chosen(
    picker: PickerModel,
    key: KeyEvent,
    before: Seq<ItemModel>,
    row: ItemModel,
    after: Seq<ItemModel>,
)
    requires
        picker.rows() == before.push(row) + after,
        picker.rows().len() <= usize::MAX,
        picker.cursor == before.len(),
    ensures
        picker.key_event(KeyCode::Enter) == PickerOutcome::Chosen(row.0),
        picker.key_event(KeyCode::Esc) is Cancel,
        key.code == KeyCode::Down && after.len() > 0 ==> picker.after_key(key).key_event(
            KeyCode::Enter,
        ) == PickerOutcome::Chosen(after[0].0),
        key.code == KeyCode::Up && before.len() > 0 ==> picker.after_key(key).key_event(
            KeyCode::Enter,
        ) == PickerOutcome::Chosen(before.last().0),
{
}

/// A picker opened on one of its entries has that entry chosen by enter.
pub proof fn law_an_entry_can_be_preselected(picker: PickerModel, key: Seq<char>, i: int)
    requires
        0 <= i < picker.rows().len() <= usize::MAX,
        picker.rows()[i].0 == key,
    ensures
        picker.on(key).key_event(KeyCode::Enter) == PickerOutcome::Chosen(key),
        picker.on(key).rows() == picker.rows(),
{
    lemma_item_found(picker.rows(), key, i);
}

proof fn lemma_item_found(items: Seq<ItemModel>, key: Seq<char>, i: int)
    requires
        0 <= i < items.len(),
        items[i].0 == key,
    ensures
        item_at(items, key) is Some,
        0 <= item_at(items, key)->0 < items.len(),
        items[item_at(items, key)->0].0 == key,
    decreases items.len(),
{
    let before = items.drop_last();
    if i < before.len() {
        lemma_item_found(before, key, i);
        assert(before[item_at(before, key)->0] == items[item_at(before, key)->0]);
    } else if item_at(before, key) is Some {
        lemma_item_at_in_range(before, key);
        assert(before[item_at(before, key)->0] == items[item_at(before, key)->0]);
    }
}

proof fn lemma_item_at_in_range(items: Seq<ItemModel>, key: Seq<char>)
    ensures
        item_at(items, key) is Some ==> 0 <= item_at(items, key)->0 < items.len()
            && items[item_at(items, key)->0].0 == key,
    decreases items.len(),
{
    if items.len() > 0 {
        lemma_item_at_in_range(items.drop_last(), key);
    }
}

proof fn lemma_the_only_field_is_found(fields: Seq<FieldModel>, i: int)
    requires
        0 <= i < fields.len(),
        forall|j: int| 0 <= j < fields.len() && j != i ==> fields[j].id != fields[i].id,
    ensures
        field_at(fields, fields[i].id) == Some(i),
    decreases fields.len(),
{
    let before = fields.drop_last();
    if i < before.len() {
        lemma_the_only_field_is_found(before, i);
    } else {
        lemma_field_at_in_range(before, fields[i].id);
    }
}

/// A value is read from the row with its id.
pub proof fn law_values_are_read_by_id(form: FormModel, i: int)
    requires
        0 <= i < form.fields.len(),
        forall|j: int|
            0 <= j < form.fields.len() && j != i ==> form.fields[j].id != form.fields[i].id,
    ensures
        form.text(form.fields[i].id) == form.fields[i].input.value,
        form.selected(form.fields[i].id) == form.fields[i].selected,
        form.fields[i].options.len() == 0 ==> form.changed(form.fields[i].id) == (
        form.fields[i].input.value != form.fields[i].initial_text),
        form.fields[i].options.len() > 0 ==> form.changed(form.fields[i].id) == (
        form.fields[i].selected != form.fields[i].initial_selected),
{
    lemma_the_only_field_is_found(form.fields, i);
}

/// A row starts unchanged, with the value that it was given.
pub proof fn law_rows_start_unchanged(
    id: usize,
    label: &'static str,
    value: Seq<char>,
    options: Seq<Seq<char>>,
    selected: usize,
    on: bool,
)
    ensures
        FieldModel::text(id, label, value).input.value == value,
        !FieldModel::text(id, label, value).changed(),
        FieldModel::select(id, label, options, selected).options == options,
        FieldModel::select(id, label, options, selected).selected == selected,
        !FieldModel::select(id, label, options, selected).changed(),
        FieldModel::toggle(id, label, on).options[FieldModel::toggle(id, label, on).selected as int]
            == (if on {
            "Yes"@
        } else {
            "No"@
        }),
        !FieldModel::toggle(id, label, on).changed(),
{
}

/// Setting a row back undoes every change to it, and touches no other row.
pub proof fn law_a_reset_row_is_unchanged(form: FormModel, i: int)
    requires
        0 <= i < form.fields.len(),
        forall|j: int|
            0 <= j < form.fields.len() && j != i ==> form.fields[j].id != form.fields[i].id,
    ensures
        ({
            let t = form.reset(form.fields[i].id);
            &&& !t.fields[i].changed()
            &&& t.fields.len() == form.fields.len()
            &&& t.focus == form.focus
            &&& forall|j: int|
                0 <= j < form.fields.len() && j != i ==> t.fields[j] == form.fields[j]
        }),
{
    lemma_the_only_field_is_found(form.fields, i);
}

/// Right goes round the options one by one, and left goes back; nothing but the
/// focused row changes.
pub proof fn law_arrows_go_round_the_options(form: FormModel, right: KeyEvent, left: KeyEvent)
    requires
        form.focus < form.fields.len(),
        form.fields[form.focus as int].options.len() > 0,
        form.fields[form.focus as int].selected < form.fields[form.focus as int].options.len(),
        form.fields[form.focus as int].options.len() <= usize::MAX,
        right.code == KeyCode::Right || right.code == KeyCode::Char(' '),
        left.code == KeyCode::Left,
    ensures
        ({
            let i = form.focus as int;
            let n = form.fields[i].options.len() as int;
            let t = form.after_key(right);
            &&& t.fields[i].selected as int == (form.fields[i].selected as int + 1) % n
            &&& t.fields[i].options == form.fields[i].options
            &&& t.after_key(left).fields == form.fields
            &&& form.after_key(left).after_key(right).fields == form.fields
            &&& t.focus == form.focus
            &&& form.key_event(right) == FormEvent::Changed(form.fields[i].id)
            &&& forall|j: int|
                0 <= j < form.fields.len() && j != i ==> t.fields[j] == form.fields[j]
        }),
{
    let i = form.focus as int;
    let n = form.fields[i].options.len() as int;
    let s = form.fields[i].selected as int;
    if s + 1 < n {
        vstd::arithmetic::div_mod::lemma_small_mod((s + 1) as nat, n as nat);
    } else {
        vstd::arithmetic::div_mod::lemma_mod_self_0(n);
    }
    assert(form.after_key(right).after_key(left).fields =~= form.fields);
    assert(form.after_key(left).after_key(right).fields =~= form.fields);
}

/// Typing in a text row appends to it and to no other.
pub proof fn law_typing_fills_the_focused_row(form: FormModel, key: KeyEvent, c: char)
    requires
        form.focus < form.fields.len(),
        form.fields[form.focus as int].options.len() == 0,
        key.code == KeyCode::Char(c),
        !key.modifiers.control && !key.modifiers.alt && !key.modifiers.other,
    ensures
        ({
            let i = form.focus as int;
            let t = form.after_key(key);
            &&& t.fields[i].input.value == form.fields[i].input.value.push(c)
            &&& t.focus == form.focus
            &&& form.key_event(key) == FormEvent::Changed(form.fields[i].id)
            &&& forall|j: int|
                0 <= j < form.fields.len() && j != i ==> t.fields[j] == form.fields[j]
        }),
{
}

proof fn lemma_visible_from(fields: Seq<FieldModel>, row: int)
    requires
        0 <= row <= fields.len(),
    ensures
        row <= visible_from(fields, row) <= fields.len(),
        forall|j: int| row <= j < visible_from(fields, row) ==> !fields[j].visible,
        visible_from(fields, row) < fields.len() ==> fields[visible_from(fields, row)].visible,
    decreases fields.len() - row,
{
    if row < fields.len() && !fields[row].visible {
        lemma_visible_from(fields, row + 1);
    }
}

proof fn lemma_visible_up_to(fields: Seq<FieldModel>, row: int)
    requires
        row < fields.len(),
    ensures
        match visible_up_to(fields, row) {
            Some(r) => 0 <= r <= row && fields[r].visible && forall|j: int|
                r < j <= row ==> !fields[j].visible,
            None => forall|j: int| 0 <= j <= row ==> !fields[j].visible,
        },
    decreases row + 1,
{
    if row >= 0 && !fields[row].visible {
        lemma_visible_up_to(fields, row - 1);
    }
}

/// Down goes to the next visible row and up to the one before; hidden rows are
/// passed over and nothing is edited.
pub proof fn law_hidden_rows_are_passed_over(form: FormModel, down: KeyEvent, up: KeyEvent)
    requires
        form.wf(),
        form.focus < form.fields.len(),
        down.code == KeyCode::Down,
        up.code == KeyCode::Up,
    ensures
        ({
            let t = form.after_key(down);
            &&& t.fields == form.fields
            &&& form.focus < t.focus <= form.fields.len()
            &&& t.focus < form.fields.len() ==> form.fields[t.focus as int].visible
            &&& forall|j: int| form.focus < j < t.focus ==> !form.fields[j].visible
        }),
        ({
            let t = form.after_key(up);
            &&& t.fields == form.fields
            &&& t.focus < form.focus ==> form.fields[t.focus as int].visible
            &&& t.focus <= form.focus
            &&& forall|j: int| t.focus < j < form.focus ==> !form.fields[j].visible
            &&& t.focus == form.focus ==> forall|j: int|
                0 <= j < form.focus ==> !form.fields[j].visible
        }),
{
    lemma_visible_from(form.fields, form.focus + 1);
    lemma_visible_up_to(form.fields, form.focus - 1);
}

/// Enter saves on the save button only, and cancels on the one after it; escape
/// cancels anywhere.
pub proof fn law_only_the_save_button_saves(form: FormModel, key: KeyEvent)
    ensures
        form.key_event(key) is Save <==> key.code == KeyCode::Enter && form.focus
            == form.fields.len(),
        key.code == KeyCode::Esc ==> form.key_event(key) is Cancel,
        key.code == KeyCode::Enter && form.focus > form.fields.len() ==> form.key_event(
            key,
        ) is Cancel,
{
}

} // verus!
