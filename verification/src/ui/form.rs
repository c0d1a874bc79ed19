//! A form: text fields and pickers one below the other, then a button that
//! saves and (mostly) one that cancels. A value is read by its field's id, so
//! a row that is absent or hidden never shifts what the others read.

use vstd::prelude::*;
use vstd::string::*;

use crate::app::{KeyCode, KeyEvent};
use crate::text::{same_text, texts};
use crate::ui::input::{TextInput, TextModel};

verus! {

/// One row of a form: a text field, or a picker where it has options.
#[derive(Debug)]
pub struct Field {
    pub id: usize,
    pub label: &'static str,
    pub input: TextInput,
    pub options: Vec<String>,
    pub selected: usize,
    /// What the row opened with.
    pub initial_text: String,
    pub initial_selected: usize,
    pub visible: bool,
}

/// A row as values.
#[verifier::ext_equal]
pub struct FieldModel {
    pub id: usize,
    pub label: &'static str,
    pub input: TextModel,
    pub options: Seq<Seq<char>>,
    pub selected: usize,
    pub initial_text: Seq<char>,
    pub initial_selected: usize,
    pub visible: bool,
}

/// What a key did to a form.
#[derive(Debug, Clone, Copy, PartialEq, Eq, Structural)]
pub enum FormEvent {
    /// Nothing for the owner to do.
    Consumed,
    /// The field with this id has another value.
    Changed(usize),
    /// The save button was pressed.
    Save,
    /// The form was left without saving.
    Cancel,
}

impl View for Field {
    type V = FieldModel;

    open spec fn view(&self) -> FieldModel {
        FieldModel {
            id: self.id,
            label: self.label,
            input: self.input@,
            options: texts(self.options@),
            selected: self.selected,
            initial_text: self.initial_text@,
            initial_selected: self.initial_selected,
            visible: self.visible,
        }
    }
}

impl FieldModel {
    pub open spec fn text(id: usize, label: &'static str, value: Seq<char>) -> FieldModel {
        FieldModel {
            id,
            label,
            input: TextModel { value, focused: false, masked: false },
            options: Seq::empty(),
            selected: 0,
            initial_text: value,
            initial_selected: 0,
            visible: true,
        }
    }

    pub open spec fn select(
        id: usize,
        label: &'static str,
        options: Seq<Seq<char>>,
        selected: usize,
    ) -> FieldModel {
        FieldModel {
            id,
            label,
            input: TextModel::empty(),
            options,
            selected,
            initial_text: Seq::empty(),
            initial_selected: selected,
            visible: true,
        }
    }

    /// A picker between yes (the first option) and no.
    pub open spec fn toggle(id: usize, label: &'static str, on: bool) -> FieldModel {
        FieldModel::select(
            id,
            label,
            seq!["Yes"@, "No"@],
            if on {
                0
            } else {
                1
            },
        )
    }

    /// Whether the value is another than the row opened with.
    pub open spec fn changed(self) -> bool {
        if self.options.len() == 0 {
            self.input.value != self.initial_text
        } else {
            self.selected != self.initial_selected
        }
    }

    /// The row with the value it opened with.
    pub open spec fn restored(self) -> FieldModel {
        FieldModel {
            input: TextModel { value: self.initial_text, ..self.input },
            selected: self.initial_selected,
            ..self
        }
    }

    /// The picker on the option before, the last one behind the first.
    pub open spec fn before(self) -> FieldModel {
        FieldModel {
            selected: if 0 < self.selected <= self.options.len() {
                (self.selected - 1) as usize
            } else {
                (self.options.len() - 1) as usize
            },
            ..self
        }
    }

    /// The picker on the option after, the first one behind the last.
    pub open spec fn after(self) -> FieldModel {
        FieldModel {
            selected: if self.selected + 1 < self.options.len() {
                (self.selected + 1) as usize
            } else {
                0
            },
            ..self
        }
    }

    /// Whether a key gives the row another value.
    pub open spec fn edits(self, key: KeyEvent) -> bool {
        if self.options.len() == 0 {
            self.input.edits(key)
        } else {
            key.code == KeyCode::Left || key.code == KeyCode::Right || key.code == KeyCode::Char(
                ' ',
            )
        }
    }

    /// The row after a key that gives it another value.
    pub open spec fn edited(self, key: KeyEvent) -> FieldModel {
        if self.options.len() == 0 {
            FieldModel { input: self.input.typed(key), ..self }
        } else if key.code == KeyCode::Left {
            self.before()
        } else {
            self.after()
        }
    }
}

impl Field {
    pub fn text(id: usize, label: &'static str, value: &str) -> (field: Field)
        ensures
            field@ == FieldModel::text(id, label, value@),
    {
        let field = Field {
            id,
            label,
            input: TextInput::with_value(value),
            options: Vec::new(),
            selected: 0,
            initial_text: value.to_owned(),
            initial_selected: 0,
            visible: true,
        };
        assert(field@ =~= FieldModel::text(id, label, value@));
        field
    }

    pub fn select(
        id: usize,
        label: &'static str,
        options: Vec<String>,
        selected: usize,
    ) -> (field: Field)
        ensures
            field@ == FieldModel::select(id, label, texts(options@), selected),
    {
        let initial_text: String = String::new();
        let field = Field {
            id,
            label,
            input: TextInput::new(),
            options,
            selected,
            initial_text,
            initial_selected: selected,
            visible: true,
        };
        assert(field@ =~= FieldModel::select(id, label, texts(options@), selected));
        field
    }

    pub fn toggle(id: usize, label: &'static str, on: bool) -> (field: Field)
        ensures
            field@ == FieldModel::toggle(id, label, on),
    {
        let options: Vec<String> = vec!["Yes".to_owned(), "No".to_owned()];
        assert(texts(options@) =~= seq!["Yes"@, "No"@]);
        Field::select(
            id,
            label,
            options,
            if on {
                0
            } else {
                1
            },
        )
    }

    /// The field shown as dots.
    pub fn masked(self) -> (field: Field)
        ensures
            field@ == (FieldModel { input: TextModel { masked: true, ..self@.input }, ..self@ }),
    {
        let mut field = self;
        field.input.masked = true;
        field
    }

    /// The row left out until it is made visible.
    pub fn hidden(self) -> (field: Field)
        ensures
            field@ == (FieldModel { visible: false, ..self@ }),
    {
        let mut field = self;
        field.visible = false;
        field
    }

    fn is_changed(&self) -> (answer: bool)
        ensures
            answer == self@.changed(),
    {
        if self.options.len() == 0 {
            !same_text(self.input.value(), self.initial_text.as_str())
        } else {
            self.selected != self.initial_selected
        }
    }

    fn restore(&mut self)
        ensures
            final(self)@ == old(self)@.restored(),
    {
        self.input.value = self.initial_text.clone();
        self.selected = self.initial_selected;
    }

    /// Hand the row a key; returns whether its value changed.
    fn edit(&mut self, key: KeyEvent) -> (changed: bool)
        ensures
            changed == old(self)@.edits(key),
            final(self)@ == (if changed {
                old(self)@.edited(key)
            } else {
                old(self)@
            }),
    {
        if self.options.len() == 0 {
            return self.input.on_key(key);
        }
        match key.code {
            KeyCode::Left => {
                self.selected = if 0 < self.selected && self.selected <= self.options.len() {
                    self.selected - 1
                } else {
                    self.options.len() - 1
                };
                true
            },
            KeyCode::Right | KeyCode::Char(' ') => {
                self.selected = if self.selected < self.options.len() - 1 {
                    self.selected + 1
                } else {
                    0
                };
                true
            },
            _ => false,
        }
    }
}

/// A form. Rows are counted over the fields, then the save button, then the
/// cancel button.
#[derive(Debug)]
pub struct Form {
    pub fields: Vec<Field>,
    pub save_label: &'static str,
    /// Whether there is a cancel button.
    pub cancel: bool,
    /// The row in focus.
    pub focus: usize,
}

/// A form as values.
#[verifier::ext_equal]
pub struct FormModel {
    pub fields: Seq<FieldModel>,
    pub save_label: &'static str,
    pub cancel: bool,
    pub focus: usize,
}

/// The rows of a form as values.
pub open spec fn field_models(fields: Seq<Field>) -> Seq<FieldModel> {
    fields.map_values(|f: Field| f@)
}

impl View for Form {
    type V = FormModel;

    open spec fn view(&self) -> FormModel {
        FormModel {
            fields: field_models(self.fields@),
            save_label: self.save_label,
            cancel: self.cancel,
            focus: self.focus,
        }
    }
}

/// The position of the first field with an id.
pub open spec fn field_at(fields: Seq<FieldModel>, id: usize) -> Option<int>
    decreases fields.len(),
{
    if fields.len() == 0 {
        None
    } else {
        match field_at(fields.drop_last(), id) {
            Some(i) => Some(i),
            None => if fields.last().id == id {
                Some(fields.len() - 1)
            } else {
                None
            },
        }
    }
}

proof fn lemma_field_at_stays(fields: Seq<FieldModel>, id: usize, n: int)
    requires
        0 <= n <= fields.len(),
        field_at(fields.take(n), id) is Some,
    ensures
        field_at(fields, id) == field_at(fields.take(n), id),
    decreases fields.len() - n,
{
    if n < fields.len() {
        assert(fields.take(n + 1).drop_last() =~= fields.take(n));
        lemma_field_at_stays(fields, id, n + 1);
    } else {
        assert(fields.take(n) =~= fields);
    }
}

/// The position of a field is one of its form's.
pub proof fn lemma_field_at_in_range(fields: Seq<FieldModel>, id: usize)
    ensures
        field_at(fields, id) matches Some(i) ==> 0 <= i < fields.len() && fields[i].id == id,
    decreases fields.len(),
{
    if fields.len() > 0 {
        lemma_field_at_in_range(fields.drop_last(), id);
    }
}

/// The first visible field from a row on, or the save button's row.
pub open spec fn visible_from(fields: Seq<FieldModel>, row: int) -> int
    decreases fields.len() - row,
{
    if 0 <= row < fields.len() && !fields[row].visible {
        visible_from(fields, row + 1)
    } else {
        row
    }
}

/// The last visible field up to a row, if there is one.
pub open spec fn visible_up_to(fields: Seq<FieldModel>, row: int) -> Option<int>
    decreases row + 1,
{
    if row < 0 || row >= fields.len() {
        None
    } else if fields[row].visible {
        Some(row)
    } else {
        visible_up_to(fields, row - 1)
    }
}

impl FormModel {
    /// The last row: a button.
    pub open spec fn last_row(self) -> int {
        self.fields.len() + if self.cancel {
            1int
        } else {
            0int
        }
    }

    /// The row in focus is one of the form's.
    pub open spec fn wf(self) -> bool {
        self.focus <= self.last_row() && self.last_row() <= usize::MAX
    }

    pub open spec fn opened(fields: Seq<FieldModel>, save_label: &'static str) -> FormModel {
        FormModel { fields, save_label, cancel: true, focus: 0 }
    }

    /// The typed text of a field; nothing for an unknown one.
    pub open spec fn text(self, id: usize) -> Seq<char> {
        match field_at(self.fields, id) {
            Some(i) => self.fields[i].input.value,
            None => Seq::empty(),
        }
    }

    /// The chosen option of a picker; the first for an unknown one.
    pub open spec fn selected(self, id: usize) -> usize {
        match field_at(self.fields, id) {
            Some(i) => self.fields[i].selected,
            None => 0,
        }
    }

    pub open spec fn changed(self, id: usize) -> bool {
        match field_at(self.fields, id) {
            Some(i) => self.fields[i].changed(),
            None => false,
        }
    }

    pub open spec fn with_field(self, i: int, field: FieldModel) -> FormModel {
        FormModel { fields: self.fields.update(i, field), ..self }
    }

    pub open spec fn reset(self, id: usize) -> FormModel {
        match field_at(self.fields, id) {
            Some(i) => self.with_field(i, self.fields[i].restored()),
            None => self,
        }
    }

    pub open spec fn with_visible(self, id: usize, visible: bool) -> FormModel {
        match field_at(self.fields, id) {
            Some(i) => self.with_field(i, FieldModel { visible, ..self.fields[i] }),
            None => self,
        }
    }

    /// Whether a button, not a field, is in focus.
    pub open spec fn on_buttons(self) -> bool {
        self.focus >= self.fields.len()
    }

    /// The row below, stopping at the last.
    pub open spec fn row_below(self) -> usize {
        if self.focus >= self.last_row() {
            self.focus
        } else {
            visible_from(self.fields, self.focus + 1) as usize
        }
    }

    /// The row above, stopping at the first.
    pub open spec fn row_above(self) -> usize {
        if self.focus > self.fields.len() {
            self.fields.len() as usize
        } else {
            match visible_up_to(self.fields, self.focus - 1) {
                Some(row) => row as usize,
                None => self.focus,
            }
        }
    }

    pub open spec fn with_focus(self, focus: usize) -> FormModel {
        FormModel { focus, ..self }
    }

    /// What a key does.
    pub open spec fn key_event(self, key: KeyEvent) -> FormEvent {
        if key.code == KeyCode::Esc {
            FormEvent::Cancel
        } else if self.on_buttons() {
            if key.code == KeyCode::Enter {
                if self.focus == self.fields.len() {
                    FormEvent::Save
                } else {
                    FormEvent::Cancel
                }
            } else if key.code == KeyCode::Backspace {
                FormEvent::Cancel
            } else {
                FormEvent::Consumed
            }
        } else if self.fields[self.focus as int].edits(key) {
            FormEvent::Changed(self.fields[self.focus as int].id)
        } else {
            FormEvent::Consumed
        }
    }

    /// The form after a key.
    pub open spec fn after_key(self, key: KeyEvent) -> FormModel {
        match key.code {
            KeyCode::Down | KeyCode::Tab => self.with_focus(self.row_below()),
            KeyCode::Up | KeyCode::BackTab => self.with_focus(self.row_above()),
            KeyCode::Enter => if self.on_buttons() {
                self
            } else {
                self.with_focus(self.row_below())
            },
            KeyCode::Esc => self,
            _ => if !self.on_buttons() && self.fields[self.focus as int].edits(key) {
                self.with_field(
                    self.focus as int,
                    self.fields[self.focus as int].edited(key),
                )
            } else {
                self
            },
        }
    }
}

/// A key never leaves the form's rows.
pub proof fn law_focus_stays_in_the_form(form: FormModel, key: KeyEvent)
    requires
        form.wf(),
    ensures
        form.after_key(key).wf(),
{
    lemma_visible_from(form.fields, form.focus + 1);
    lemma_visible_up_to(form.fields, form.focus - 1);
}

proof fn lemma_visible_from(fields: Seq<FieldModel>, row: int)
    ensures
        row <= visible_from(fields, row),
        row <= fields.len() ==> visible_from(fields, row) <= fields.len(),
        row > fields.len() ==> visible_from(fields, row) == row,
    decreases fields.len() - row,
{
    if 0 <= row < fields.len() && !fields[row].visible {
        lemma_visible_from(fields, row + 1);
    }
}

proof fn lemma_visible_up_to(fields: Seq<FieldModel>, row: int)
    ensures
        visible_up_to(fields, row) matches Some(r) ==> 0 <= r <= row && r < fields.len(),
    decreases row + 1,
{
    if 0 <= row < fields.len() && !fields[row].visible {
        lemma_visible_up_to(fields, row - 1);
    }
}

impl Form {
    pub fn new(fields: Vec<Field>, save_label: &'static str) -> (form: Form)
        ensures
            form@ == FormModel::opened(field_models(fields@), save_label),
    {
        Form { fields, save_label, cancel: true, focus: 0 }
    }

    /// The form without a cancel button, for a screen with nowhere to go back
    /// to.
    pub fn without_cancel(self) -> (form: Form)
        ensures
            form@ == (FormModel { cancel: false, ..self@ }),
    {
        let mut form = self;
        form.cancel = false;
        form
    }

    /// The position of the first field with an id.
    fn position(&self, id: usize) -> (at: Option<usize>)
        ensures
            match at {
                Some(i) => field_at(self@.fields, id) == Some(i as int) && i < self.fields@.len(),
                None => field_at(self@.fields, id) is None,
            },
    {
        let mut i: usize = 0;
        while i < self.fields.len()
            invariant
                i <= self.fields@.len() == self@.fields.len(),
                field_at(self@.fields.take(i as int), id) is None,
            decreases self.fields@.len() - i,
        {
            assert(self@.fields.take(i + 1).drop_last() =~= self@.fields.take(i as int));
            assert(self@.fields.take(i + 1).last() == self.fields@[i as int]@);
            if self.fields[i].id == id {
                proof {
                    lemma_field_at_stays(self@.fields, id, i + 1);
                }
                return Some(i);
            }
            i += 1;
        }
        assert(self@.fields.take(i as int) =~= self@.fields);
        None
    }

    /// The typed text of a field.
    pub fn text(&self, id: usize) -> (text: String)
        ensures
            text@ == self@.text(id),
    {
        match self.position(id) {
            Some(i) => self.fields[i].input.value.clone(),
            None => String::new(),
        }
    }

    /// The chosen option of a picker.
    pub fn selected(&self, id: usize) -> (selected: usize)
        ensures
            selected == self@.selected(id),
    {
        match self.position(id) {
            Some(i) => self.fields[i].selected,
            None => 0,
        }
    }

    /// Whether a field's value is another than it opened with.
    pub fn changed(&self, id: usize) -> (answer: bool)
        ensures
            answer == self@.changed(id),
    {
        match self.position(id) {
            Some(i) => self.fields[i].is_changed(),
            None => false,
        }
    }

    /// Give a field the value it opened with.
    pub fn reset(&mut self, id: usize)
        ensures
            final(self)@ == old(self)@.reset(id),
    {
        if let Some(i) = self.position(id) {
            self.fields[i].restore();
            assert(self@.fields =~= old(self)@.reset(id).fields);
        }
    }

    /// Show a row or leave it out.
    pub fn set_visible(&mut self, id: usize, visible: bool)
        ensures
            final(self)@ == old(self)@.with_visible(id, visible),
    {
        if let Some(i) = self.position(id) {
            self.fields[i].visible = visible;
            assert(self@.fields =~= old(self)@.with_visible(id, visible).fields);
        }
    }

    /// Whether a button, not a field, is in focus.
    pub fn action_row_focused(&self) -> (answer: bool)
        ensures
            answer == self@.on_buttons(),
    {
        self.focus >= self.fields.len()
    }

    fn move_down(&mut self)
        requires
            old(self)@.wf(),
        ensures
            final(self)@ == old(self)@.with_focus(old(self)@.row_below()),
    {
        let last: usize = if self.cancel {
            self.fields.len() + 1
        } else {
            self.fields.len()
        };
        if self.focus >= last {
            return;
        }
        let mut row: usize = self.focus + 1;
        while row < self.fields.len() && !self.fields[row].visible
            invariant
                *self == *old(self),
                old(self)@.wf(),
                self.focus < row <= self@.last_row(),
                visible_from(self@.fields, row as int) == visible_from(
                    self@.fields,
                    self.focus + 1,
                ),
            decreases self.fields@.len() - row,
        {
            assert(self@.fields[row as int] == self.fields@[row as int]@);
            row += 1;
        }
        assert(row < self.fields@.len() ==> self@.fields[row as int]
            == self.fields@[row as int]@);
        self.focus = row;
    }

    fn move_up(&mut self)
        requires
            old(self)@.wf(),
        ensures
            final(self)@ == old(self)@.with_focus(old(self)@.row_above()),
    {
        if self.focus > self.fields.len() {
            self.focus = self.fields.len();
            return;
        }
        let mut row: usize = self.focus;
        while row > 0
            invariant
                *self == *old(self),
                row <= self.focus <= self.fields@.len(),
                visible_up_to(self@.fields, row - 1) == visible_up_to(self@.fields, self.focus - 1),
            decreases row,
        {
            assert(self@.fields[row - 1] == self.fields@[row - 1]@);
            if self.fields[row - 1].visible {
                self.focus = row - 1;
                return;
            }
            row -= 1;
        }
    }

    /// Hand the form a key.
    pub fn on_key(&mut self, key: KeyEvent) -> (event: FormEvent)
        requires
            old(self)@.wf(),
        ensures
            final(self)@ == old(self)@.after_key(key),
            event == old(self)@.key_event(key),
            final(self)@.wf(),
    {
        proof {
            law_focus_stays_in_the_form(self@, key);
        }
        match key.code {
            KeyCode::Down | KeyCode::Tab => {
                self.move_down();
                FormEvent::Consumed
            },
            KeyCode::Up | KeyCode::BackTab => {
                self.move_up();
                FormEvent::Consumed
            },
            KeyCode::Enter => {
                if self.focus < self.fields.len() {
                    self.move_down();
                    FormEvent::Consumed
                } else if self.focus == self.fields.len() {
                    FormEvent::Save
                } else {
                    FormEvent::Cancel
                }
            },
            KeyCode::Esc => FormEvent::Cancel,
            _ => {
                if self.focus < self.fields.len() {
                    let i: usize = self.focus;
                    let id: usize = self.fields[i].id;
                    let changed: bool = self.fields[i].edit(key);
                    assert(old(self)@.fields[i as int] == old(self).fields@[i as int]@);
                    if changed {
                        assert(self@.fields =~= old(self)@.after_key(key).fields);
                        FormEvent::Changed(id)
                    } else {
                        assert(self@.fields =~= old(self)@.fields);
                        FormEvent::Consumed
                    }
                } else if matches!(key.code, KeyCode::Backspace) {
                    FormEvent::Cancel
                } else {
                    FormEvent::Consumed
                }
            },
        }
    }
}

} // verus!
