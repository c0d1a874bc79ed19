//! The settings screen: the rows, the overlay that is open over them, and what
//! keys and finished saves do to both.

use vstd::prelude::*;
use vstd::string::*;

use crate::app::{following_gen, next_gen, KeyCode, KeyEvent, ShellRequest};
use crate::config::{opt_track, Config, ConfigModel, JellyfinModel, TrackModel, TrackPreference};
use crate::lang::{canonical, canonical_code, name, name_of, Language, LANGUAGES};
use crate::text::same_text;
use crate::ui::form::FormEvent;
use crate::ui::list::{go_round_down, go_round_up, last_of, round_down, round_up};
use crate::ui::picker::{
    item_models, ItemModel, Picker, PickerEvent, PickerItem, PickerModel, PickerOutcome,
};
use crate::ui::theme::{ACCENTS, THEMES, Theme};

use crate::apps::settings::backend::{BackendEditor, BackendModel, SaveModel, SaveRequest};

pub mod actions;
pub mod backend;
pub mod view;

verus! {

/// Which setting a row edits. Theme/Accent open a choice list; the backend
/// rows open a URL + credentials form.
#[derive(Debug, Clone, Copy, PartialEq, Eq, Structural)]
pub enum Setting {
    Theme,
    Accent,
    Jellyfin,
    Radarr,
    Sonarr,
}

/// An open choice list (Theme/Accent): which setting, and the cursor within
/// its choices.
#[derive(Debug, Clone, Copy, PartialEq, Eq, Structural)]
pub struct Editing {
    pub setting: Setting,
    pub cursor: usize,
}

/// The Jellyfin language page: a row per track kind, each opening a filterable
/// picker over the languages.
#[derive(Debug)]
pub struct LanguageEditor {
    /// 0 = audio, 1 = subtitles.
    pub cursor: usize,
    /// The open picker, modal over the page.
    pub picker: Option<Picker>,
}

/// The overlay currently open on top of the settings list. The variants are
/// mutually exclusive; the Jellyfin row opens a submenu (credentials or
/// language) while Radarr/Sonarr open their credentials form directly.
#[derive(Debug)]
pub enum Editor {
    Closed,
    Choice(Editing),
    Backend(BackendEditor),
    /// The Jellyfin submenu: 0 = Credentials, 1 = Language.
    JellyfinMenu { cursor: usize },
    Language(LanguageEditor),
}

/// The overlay as values.
pub enum EditorModel {
    Closed,
    Choice(Editing),
    Backend(BackendModel),
    JellyfinMenu { cursor: usize },
    Language { cursor: usize, picker: Option<PickerModel> },
}

impl View for Editor {
    type V = EditorModel;

    open spec fn view(&self) -> EditorModel {
        match self {
            Editor::Closed => EditorModel::Closed,
            Editor::Choice(editing) => EditorModel::Choice(*editing),
            Editor::Backend(editor) => EditorModel::Backend(editor@),
            Editor::JellyfinMenu { cursor } => EditorModel::JellyfinMenu { cursor: *cursor },
            Editor::Language(editor) => EditorModel::Language {
                cursor: editor.cursor,
                picker: match editor.picker {
                    Some(picker) => Some(picker@),
                    None => None,
                },
            },
        }
    }
}

/// Something the settings screen asks the program to do.
pub enum SettingsRequest {
    /// Write the settings file.
    SaveConfig,
    /// Connect to validate a form, and persist on success.
    Connect { save_gen: u64, request: SaveRequest },
}

/// A request as values.
pub enum SettingsCall {
    SaveConfig,
    Connect { save_gen: u64, request: SaveModel },
}

impl View for SettingsRequest {
    type V = SettingsCall;

    open spec fn view(&self) -> SettingsCall {
        match self {
            SettingsRequest::SaveConfig => SettingsCall::SaveConfig,
            SettingsRequest::Connect { save_gen, request } => SettingsCall::Connect {
                save_gen: *save_gen,
                request: request@,
            },
        }
    }
}

/// Requests as values, in order.
pub open spec fn calls(list: Seq<SettingsRequest>) -> Seq<SettingsCall> {
    list.map_values(|r: SettingsRequest| r@)
}

/// The settings screen.
pub struct SettingsApp {
    /// Cursor over the visible setting rows.
    pub cursor: usize,
    /// The open overlay, if any (modal within the tab).
    pub editor: Editor,
    /// Bumped on each backend submit and on cancel, so a connect result that
    /// lands after the user moved on is dropped.
    pub save_gen: u64,
    /// Bumped after a successful Jellyfin save so that the running Jellyfin
    /// tab reconnects with the freshly stored token.
    pub reauth: u64,
    /// What the program is asked to do, in order.
    pub outbox: Vec<SettingsRequest>,
}

/// The settings screen as values.
pub struct SettingsModel {
    pub cursor: usize,
    pub editor: EditorModel,
    pub save_gen: u64,
    pub reauth: u64,
    pub outbox: Seq<SettingsCall>,
}

impl View for SettingsApp {
    type V = SettingsModel;

    open spec fn view(&self) -> SettingsModel {
        SettingsModel {
            cursor: self.cursor,
            editor: self.editor@,
            save_gen: self.save_gen,
            reauth: self.reauth,
            outbox: calls(self.outbox@),
        }
    }
}

/// The settings rows shown under a theme: an accent can only be chosen where
/// the theme offers some.
pub open spec fn rows_of(theme: Theme) -> Seq<Setting> {
    if theme.accents() > 0 {
        seq![
            Setting::Theme,
            Setting::Accent,
            Setting::Jellyfin,
            Setting::Radarr,
            Setting::Sonarr,
        ]
    } else {
        seq![Setting::Theme, Setting::Jellyfin, Setting::Radarr, Setting::Sonarr]
    }
}

/// The settings rows shown under a theme.
pub fn rows(theme: Theme) -> (rows: Vec<Setting>)
    ensures
        rows@ == rows_of(theme),
{
    let mut rows: Vec<Setting> = vec![Setting::Theme];
    if theme.accent_count() > 0 {
        rows.push(Setting::Accent);
    }
    rows.push(Setting::Jellyfin);
    rows.push(Setting::Radarr);
    rows.push(Setting::Sonarr);
    assert(rows@ =~= rows_of(theme));
    rows
}

/// The number of choices of a setting.
pub open spec fn choices(setting: Setting, config: ConfigModel) -> int {
    match setting {
        Setting::Theme => THEMES@.len() as int,
        Setting::Accent => config.theme.accents(),
        Setting::Jellyfin | Setting::Radarr | Setting::Sonarr => 0,
    }
}

/// Number of choices in a choice-list setting.
pub fn choice_count(setting: Setting, config: &Config) -> (count: usize)
    ensures
        count == choices(setting, config@),
{
    match setting {
        Setting::Theme => THEMES.len(),
        Setting::Accent => config.theme.accent_count(),
        Setting::Jellyfin | Setting::Radarr | Setting::Sonarr => 0,
    }
}

/// The position of the active choice.
pub open spec fn current_choice(setting: Setting, config: ConfigModel) -> int {
    match setting {
        Setting::Theme => config.theme.place(),
        Setting::Accent => if config.theme.accents() > 0 {
            config.accent.place()
        } else {
            0
        },
        Setting::Jellyfin | Setting::Radarr | Setting::Sonarr => 0,
    }
}

/// Index of the currently active value, so an editor opens on the live choice.
pub fn current_choice_index(setting: Setting, config: &Config) -> (index: usize)
    ensures
        index == current_choice(setting, config@),
{
    match setting {
        Setting::Theme => config.theme.index(),
        Setting::Accent => {
            if config.theme.accent_count() > 0 {
                config.accent.index()
            } else {
                0
            }
        },
        Setting::Jellyfin | Setting::Radarr | Setting::Sonarr => 0,
    }
}

/// The entry of the language picker for a language: "Italian (ita)".
pub open spec fn language_item(language: Language) -> ItemModel {
    (language.0@, language.3@ + " ("@ + language.0@ + ")"@)
}

/// The choices pinned above the languages of a row.
pub open spec fn pinned_items(row: usize) -> Seq<ItemModel> {
    seq![
        ("unset"@, "No preference"@),
        if row == 0 {
            ("default"@, "Default track"@)
        } else {
            ("off"@, "None (off)"@)
        },
    ]
}

/// The entries of the language picker for a list of languages.
pub open spec fn language_items(languages: Seq<Language>) -> Seq<ItemModel> {
    languages.map_values(|l: Language| language_item(l))
}

fn items_for(languages: &[Language]) -> (items: Vec<PickerItem>)
    ensures
        item_models(items@) == language_items(languages@),
{
    let mut items: Vec<PickerItem> = Vec::new();
    let mut i: usize = 0;
    while i < languages.len()
        invariant
            i <= languages@.len(),
            item_models(items@) == language_items(languages@.take(i as int)),
        decreases languages@.len() - i,
    {
        let language: Language = languages[i];
        let mut label: String = language.3.to_owned();
        label.append(" (");
        label.append(language.0);
        label.append(")");
        let item: PickerItem = PickerItem::new(language.0, label);
        assert(item_models(items@.push(item)) =~= item_models(items@).push(item@));
        assert(language_items(languages@.take(i + 1)) =~= language_items(
            languages@.take(i as int),
        ).push(language_item(language)));
        items.push(item);
        i += 1;
    }
    assert(languages@.take(i as int) =~= languages@);
    assert(item_models(items@) =~= language_items(languages@));
    items
}

/// The picker for a language row, with the special choices pinned above the
/// filterable list. The keys of those are no language codes.
pub fn language_picker(row: usize) -> (picker: Picker)
    ensures
        picker@ == PickerModel::opened(pinned_items(row), language_items(LANGUAGES@)),
{
    let special: PickerItem = if row == 0 {
        PickerItem::new("default", "Default track".to_owned())
    } else {
        PickerItem::new("off", "None (off)".to_owned())
    };
    let pinned: Vec<PickerItem> = vec![
        PickerItem::new("unset", "No preference".to_owned()),
        special,
    ];
    assert(item_models(pinned@) =~= pinned_items(row));
    Picker::new(pinned, items_for(&LANGUAGES))
}

/// The picker key of a preference.
pub open spec fn key_of(preference: Option<TrackModel>) -> Seq<char> {
    match preference {
        None => "unset"@,
        Some(TrackModel::Default) => "default"@,
        Some(TrackModel::Off) => "off"@,
        Some(TrackModel::Language(code)) => canonical_code(code),
    }
}

/// The preference that a picker key stands for.
pub open spec fn preference_of(key: Seq<char>) -> Option<TrackModel> {
    if key == "unset"@ {
        None
    } else if key == "default"@ {
        Some(TrackModel::Default)
    } else if key == "off"@ {
        Some(TrackModel::Off)
    } else {
        Some(TrackModel::Language(key))
    }
}

/// The picker key for a stored preference, to seed the cursor on open.
/// Language codes are canonicalised so that settings edited by hand still open
/// on the right row.
pub fn preference_key(preference: &Option<TrackPreference>) -> (key: String)
    ensures
        key@ == key_of(opt_track(*preference)),
{
    match preference {
        None => "unset".to_owned(),
        Some(TrackPreference::Default) => "default".to_owned(),
        Some(TrackPreference::Off) => "off".to_owned(),
        Some(TrackPreference::Language(code)) => canonical(code.as_str()),
    }
}

/// Row summary for a stored preference: "Italian (ita)", "off", ...
pub open spec fn preference_text(preference: Option<TrackModel>) -> Seq<char> {
    match preference {
        None => "no preference"@,
        Some(TrackModel::Default) => "default track"@,
        Some(TrackModel::Off) => "off"@,
        Some(TrackModel::Language(code)) => match name_of(code) {
            Some(name) => name@ + " ("@ + code + ")"@,
            None => code,
        },
    }
}

/// Row summary for a stored preference: "Italian (ita)", "off", ...
pub fn preference_label(preference: &Option<TrackPreference>) -> (label: String)
    ensures
        label@ == preference_text(opt_track(*preference)),
{
    match preference {
        None => "no preference".to_owned(),
        Some(TrackPreference::Default) => "default track".to_owned(),
        Some(TrackPreference::Off) => "off".to_owned(),
        Some(TrackPreference::Language(code)) => match name(code.as_str()) {
            Some(name) => {
                let mut label: String = name.to_owned();
                label.append(" (");
                label.append(code.as_str());
                label.append(")");
                label
            },
            None => code.clone(),
        },
    }
}

/// The other one of two rows.
pub open spec fn other_row(cursor: usize) -> usize {
    if cursor == 0 {
        1
    } else {
        0
    }
}

fn flip(cursor: usize) -> (other: usize)
    ensures
        other == other_row(cursor),
{
    if cursor == 0 {
        1
    } else {
        0
    }
}

impl SettingsModel {
    pub open spec fn initial() -> SettingsModel {
        SettingsModel {
            cursor: 0,
            editor: EditorModel::Closed,
            save_gen: 0,
            reauth: 0,
            outbox: Seq::empty(),
        }
    }

    /// What always holds of the screen: an open form's focus is one of its
    /// rows.
    pub open spec fn wf(self) -> bool {
        self.editor matches EditorModel::Backend(editor) ==> editor.form.wf()
    }

    pub open spec fn with_editor(self, editor: EditorModel) -> SettingsModel {
        SettingsModel { editor, ..self }
    }

    pub open spec fn saving(self) -> SettingsModel {
        SettingsModel { outbox: self.outbox.push(SettingsCall::SaveConfig), ..self }
    }

    /// The cursor put back on the last row where it is behind it.
    pub open spec fn clamped(self, config: ConfigModel) -> SettingsModel {
        let len = rows_of(config.theme).len();
        SettingsModel {
            cursor: if self.cursor >= len {
                last_of(len as int) as usize
            } else {
                self.cursor
            },
            ..self
        }
    }

    /// The editor of a row opened.
    pub open spec fn opened(self, setting: Setting, config: ConfigModel) -> SettingsModel {
        match setting {
            Setting::Theme | Setting::Accent => self.with_editor(
                EditorModel::Choice(
                    Editing { setting, cursor: current_choice(setting, config) as usize },
                ),
            ),
            Setting::Jellyfin => self.with_editor(EditorModel::JellyfinMenu { cursor: 0 }),
            Setting::Radarr | Setting::Sonarr => self.with_editor(
                EditorModel::Backend(BackendModel::opened(setting, config)),
            ),
        }
    }

    /// Where closing a form lands: back in the submenu for Jellyfin, on the
    /// settings list for the others.
    pub open spec fn backend_closed(self, backend: Setting, config: ConfigModel) -> SettingsModel {
        self.with_editor(
            if backend == Setting::Jellyfin {
                EditorModel::JellyfinMenu { cursor: 0 }
            } else {
                EditorModel::Closed
            },
        ).clamped(config)
    }

    /// The form left without a save; what is in flight is superseded.
    pub open spec fn backend_cancelled(
        self,
        backend: Setting,
        config: ConfigModel,
    ) -> SettingsModel {
        SettingsModel { save_gen: next_gen(self.save_gen), ..self }.backend_closed(backend, config)
    }

    /// The form submitted: a connect validates it under a generation of its
    /// own.
    pub open spec fn submitted(self, editor: BackendModel, config: ConfigModel) -> SettingsModel {
        let gen = next_gen(self.save_gen);
        SettingsModel {
            editor: EditorModel::Backend(BackendModel { busy: true, error: None, ..editor }),
            save_gen: gen,
            outbox: self.outbox.push(
                SettingsCall::Connect { save_gen: gen, request: editor.request(config) },
            ),
            ..self
        }
    }

    /// A choice taken into the settings.
    pub open spec fn applied(
        self,
        setting: Setting,
        choice: usize,
        config: ConfigModel,
    ) -> (SettingsModel, ConfigModel) {
        if choice >= choices(setting, config) {
            (self, config)
        } else {
            match setting {
                Setting::Theme => (
                    self.saving(),
                    ConfigModel { theme: THEMES@[choice as int], ..config },
                ),
                Setting::Accent => (
                    self.saving(),
                    ConfigModel { accent: ACCENTS@[choice as int], ..config },
                ),
                _ => (self, config),
            }
        }
    }

    /// A picker choice taken into the settings.
    pub open spec fn language_applied(
        self,
        row: usize,
        key: Seq<char>,
        config: ConfigModel,
    ) -> (SettingsModel, ConfigModel) {
        let value = preference_of(key);
        (
            self.saving(),
            ConfigModel {
                jellyfin: if row == 0 {
                    JellyfinModel { audio_language: value, ..config.jellyfin }
                } else {
                    JellyfinModel { subtitle_language: value, ..config.jellyfin }
                },
                ..config
            },
        )
    }

    pub open spec fn choice_key(
        self,
        editing: Editing,
        code: KeyCode,
        config: ConfigModel,
    ) -> (SettingsModel, ConfigModel) {
        let count = choices(editing.setting, config) as usize;
        match code {
            KeyCode::Up => (
                self.with_editor(
                    EditorModel::Choice(
                        Editing { cursor: round_up(editing.cursor, count), ..editing },
                    ),
                ),
                config,
            ),
            KeyCode::Down => (
                self.with_editor(
                    EditorModel::Choice(
                        Editing { cursor: round_down(editing.cursor, count), ..editing },
                    ),
                ),
                config,
            ),
            KeyCode::Enter => {
                let (s, c) = self.applied(editing.setting, editing.cursor, config);
                (s.with_editor(EditorModel::Closed).clamped(c), c)
            },
            KeyCode::Esc => (self.with_editor(EditorModel::Closed), config),
            _ => (self, config),
        }
    }

    pub open spec fn menu_key(
        self,
        cursor: usize,
        code: KeyCode,
        config: ConfigModel,
    ) -> SettingsModel {
        match code {
            KeyCode::Up | KeyCode::Down => self.with_editor(
                EditorModel::JellyfinMenu { cursor: other_row(cursor) },
            ),
            KeyCode::Enter => if cursor == 0 {
                self.with_editor(
                    EditorModel::Backend(BackendModel::opened(Setting::Jellyfin, config)),
                )
            } else {
                self.with_editor(EditorModel::Language { cursor: 0, picker: None })
            },
            KeyCode::Esc | KeyCode::Backspace => self.with_editor(EditorModel::Closed),
            _ => self,
        }
    }

    /// The picker of a language row, on the stored preference.
    pub open spec fn picker_for(row: usize, config: ConfigModel) -> PickerModel {
        PickerModel::opened(pinned_items(row), language_items(LANGUAGES@)).on(
            key_of(
                if row == 0 {
                    config.jellyfin.audio_language
                } else {
                    config.jellyfin.subtitle_language
                },
            ),
        )
    }

    pub open spec fn language_page_key(
        self,
        cursor: usize,
        code: KeyCode,
        config: ConfigModel,
    ) -> SettingsModel {
        match code {
            KeyCode::Up | KeyCode::Down => self.with_editor(
                EditorModel::Language { cursor: other_row(cursor), picker: None },
            ),
            KeyCode::Enter => self.with_editor(
                EditorModel::Language {
                    cursor,
                    picker: Some(SettingsModel::picker_for(cursor, config)),
                },
            ),
            KeyCode::Esc | KeyCode::Backspace => self.with_editor(
                EditorModel::JellyfinMenu { cursor: 1 },
            ),
            _ => self,
        }
    }

    pub open spec fn picker_key(
        self,
        cursor: usize,
        picker: PickerModel,
        key: KeyEvent,
        config: ConfigModel,
    ) -> (SettingsModel, ConfigModel) {
        let closed = self.with_editor(EditorModel::Language { cursor, picker: None });
        match picker.key_event(key.code) {
            PickerOutcome::Chosen(choice) => closed.language_applied(cursor, choice, config),
            PickerOutcome::Cancel => (closed, config),
            PickerOutcome::Consumed => (
                self.with_editor(
                    EditorModel::Language { cursor, picker: Some(picker.after_key(key)) },
                ),
                config,
            ),
        }
    }

    /// Whether a plain `q` stands for quitting over a form: only on its
    /// buttons, where it cannot be input.
    pub open spec fn quits_form(editor: BackendModel, key: KeyEvent) -> bool {
        key.code == KeyCode::Char('q') && key.modifiers.nothing() && editor.form.on_buttons()
    }

    pub open spec fn backend_key(
        self,
        editor: BackendModel,
        key: KeyEvent,
        config: ConfigModel,
    ) -> SettingsModel {
        if editor.busy {
            if key.code == KeyCode::Esc || key.code == KeyCode::Backspace {
                self.backend_cancelled(editor.backend, config)
            } else {
                self
            }
        } else if SettingsModel::quits_form(editor, key) {
            self
        } else {
            let after = BackendModel { form: editor.form.after_key(key), ..editor };
            match editor.form.key_event(key) {
                FormEvent::Save => match after.invalid() {
                    Some(reason) => self.with_editor(
                        EditorModel::Backend(BackendModel { error: Some(reason), ..after }),
                    ),
                    None => self.submitted(after, config),
                },
                FormEvent::Cancel => self.backend_cancelled(editor.backend, config),
                FormEvent::Changed(_) => self.with_editor(
                    EditorModel::Backend(BackendModel { error: None, ..after }),
                ),
                FormEvent::Consumed => self.with_editor(EditorModel::Backend(after)),
            }
        }
    }

    pub open spec fn list_key(self, code: KeyCode, config: ConfigModel) -> SettingsModel {
        let rows = rows_of(config.theme);
        match code {
            KeyCode::Up => SettingsModel {
                cursor: round_up(self.cursor, rows.len() as usize),
                ..self
            },
            KeyCode::Down => SettingsModel {
                cursor: round_down(self.cursor, rows.len() as usize),
                ..self
            },
            KeyCode::Enter => if self.cursor < rows.len() {
                self.opened(rows[self.cursor as int], config)
            } else {
                self
            },
            _ => self,
        }
    }

    /// The screen and the settings after a key.
    pub open spec fn after_key(self, key: KeyEvent, config: ConfigModel) -> (
        SettingsModel,
        ConfigModel,
    ) {
        match self.editor {
            EditorModel::Choice(editing) => self.choice_key(editing, key.code, config),
            EditorModel::JellyfinMenu { cursor } => (
                self.menu_key(cursor, key.code, config),
                config,
            ),
            EditorModel::Language { cursor, picker } => match picker {
                Some(picker) => self.picker_key(cursor, picker, key, config),
                None => (self.language_page_key(cursor, key.code, config), config),
            },
            EditorModel::Backend(editor) => (self.backend_key(editor, key, config), config),
            EditorModel::Closed => (self.list_key(key.code, config), config),
        }
    }

    /// Whether a key quits: a plain `q` that is not input and that no choice
    /// list or connect attempt is in the way of.
    pub open spec fn quits(self, key: KeyEvent) -> bool {
        key.code == KeyCode::Char('q') && key.modifiers.nothing() && match self.editor {
            EditorModel::Choice(_) => false,
            EditorModel::JellyfinMenu { .. } | EditorModel::Closed => true,
            EditorModel::Language { picker, .. } => picker is None,
            EditorModel::Backend(editor) => !editor.busy && editor.form.on_buttons(),
        }
    }

    /// The screen after a save came back.
    pub open spec fn after_save(
        self,
        save_gen: u64,
        result: Result<(), Seq<char>>,
        config: ConfigModel,
    ) -> SettingsModel {
        if save_gen != self.save_gen {
            self
        } else {
            match self.editor {
                EditorModel::Backend(editor) => match result {
                    Ok(_) => SettingsModel {
                        reauth: if editor.backend == Setting::Jellyfin {
                            next_gen(self.reauth)
                        } else {
                            self.reauth
                        },
                        ..self
                    }.backend_closed(editor.backend, config),
                    Err(message) => self.with_editor(
                        EditorModel::Backend(
                            BackendModel { busy: false, error: Some(message), ..editor },
                        ),
                    ),
                },
                _ => self,
            }
        }
    }

    /// Whether keys are text.
    pub open spec fn capturing(self) -> bool {
        match self.editor {
            EditorModel::Backend(editor) => !editor.form.on_buttons(),
            EditorModel::Language { picker, .. } => picker is Some,
            _ => false,
        }
    }
}

/// A finished save in place of what it was answered with.
pub open spec fn save_result(result: Result<(), String>) -> Result<(), Seq<char>> {
    match result {
        Ok(_) => Ok(()),
        Err(message) => Err(message@),
    }
}

/// A save that comes back under another generation than the awaited one
/// changes nothing.
pub proof fn law_stale_saves_change_nothing(
    screen: SettingsModel,
    save_gen: u64,
    result: Result<(), Seq<char>>,
    config: ConfigModel,
)
    requires
        save_gen != screen.save_gen,
    ensures
        screen.after_save(save_gen, result, config) == screen,
{
}

/// Leaving a form while its connect is in flight makes the answer stale.
pub proof fn law_cancelled_saves_are_dropped(
    screen: SettingsModel,
    editor: BackendModel,
    key: KeyEvent,
    result: Result<(), Seq<char>>,
    config: ConfigModel,
)
    requires
        screen.editor == EditorModel::Backend(editor),
        editor.busy,
        key.code == KeyCode::Esc || key.code == KeyCode::Backspace,
    ensures
        screen.after_key(key, config).0.after_save(screen.save_gen, result, config)
            == screen.after_key(key, config).0,
{
}

/// An invalid form is never submitted: it stays open with the reason, and
/// nothing is asked of the program.
pub proof fn law_invalid_forms_are_not_submitted(
    screen: SettingsModel,
    editor: BackendModel,
    key: KeyEvent,
    config: ConfigModel,
)
    requires
        screen.editor == EditorModel::Backend(editor),
        !editor.busy,
        editor.form.key_event(key) == FormEvent::Save,
        editor.invalid() is Some,
    ensures
        screen.after_key(key, config).0 == screen.with_editor(
            EditorModel::Backend(BackendModel { error: editor.invalid(), ..editor }),
        ),
{
    assert(editor.form.after_key(key) == editor.form);
}

/// Only a chosen value changes the settings: every key that does not ask for a
/// save leaves them as they are.
pub proof fn law_settings_change_only_with_a_save(
    screen: SettingsModel,
    key: KeyEvent,
    config: ConfigModel,
)
    ensures
        ({
            let (s, c) = screen.after_key(key, config);
            c == config || s.outbox == screen.outbox.push(SettingsCall::SaveConfig)
        }),
{
}

/// What a language row's picker stores under a pinned key reopens on that key.
pub proof fn law_stored_choices_reopen(key: Seq<char>)
    requires
        key == "unset"@ || key == "default"@ || key == "off"@,
    ensures
        key_of(preference_of(key)) == key,
{
    reveal_strlit("unset");
    reveal_strlit("default");
    reveal_strlit("off");
}

/// An open form keeps its focus on one of its rows, whatever is pressed or
/// answered.
pub proof fn law_settings_stay_well_formed(
    screen: SettingsModel,
    key: KeyEvent,
    save_gen: u64,
    result: Result<(), Seq<char>>,
    config: ConfigModel,
)
    requires
        screen.wf(),
    ensures
        screen.after_key(key, config).0.wf(),
        screen.after_save(save_gen, result, config).wf(),
{
    match screen.editor {
        EditorModel::Backend(editor) => {
            crate::ui::form::law_focus_stays_in_the_form(editor.form, key);
        },
        _ => {},
    }
}

impl SettingsApp {
    pub fn new() -> (app: SettingsApp)
        ensures
            app@ == SettingsModel::initial(),
            app@.wf(),
    {
        let app = SettingsApp {
            cursor: 0,
            editor: Editor::Closed,
            save_gen: 0,
            reauth: 0,
            outbox: Vec::new(),
        };
        assert(app@.outbox =~= SettingsModel::initial().outbox);
        app
    }

    pub fn id(&self) -> (id: &'static str)
        ensures
            id == "settings",
    {
        "settings"
    }

    pub fn title(&self) -> (title: &'static str)
        ensures
            title == "Settings",
    {
        "Settings"
    }

    /// Hand the collected requests over.
    pub fn take_requests(&mut self) -> (list: Vec<SettingsRequest>)
        ensures
            calls(list@) == old(self)@.outbox,
            final(self)@ == (SettingsModel { outbox: Seq::empty(), ..old(self)@ }),
    {
        let mut list: Vec<SettingsRequest> = Vec::new();
        std::mem::swap(&mut list, &mut self.outbox);
        assert(calls(self.outbox@) =~= Seq::empty());
        list
    }

    fn send(&mut self, request: SettingsRequest)
        ensures
            final(self)@ == (SettingsModel { outbox: old(self)@.outbox.push(request@), ..old(self)@ }),
    {
        let ghost before = self.outbox@;
        self.outbox.push(request);
        assert(calls(self.outbox@) =~= calls(before).push(request@));
    }

    fn clamp_cursor(&mut self, config: &Config)
        ensures
            final(self)@ == old(self)@.clamped(config@),
    {
        let len: usize = rows(config.theme).len();
        if self.cursor >= len {
            self.cursor = len.saturating_sub(1);
        }
    }

    /// Open the editor for the selected row: a choice list for Theme/Accent,
    /// the submenu for Jellyfin (which has more than credentials to edit), a
    /// credentials form for the other backends.
    pub fn open(&mut self, setting: Setting, config: &Config)
        ensures
            final(self)@ == old(self)@.opened(setting, config@),
            final(self)@.wf(),
    {
        match setting {
            Setting::Theme | Setting::Accent => {
                let cursor: usize = current_choice_index(setting, config);
                self.editor = Editor::Choice(Editing { setting, cursor });
            },
            Setting::Jellyfin => {
                self.editor = Editor::JellyfinMenu { cursor: 0 };
            },
            Setting::Radarr | Setting::Sonarr => {
                self.editor = Editor::Backend(BackendEditor::from_config(setting, config));
            },
        }
    }

    /// Where closing a backend form lands: back in the submenu it was opened
    /// from for Jellyfin, the settings list for the direct-entry backends.
    fn close_backend(&mut self, backend: Setting, config: &Config)
        ensures
            final(self)@ == old(self)@.backend_closed(backend, config@),
    {
        self.editor = if backend == Setting::Jellyfin {
            Editor::JellyfinMenu { cursor: 0 }
        } else {
            Editor::Closed
        };
        self.clamp_cursor(config);
    }

    fn cancel_backend(&mut self, backend: Setting, config: &Config)
        ensures
            final(self)@ == old(self)@.backend_cancelled(backend, config@),
    {
        self.save_gen = following_gen(self.save_gen);
        self.close_backend(backend, config);
    }

    /// Persist a picker choice for a language row.
    pub fn apply_language(&mut self, row: usize, key: &str, config: &mut Config)
        ensures
            (final(self)@, final(config)@) == old(self)@.language_applied(
                row,
                key@,
                old(config)@,
            ),
    {
        let value: Option<TrackPreference> = if same_text(key, "unset") {
            None
        } else if same_text(key, "default") {
            Some(TrackPreference::Default)
        } else if same_text(key, "off") {
            Some(TrackPreference::Off)
        } else {
            Some(TrackPreference::Language(key.to_owned()))
        };
        if row == 0 {
            config.jellyfin.audio_language = value;
        } else {
            config.jellyfin.subtitle_language = value;
        }
        self.send(SettingsRequest::SaveConfig);
    }

    /// Take the chosen value of a choice-list setting into the settings. A
    /// backend row has no choices.
    pub fn apply(&mut self, setting: Setting, choice: usize, config: &mut Config)
        ensures
            (final(self)@, final(config)@) == old(self)@.applied(setting, choice, old(config)@),
    {
        match setting {
            Setting::Theme => {
                if choice < THEMES.len() {
                    config.theme = THEMES[choice];
                    self.send(SettingsRequest::SaveConfig);
                }
            },
            Setting::Accent => {
                if choice < config.theme.accent_count() {
                    config.accent = ACCENTS[choice];
                    self.send(SettingsRequest::SaveConfig);
                }
            },
            Setting::Jellyfin | Setting::Radarr | Setting::Sonarr => {},
        }
    }

    /// Handle a key while a choice list (Theme/Accent) is open.
    fn on_choice_key(&mut self, editing: Editing, code: KeyCode, config: &mut Config)
        requires
            old(self)@.editor == EditorModel::Choice(editing),
        ensures
            (final(self)@, final(config)@) == old(self)@.choice_key(editing, code, old(config)@),
    {
        let setting: Setting = editing.setting;
        let cursor: usize = editing.cursor;
        let count: usize = choice_count(setting, config);
        match code {
            KeyCode::Up => {
                self.editor = Editor::Choice(
                    Editing { setting, cursor: go_round_up(cursor, count) },
                );
            },
            KeyCode::Down => {
                self.editor = Editor::Choice(
                    Editing { setting, cursor: go_round_down(cursor, count) },
                );
            },
            KeyCode::Enter => {
                self.apply(setting, cursor, config);
                self.editor = Editor::Closed;
                self.clamp_cursor(config);
            },
            KeyCode::Esc => {
                self.editor = Editor::Closed;
            },
            _ => {},
        }
    }

    /// Handle a key on the Jellyfin submenu: two fixed entries, Credentials
    /// and Language.
    fn on_menu_key(&mut self, cursor: usize, code: KeyCode, config: &Config)
        requires
            old(self)@.editor == (EditorModel::JellyfinMenu { cursor }),
        ensures
            final(self)@ == old(self)@.menu_key(cursor, code, config@),
            final(self)@.wf(),
    {
        match code {
            // Two entries: Up and Down both land on the other one.
            KeyCode::Up | KeyCode::Down => {
                self.editor = Editor::JellyfinMenu { cursor: flip(cursor) };
            },
            KeyCode::Enter => {
                if cursor == 0 {
                    self.editor = Editor::Backend(
                        BackendEditor::from_config(Setting::Jellyfin, config),
                    );
                } else {
                    self.editor = Editor::Language(LanguageEditor { cursor: 0, picker: None });
                }
            },
            KeyCode::Esc | KeyCode::Backspace => {
                self.editor = Editor::Closed;
            },
            _ => {},
        }
    }

    /// Handle a key on the rows of the language page.
    fn on_language_page_key(&mut self, cursor: usize, code: KeyCode, config: &Config)
        requires
            old(self)@.editor == (EditorModel::Language { cursor, picker: None }),
        ensures
            final(self)@ == old(self)@.language_page_key(cursor, code, config@),
    {
        match code {
            // Two rows: Up and Down both land on the other one.
            KeyCode::Up | KeyCode::Down => {
                self.editor = Editor::Language(
                    LanguageEditor { cursor: flip(cursor), picker: None },
                );
            },
            KeyCode::Enter => {
                let current: String = if cursor == 0 {
                    preference_key(&config.jellyfin.audio_language)
                } else {
                    preference_key(&config.jellyfin.subtitle_language)
                };
                let mut picker: Picker = language_picker(cursor);
                picker.select(current.as_str());
                self.editor = Editor::Language(LanguageEditor { cursor, picker: Some(picker) });
            },
            KeyCode::Esc | KeyCode::Backspace => {
                self.editor = Editor::JellyfinMenu { cursor: 1 };
            },
            _ => {},
        }
    }

    /// Handle a key while the language picker is open.
    fn on_picker_key(&mut self, cursor: usize, picker: Picker, key: KeyEvent, config: &mut Config)
        ensures
            (final(self)@, final(config)@) == old(self)@.picker_key(
                cursor,
                picker@,
                key,
                old(config)@,
            ),
    {
        let mut picker: Picker = picker;
        match picker.on_key(key) {
            PickerEvent::Chosen(choice) => {
                self.editor = Editor::Language(LanguageEditor { cursor, picker: None });
                self.apply_language(cursor, choice.as_str(), config);
            },
            PickerEvent::Cancel => {
                self.editor = Editor::Language(LanguageEditor { cursor, picker: None });
            },
            PickerEvent::Consumed => {
                self.editor = Editor::Language(LanguageEditor { cursor, picker: Some(picker) });
            },
        }
    }

    /// Kick off a save for a backend form: the program connects to the server
    /// to validate the URL + credential, and only persists on success.
    fn submit_backend(&mut self, editor: BackendEditor, config: &Config)
        ensures
            final(self)@ == old(self)@.submitted(editor@, config@),
    {
        let mut editor: BackendEditor = editor;
        let request: SaveRequest = editor.request(config);
        editor.busy = true;
        editor.error = None;
        self.save_gen = following_gen(self.save_gen);
        self.editor = Editor::Backend(editor);
        let save_gen: u64 = self.save_gen;
        self.send(SettingsRequest::Connect { save_gen, request });
    }

    /// Handle a key while a credentials form is open; the form is put back
    /// unless the key closes it.
    fn on_backend_key(&mut self, editor: BackendEditor, key: KeyEvent, config: &Config)
        requires
            editor@.form.wf(),
        ensures
            final(self)@ == old(self)@.with_editor(EditorModel::Backend(editor@)).backend_key(
                editor@,
                key,
                config@,
            ),
    {
        let mut editor: BackendEditor = editor;
        let backend: Setting = editor.backend;
        // Mid-connect: only Esc/Backspace cancel; every other key is ignored.
        if editor.busy {
            if matches!(key.code, KeyCode::Esc | KeyCode::Backspace) {
                self.cancel_backend(backend, config);
            } else {
                self.editor = Editor::Backend(editor);
            }
            return;
        }
        // On the buttons 'q' can't be input, so it keeps its app-wide quit
        // meaning (on a field it types into the value).
        if key.code == KeyCode::Char('q') && key.modifiers.is_empty()
            && editor.form.action_row_focused() {
            self.editor = Editor::Backend(editor);
            return;
        }
        match editor.form.on_key(key) {
            // Save gates on validity: an invalid form stays open with the
            // reason shown, rather than firing a doomed connect.
            FormEvent::Save => match editor.invalid_reason() {
                Some(reason) => {
                    editor.error = Some(reason);
                    self.editor = Editor::Backend(editor);
                },
                None => {
                    self.submit_backend(editor, config);
                },
            },
            FormEvent::Cancel => {
                self.cancel_backend(backend, config);
            },
            // Editing a field clears a stale validation/connect error.
            FormEvent::Changed(_) => {
                editor.error = None;
                self.editor = Editor::Backend(editor);
            },
            FormEvent::Consumed => {
                self.editor = Editor::Backend(editor);
            },
        }
    }

    /// Handle a key on the settings list.
    fn on_list_key(&mut self, code: KeyCode, config: &Config)
        requires
            old(self)@.editor is Closed,
        ensures
            final(self)@ == old(self)@.list_key(code, config@),
            final(self)@.wf(),
    {
        let rows: Vec<Setting> = rows(config.theme);
        match code {
            KeyCode::Up => {
                self.cursor = go_round_up(self.cursor, rows.len());
            },
            KeyCode::Down => {
                self.cursor = go_round_down(self.cursor, rows.len());
            },
            KeyCode::Enter => {
                if self.cursor < rows.len() {
                    self.open(rows[self.cursor], config);
                }
            },
            _ => {},
        }
    }

    /// Handle a key; a plain `q` outside of text asks to quit.
    pub fn on_key(&mut self, key: KeyEvent, config: &mut Config) -> (request: Option<ShellRequest>)
        requires
            old(self)@.wf(),
        ensures
            (final(self)@, final(config)@) == old(self)@.after_key(key, old(config)@),
            request == (if old(self)@.quits(key) {
                Some(ShellRequest::Quit)
            } else {
                None
            }),
            final(self)@.wf(),
    {
        proof {
            law_settings_stay_well_formed(self@, key, 0, Ok(()), config@);
        }
        let mut quit: bool = key.code == KeyCode::Char('q') && key.modifiers.is_empty();
        let mut editor: Editor = Editor::Closed;
        std::mem::swap(&mut editor, &mut self.editor);
        match editor {
            Editor::Choice(editing) => {
                quit = false;
                self.editor = Editor::Choice(editing);
                self.on_choice_key(editing, key.code, config);
            },
            Editor::JellyfinMenu { cursor } => {
                self.editor = Editor::JellyfinMenu { cursor };
                self.on_menu_key(cursor, key.code, config);
            },
            Editor::Language(editor) => {
                let cursor: usize = editor.cursor;
                match editor.picker {
                    Some(picker) => {
                        quit = false;
                        self.on_picker_key(cursor, picker, key, config);
                    },
                    None => {
                        self.editor = Editor::Language(LanguageEditor { cursor, picker: None });
                        self.on_language_page_key(cursor, key.code, config);
                    },
                }
            },
            Editor::Backend(editor) => {
                quit = quit && !editor.busy && editor.form.action_row_focused();
                self.on_backend_key(editor, key, config);
            },
            Editor::Closed => {
                self.on_list_key(key.code, config);
            },
        }
        if quit {
            Some(ShellRequest::Quit)
        } else {
            None
        }
    }

    /// A submitted form's connect and save came back.
    pub fn on_save_done(&mut self, save_gen: u64, result: Result<(), String>, config: &Config)
        requires
            old(self)@.wf(),
        ensures
            final(self)@ == old(self)@.after_save(save_gen, save_result(result), config@),
            final(self)@.wf(),
    {
        proof {
            law_settings_stay_well_formed(
                self@,
                KeyEvent { code: KeyCode::Other, modifiers: arbitrary() },
                save_gen,
                save_result(result),
                config@,
            );
        }
        if save_gen != self.save_gen {
            return;
        }
        let mut editor: Editor = Editor::Closed;
        std::mem::swap(&mut editor, &mut self.editor);
        match editor {
            Editor::Backend(editor) => match result {
                Ok(_) => {
                    // A Jellyfin save brought a fresh token; the running tab
                    // adopts it instead of dropping to a login. (API keys are
                    // stateless, so they need no signal.)
                    let backend: Setting = editor.backend;
                    if backend == Setting::Jellyfin {
                        self.reauth = following_gen(self.reauth);
                    }
                    self.close_backend(backend, config);
                },
                Err(message) => {
                    let mut editor: BackendEditor = editor;
                    editor.busy = false;
                    editor.error = Some(message);
                    self.editor = Editor::Backend(editor);
                },
            },
            other => {
                self.editor = other;
            },
        }
    }

    /// True while keys are text input and not shortcuts.
    pub fn capturing_text(&self) -> (answer: bool)
        ensures
            answer == self@.capturing(),
    {
        match &self.editor {
            // A field (not the action row) has focus in the credentials form.
            Editor::Backend(editor) => !editor.form.action_row_focused(),
            // An open language picker always holds a focused filter input.
            Editor::Language(editor) => editor.picker.is_some(),
            Editor::Closed | Editor::Choice(_) | Editor::JellyfinMenu { .. } => false,
        }
    }
}

} // verus!
