//! The "delete this movie/series" prompt, shared by the Sonarr and Radarr
//! tabs: the entity id and its title (for the question) plus the two server
//! options the user toggles before committing. Modal while set; the owning
//! browse holds it in an `Option` and clears it itself.

use vstd::prelude::*;
use vstd::string::*;

use crate::app::{KeyCode, KeyEvent};

verus! {

/// A pending whole-entity delete decision.
pub struct DeletePrompt {
    pub id: i64,
    pub title: String,
    pub delete_files: bool,
    pub add_exclusion: bool,
    /// Which toggle is focused: 0 = delete files, 1 = add exclusion.
    pub focus: usize,
}

/// The prompt as values.
#[verifier::ext_equal]
pub struct DeletePromptModel {
    pub id: i64,
    pub title: Seq<char>,
    pub delete_files: bool,
    pub add_exclusion: bool,
    pub focus: usize,
}

impl View for DeletePrompt {
    type V = DeletePromptModel;

    open spec fn view(&self) -> DeletePromptModel {
        DeletePromptModel {
            id: self.id,
            title: self.title@,
            delete_files: self.delete_files,
            add_exclusion: self.add_exclusion,
            focus: self.focus,
        }
    }
}

/// What routing a key through the prompt resolved to.
#[derive(Debug, Clone, Copy, PartialEq, Eq, Structural)]
pub enum DeleteAction {
    /// Key consumed; nothing for the app to do.
    Consumed,
    /// The user cancelled; the app should drop the prompt.
    Cancelled,
    /// The user committed; the app should issue the delete with these options
    /// and drop the prompt.
    Commit { id: i64, delete_files: bool, add_exclusion: bool },
}

/// The key moves up in a list of toggles.
pub open spec fn moves_up(code: KeyCode) -> bool {
    code == KeyCode::Up || code == KeyCode::Char('k')
}

/// The key moves down in a list of toggles.
pub open spec fn moves_down(code: KeyCode) -> bool {
    code == KeyCode::Down || code == KeyCode::Char('j')
}

/// The key leaves a prompt without committing.
pub open spec fn cancels(code: KeyCode) -> bool {
    code == KeyCode::Esc || code == KeyCode::Char('q')
}

impl DeletePromptModel {
    /// The focus stays on one of the two toggles.
    pub open spec fn wf(self) -> bool {
        self.focus <= 1
    }

    /// The prompt after a key.
    pub open spec fn after_key(self, code: KeyCode) -> DeletePromptModel {
        if moves_up(code) {
            DeletePromptModel { focus: 0, ..self }
        } else if moves_down(code) {
            DeletePromptModel { focus: 1, ..self }
        } else if code == KeyCode::Char(' ') {
            if self.focus == 0 {
                DeletePromptModel { delete_files: !self.delete_files, ..self }
            } else {
                DeletePromptModel { add_exclusion: !self.add_exclusion, ..self }
            }
        } else {
            self
        }
    }

    /// What a key resolves to.
    pub open spec fn key_action(self, code: KeyCode) -> DeleteAction {
        if code == KeyCode::Enter {
            DeleteAction::Commit {
                id: self.id,
                delete_files: self.delete_files,
                add_exclusion: self.add_exclusion,
            }
        } else if cancels(code) {
            DeleteAction::Cancelled
        } else {
            DeleteAction::Consumed
        }
    }

    /// A prompt as it opens.
    pub open spec fn opened(id: i64, title: Seq<char>) -> DeletePromptModel {
        DeletePromptModel { id, title, delete_files: true, add_exclusion: false, focus: 0 }
    }
}

impl DeletePrompt {
    /// Open with the Radarr/Sonarr web defaults: delete files on, exclusion
    /// off, focus on the first toggle.
    pub fn new(id: i64, title: String) -> (prompt: Self)
        ensures
            prompt@ == DeletePromptModel::opened(id, title@),
    {
        DeletePrompt { id, title, delete_files: true, add_exclusion: false, focus: 0 }
    }

    /// Route a key: up/k and down/j move focus (clamped to 0..=1); space
    /// toggles the focused option; enter commits; esc/q cancels.
    pub fn handle_key(&mut self, key: KeyEvent) -> (action: DeleteAction)
        requires
            old(self)@.wf(),
        ensures
            final(self)@ == old(self)@.after_key(key.code),
            action == old(self)@.key_action(key.code),
            final(self)@.wf(),
    {
        match key.code {
            KeyCode::Up | KeyCode::Char('k') => {
                self.focus = self.focus.saturating_sub(1);
            },
            KeyCode::Down | KeyCode::Char('j') => {
                self.focus = if self.focus == 0 {
                    1
                } else {
                    self.focus
                };
            },
            KeyCode::Char(' ') => {
                if self.focus == 0 {
                    self.delete_files = !self.delete_files;
                } else {
                    self.add_exclusion = !self.add_exclusion;
                }
            },
            KeyCode::Enter => {
                return DeleteAction::Commit {
                    id: self.id,
                    delete_files: self.delete_files,
                    add_exclusion: self.add_exclusion,
                };
            },
            KeyCode::Esc | KeyCode::Char('q') => {
                return DeleteAction::Cancelled;
            },
            _ => {},
        }
        DeleteAction::Consumed
    }

    /// The question the prompt asks.
    pub fn question(&self) -> (text: String)
        ensures
            text@ == "Delete "@ + self@.title + "?"@,
    {
        "Delete ".to_owned().concat(self.title.as_str()).concat("?")
    }

    /// The toggles in the order they are listed.
    pub fn options(&self) -> (rows: [(&'static str, bool); 2])
        ensures
            rows@ == seq![
                ("Delete files", self.delete_files),
                ("Add import list exclusion", self.add_exclusion),
            ],
    {
        [("Delete files", self.delete_files), ("Add import list exclusion", self.add_exclusion)]
    }
}

/// Toggling twice leaves the options as they were.
pub proof fn law_space_twice_changes_nothing(prompt: DeletePromptModel)
    ensures
        prompt.after_key(KeyCode::Char(' ')).after_key(KeyCode::Char(' ')) == prompt,
{
}

/// Enter commits to what the two boxes say of the title that the prompt was
/// opened for; the files go unless their box was cleared, and it may come back
/// unless the other was set.
pub proof fn law_prompts_commit_to_what_they_show(prompt: DeletePromptModel, id: i64, title: Seq<char>)
    ensures
        DeletePromptModel::opened(id, title).key_action(KeyCode::Enter) == (DeleteAction::Commit {
            id,
            delete_files: true,
            add_exclusion: false,
        }),
        prompt.key_action(KeyCode::Enter) == (DeleteAction::Commit {
            id: prompt.id,
            delete_files: prompt.delete_files,
            add_exclusion: prompt.add_exclusion,
        }),
        prompt.key_action(KeyCode::Esc) is Cancelled,
        prompt.key_action(KeyCode::Char('q')) is Cancelled,
{
}

/// The blank flips the box in focus and no other, and a second one flips it
/// back.
pub proof fn law_the_blank_flips_the_box_in_focus(prompt: DeletePromptModel)
    requires
        prompt.wf(),
    ensures
        ({
            let t = prompt.after_key(KeyCode::Char(' '));
            &&& t.delete_files == (prompt.delete_files != (prompt.focus == 0))
            &&& t.add_exclusion == (prompt.add_exclusion != (prompt.focus == 1))
            &&& t.id == prompt.id && t.title == prompt.title && t.focus == prompt.focus
            &&& t.after_key(KeyCode::Char(' ')) == prompt
        }),
        prompt.after_key(KeyCode::Down) == (DeletePromptModel { focus: 1, ..prompt }),
        prompt.after_key(KeyCode::Up) == (DeletePromptModel { focus: 0, ..prompt }),
{
}

} // verus!
