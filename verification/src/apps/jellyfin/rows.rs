//! How the Jellyfin browse screen is gone through row by row, and what it shows
//! of a row.

use vstd::prelude::*;

use crate::app::KeyCode;
use crate::apps::jellyfin::actions::{lemma_list_key, on_a_tab, press};
use crate::apps::jellyfin::state::{BrowseModel, ListsModel};
use crate::jellyfin::ItemKind;

verus! {

/// The screen with another row in focus and nothing else changed.
pub open spec fn on_row(s: BrowseModel, at: int) -> BrowseModel {
    BrowseModel { lists: ListsModel { cursor: at as usize, ..s.lists }, ..s }
}

/// The cursor keys move through the rows of a tab's list by one, never past an
/// end. Nothing else changes.
pub proof fn law_cursor_keys_move_by_a_row(s: BrowseModel, down: KeyCode, up: KeyCode)
    requires
        on_a_tab(s),
        s.lists.cursor < s.lists.items.len() <= usize::MAX,
        down == KeyCode::Down || down == KeyCode::Char('j'),
        up == KeyCode::Up || up == KeyCode::Char('k'),
    ensures
        press(s, down) == on_row(
            s,
            if s.lists.cursor + 1 < s.lists.items.len() {
                s.lists.cursor + 1
            } else {
                s.lists.cursor as int
            },
        ),
        press(s, up) == on_row(
            s,
            if s.lists.cursor > 0 {
                s.lists.cursor - 1
            } else {
                0
            },
        ),
{
    lemma_list_key(s, down);
    lemma_list_key(s, up);
}

/// The info panel opens on what has an overview, the item under the cursor, and
/// nowhere else.
pub proof fn law_info_opens_on_what_has_some(s: BrowseModel)
    requires
        on_a_tab(s),
    ensures
        ({
            let t = press(s, KeyCode::Char('i'));
            let some = s.lists.cursor < s.lists.items.len() && {
                let kind = s.lists.items[s.lists.cursor as int].kind;
                kind == ItemKind::Movie || kind == ItemKind::Series || kind == ItemKind::Episode
                    || kind == ItemKind::Video
            };
            &&& t.popups.info_open == some
            &&& some ==> t.popups.info_scroll == 0
            &&& !some ==> t == s
            &&& t.lists == s.lists
            &&& t.outbox == s.outbox
        }),
{
    lemma_list_key(s, KeyCode::Char('i'));
}

} // verus!
