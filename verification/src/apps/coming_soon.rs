//! Placeholder for apps that are planned but not implemented yet.

use vstd::prelude::*;
use vstd::string::*;

use crate::app::{AppId, AppStatus, KeyCode, KeyEvent, ShellRequest};

verus! {

/// A tab that only says it is coming.
pub struct ComingSoonApp {
    pub id: AppId,
    pub title: &'static str,
}

impl ComingSoonApp {
    pub fn new(id: AppId, title: &'static str) -> (app: Self)
        ensures
            app == (ComingSoonApp { id, title }),
    {
        ComingSoonApp { id, title }
    }

    pub fn status(&self) -> (status: AppStatus)
        ensures
            status == AppStatus::ComingSoon,
    {
        AppStatus::ComingSoon
    }

    /// `q` quits; every other key is ignored.
    pub fn on_key(&mut self, key: KeyEvent) -> (request: Option<ShellRequest>)
        ensures
            request == if key.code == KeyCode::Char('q') {
                Some(ShellRequest::Quit)
            } else {
                None
            },
            *final(self) == *old(self),
    {
        match key.code {
            KeyCode::Char('q') => Some(ShellRequest::Quit),
            _ => None,
        }
    }

    /// The sentence in the middle of the tab.
    pub fn message(&self) -> (text: String)
        ensures
            text@ == self.title@ + " support is coming soon."@,
    {
        self.title.to_owned().concat(" support is coming soon.")
    }
}

} // verus!
