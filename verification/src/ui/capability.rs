//! The role capability filter: one place that says which single-key action
//! is enabled on which screen for which role. Key handling consults it;
//! the help tables render it.
use vstd::prelude::*;

use crate::models::UserRole;
use crate::ui::navigation::Screen;

verus! {

#[derive(Debug, Clone, Copy, PartialEq, Eq, Structural)]
pub enum UserAction {
    CreateSession,
    EditSession,
    DeleteSession,
    ManageContent,
    Subscribe,
    ToggleFilter,
    MarkComplete,
    Quit,
    Help,
    NavigateList,
    SelectItem,
    GoHome,
    GoSessionList,
}

/// Which actions a role may trigger on a screen: session create, edit and
/// delete and content management are the coach's, on the listing or detail
/// screen; subscribe, the filter toggle and completion are the player's;
/// quit, help and list navigation are everyone's.
pub open spec fn spec_permitted(screen: Screen, role: UserRole, action: UserAction) -> bool {
    match action {
        UserAction::CreateSession => role == UserRole::Coach && screen == Screen::SessionList,
        UserAction::EditSession => role == UserRole::Coach && screen == Screen::SessionList,
        UserAction::DeleteSession => role == UserRole::Coach && screen == Screen::SessionList,
        UserAction::ManageContent => role == UserRole::Coach && (screen matches Screen::SessionDetail(_)),
        UserAction::Subscribe => role == UserRole::Player && screen == Screen::SessionList,
        UserAction::ToggleFilter => role == UserRole::Player && screen == Screen::SessionList,
        UserAction::MarkComplete => role == UserRole::Player && (screen matches Screen::SessionDetail(_)),
        UserAction::Quit => true,
        UserAction::Help => true,
        UserAction::NavigateList => true,
        UserAction::SelectItem => true,
        UserAction::GoHome => true,
        UserAction::GoSessionList => true,
    }
}

/// Whether `role` may trigger `action` on `screen`.
pub fn permitted(screen: &Screen, role: &UserRole, action: UserAction) -> (r: bool)
    ensures
        r == spec_permitted(*screen, *role, action),
{
    match action {
        UserAction::CreateSession => *role == UserRole::Coach && *screen == Screen::SessionList,
        UserAction::EditSession => *role == UserRole::Coach && *screen == Screen::SessionList,
        UserAction::DeleteSession => *role == UserRole::Coach && *screen == Screen::SessionList,
        UserAction::ManageContent => *role == UserRole::Coach && matches!(screen, Screen::SessionDetail(_)),
        UserAction::Subscribe => *role == UserRole::Player && *screen == Screen::SessionList,
        UserAction::ToggleFilter => *role == UserRole::Player && *screen == Screen::SessionList,
        UserAction::MarkComplete => *role == UserRole::Player && matches!(screen, Screen::SessionDetail(_)),
        UserAction::Quit => true,
        UserAction::Help => true,
        UserAction::NavigateList => true,
        UserAction::SelectItem => true,
        UserAction::GoHome => true,
        UserAction::GoSessionList => true,
    }
}

/// Law: no action that changes sessions or subscriptions is permitted to
/// both roles at once — the coach's and the player's capability sets are
/// mutually exclusive outside the global actions.
pub proof fn lemma_roles_mutually_exclusive(screen: Screen, action: UserAction)
    requires
        action == UserAction::CreateSession || action == UserAction::EditSession || action
            == UserAction::DeleteSession || action == UserAction::ManageContent || action
            == UserAction::Subscribe || action == UserAction::ToggleFilter || action
            == UserAction::MarkComplete,
    ensures
        !(spec_permitted(screen, UserRole::Coach, action) && spec_permitted(
            screen,
            UserRole::Player,
            action,
        )),
{
}

} // verus!
