//! The closed set of screens the navigator moves between.
use vstd::prelude::*;

use crate::auth::UserContext;

verus! {

#[derive(Debug, Clone, Copy, PartialEq, Eq, Structural)]
pub enum Screen {
    Home,
    SessionList,
    SessionDetail(i64),
    SessionCreate,
    SessionEdit(i64),
    SessionDelete(i64),
    TrainingContentCreate(i64),
    TrainingContentEdit(i64),
    TrainingContentDelete(i64),
    Help,
}

impl Screen {
    /// The main menu: both roles see Home and the session list, under the
    /// role's own label.
    pub fn get_menu_items(user_context: &UserContext) -> (r: Vec<(&'static str, Screen)>)
        ensures
            r@.len() == 2,
            r@[0].0@ == "Home"@,
            r@[0].1 == Screen::Home,
            r@[1].1 == Screen::SessionList,
            user_context.user.role == crate::models::UserRole::Coach ==> r@[1].0@
                == "Manage Session"@,
            user_context.user.role != crate::models::UserRole::Coach ==> r@[1].0@
                == "My Session"@,
    {
        let mut r: Vec<(&'static str, Screen)> = Vec::new();
        r.push(("Home", Screen::Home));
        if user_context.is_coach() {
            r.push(("Manage Session", Screen::SessionList));
        } else {
            r.push(("My Session", Screen::SessionList));
        }
        r
    }
}

} // verus!
