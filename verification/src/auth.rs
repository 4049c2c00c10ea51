//! The resolved identity the engine is constructed with.
use vstd::prelude::*;

use crate::models::User;
use crate::models::UserRole;

verus! {

/// Holds the currently authenticated user's context.
#[derive(Debug)]
pub struct UserContext {
    pub user: User,
}

impl UserContext {
    pub fn new(user: User) -> (r: UserContext)
        ensures
            r.user == user,
    {
        UserContext { user }
    }

    pub fn username(&self) -> (r: &str)
        ensures
            r@ == self.user.username@,
    {
        self.user.username.as_str()
    }

    pub fn is_coach(&self) -> (r: bool)
        ensures
            r == (self.user.role == UserRole::Coach),
    {
        self.user.is_coach()
    }

    pub fn is_player(&self) -> (r: bool)
        ensures
            r == (self.user.role == UserRole::Player),
    {
        self.user.is_player()
    }
}

impl Clone for UserContext {
    fn clone(&self) -> (res: UserContext)
        ensures
            res == *self,
    {
        UserContext { user: self.user.clone() }
    }
}

} // verus!
