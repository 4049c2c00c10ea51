//! Domain data: users, sessions, training content, subscriptions and the
//! read-only composite view that drives the list and detail screens.
//!
//! Dates, times and timestamps are held as plain values: a scheduled date is
//! the `YYYY-MM-DD` text the form engine works with, a scheduled time the
//! `HH:MM` text, and a creation or completion instant a Unix timestamp.
use vstd::prelude::*;

use crate::strutil::eq_ignore_ascii_case;
use crate::strutil::str_eq_ci;

verus! {

#[derive(Debug, Clone, Copy, PartialEq, Eq, Structural)]
pub enum UserRole {
    Coach,
    Player,
}

impl UserRole {
    pub open spec fn spec_from_str(s: Seq<char>) -> Option<UserRole> {
        if eq_ignore_ascii_case(s, "coach"@) {
            Some(UserRole::Coach)
        } else if eq_ignore_ascii_case(s, "player"@) {
            Some(UserRole::Player)
        } else {
            None
        }
    }

    /// Parses a role name, ignoring ASCII case.
    pub fn from_str(s: &str) -> (r: Option<UserRole>)
        ensures
            r == UserRole::spec_from_str(s@),
    {
        if str_eq_ci(s, "coach") {
            Some(UserRole::Coach)
        } else if str_eq_ci(s, "player") {
            Some(UserRole::Player)
        } else {
            None
        }
    }

    pub open spec fn spec_str(self) -> Seq<char> {
        match self {
            UserRole::Coach => "coach"@,
            UserRole::Player => "player"@,
        }
    }

    pub fn as_str(&self) -> (r: &'static str)
        ensures
            r@ == self.spec_str(),
    {
        match self {
            UserRole::Coach => "coach",
            UserRole::Player => "player",
        }
    }
}

#[derive(Debug, Clone, Copy, PartialEq, Eq, Structural)]
pub enum SkillLevel {
    Beginner,
    Intermediate,
    Advanced,
}

impl SkillLevel {
    pub open spec fn spec_from_str(s: Seq<char>) -> Option<SkillLevel> {
        if eq_ignore_ascii_case(s, "beginner"@) {
            Some(SkillLevel::Beginner)
        } else if eq_ignore_ascii_case(s, "intermediate"@) {
            Some(SkillLevel::Intermediate)
        } else if eq_ignore_ascii_case(s, "advanced"@) {
            Some(SkillLevel::Advanced)
        } else {
            None
        }
    }

    /// Parses a skill level name, ignoring ASCII case.
    pub fn from_str(s: &str) -> (r: Option<SkillLevel>)
        ensures
            r == SkillLevel::spec_from_str(s@),
    {
        if str_eq_ci(s, "beginner") {
            Some(SkillLevel::Beginner)
        } else if str_eq_ci(s, "intermediate") {
            Some(SkillLevel::Intermediate)
        } else if str_eq_ci(s, "advanced") {
            Some(SkillLevel::Advanced)
        } else {
            None
        }
    }

    pub open spec fn spec_str(self) -> Seq<char> {
        match self {
            SkillLevel::Beginner => "beginner"@,
            SkillLevel::Intermediate => "intermediate"@,
            SkillLevel::Advanced => "advanced"@,
        }
    }

    pub fn as_str(&self) -> (r: &'static str)
        ensures
            r@ == self.spec_str(),
    {
        match self {
            SkillLevel::Beginner => "beginner",
            SkillLevel::Intermediate => "intermediate",
            SkillLevel::Advanced => "advanced",
        }
    }
}

#[derive(Debug, Clone, Copy, PartialEq, Eq, Structural)]
pub enum ContentType {
    Drill,
    Exercise,
    Warmup,
    Cooldown,
}

impl ContentType {
    pub open spec fn spec_from_str(s: Seq<char>) -> Option<ContentType> {
        if eq_ignore_ascii_case(s, "drill"@) {
            Some(ContentType::Drill)
        } else if eq_ignore_ascii_case(s, "exercise"@) {
            Some(ContentType::Exercise)
        } else if eq_ignore_ascii_case(s, "warmup"@) {
            Some(ContentType::Warmup)
        } else if eq_ignore_ascii_case(s, "cooldown"@) {
            Some(ContentType::Cooldown)
        } else {
            None
        }
    }

    /// Parses a content kind name, ignoring ASCII case.
    pub fn from_str(s: &str) -> (r: Option<ContentType>)
        ensures
            r == ContentType::spec_from_str(s@),
    {
        if str_eq_ci(s, "drill") {
            Some(ContentType::Drill)
        } else if str_eq_ci(s, "exercise") {
            Some(ContentType::Exercise)
        } else if str_eq_ci(s, "warmup") {
            Some(ContentType::Warmup)
        } else if str_eq_ci(s, "cooldown") {
            Some(ContentType::Cooldown)
        } else {
            None
        }
    }

    pub open spec fn spec_str(self) -> Seq<char> {
        match self {
            ContentType::Drill => "drill"@,
            ContentType::Exercise => "exercise"@,
            ContentType::Warmup => "warmup"@,
            ContentType::Cooldown => "cooldown"@,
        }
    }

    pub fn as_str(&self) -> (r: &'static str)
        ensures
            r@ == self.spec_str(),
    {
        match self {
            ContentType::Drill => "drill",
            ContentType::Exercise => "exercise",
            ContentType::Warmup => "warmup",
            ContentType::Cooldown => "cooldown",
        }
    }
}

#[derive(Debug, Clone, Copy, PartialEq, Eq, Structural)]
pub enum SubscriptionStatus {
    Active,
    Completed,
    Cancelled,
}

impl SubscriptionStatus {
    pub open spec fn spec_from_str(s: Seq<char>) -> Option<SubscriptionStatus> {
        if eq_ignore_ascii_case(s, "active"@) {
            Some(SubscriptionStatus::Active)
        } else if eq_ignore_ascii_case(s, "completed"@) {
            Some(SubscriptionStatus::Completed)
        } else if eq_ignore_ascii_case(s, "cancelled"@) {
            Some(SubscriptionStatus::Cancelled)
        } else {
            None
        }
    }

    /// Parses a subscription status name, ignoring ASCII case.
    pub fn from_str(s: &str) -> (r: Option<SubscriptionStatus>)
        ensures
            r == SubscriptionStatus::spec_from_str(s@),
    {
        if str_eq_ci(s, "active") {
            Some(SubscriptionStatus::Active)
        } else if str_eq_ci(s, "completed") {
            Some(SubscriptionStatus::Completed)
        } else if str_eq_ci(s, "cancelled") {
            Some(SubscriptionStatus::Cancelled)
        } else {
            None
        }
    }

    pub open spec fn spec_str(self) -> Seq<char> {
        match self {
            SubscriptionStatus::Active => "active"@,
            SubscriptionStatus::Completed => "completed"@,
            SubscriptionStatus::Cancelled => "cancelled"@,
        }
    }

    pub fn as_str(&self) -> (r: &'static str)
        ensures
            r@ == self.spec_str(),
    {
        match self {
            SubscriptionStatus::Active => "active",
            SubscriptionStatus::Completed => "completed",
            SubscriptionStatus::Cancelled => "cancelled",
        }
    }
}

#[derive(Debug)]
pub struct User {
    pub id: i64,
    pub username: String,
    pub display_name: String,
    pub role: UserRole,
    pub skill_level: Option<SkillLevel>,
    pub goals: Option<String>,
    pub created_at: i64,
    pub updated_at: i64,
}

impl User {
    pub fn is_coach(&self) -> (r: bool)
        ensures
            r == (self.role == UserRole::Coach),
    {
        self.role == UserRole::Coach
    }

    pub fn is_player(&self) -> (r: bool)
        ensures
            r == (self.role == UserRole::Player),
    {
        self.role == UserRole::Player
    }
}

#[derive(Debug)]
pub struct Session {
    pub id: i64,
    pub title: String,
    pub description: Option<String>,
    pub scheduled_date: Option<String>,
    pub scheduled_time: Option<String>,
    pub duration_minutes: Option<i32>,
    pub skill_level: Option<SkillLevel>,
    pub created_by: i64,
    pub created_at: i64,
    pub updated_at: i64,
}

#[derive(Debug)]
pub struct TrainingContent {
    pub id: i64,
    pub session_id: i64,
    pub content_type: ContentType,
    pub title: String,
    pub description: Option<String>,
    pub duration_minutes: Option<i32>,
    pub order_index: i32,
}

#[derive(Debug)]
pub struct Subscription {
    pub id: i64,
    pub user_id: i64,
    pub session_id: i64,
    pub subscribed_at: i64,
    pub completed_at: Option<i64>,
    pub status: SubscriptionStatus,
    pub notes: Option<String>,
}

/// Session combined with the viewing player's own subscription, if any.
#[derive(Debug)]
pub struct SessionWithSubscription {
    pub session: Session,
    pub subscription: Option<Subscription>,
}

impl SessionWithSubscription {
    pub fn new(session: Session, subscription: Option<Subscription>) -> (r: SessionWithSubscription)
        ensures
            r.session == session,
            r.subscription == subscription,
    {
        SessionWithSubscription { session, subscription }
    }

    pub open spec fn spec_is_subscribed(self) -> bool {
        self.subscription is Some
    }

    pub fn is_subscribed(&self) -> (r: bool)
        ensures
            r == self.spec_is_subscribed(),
    {
        self.subscription.is_some()
    }

    pub open spec fn spec_is_completed(self) -> bool {
        self.subscription matches Some(s) && s.completed_at is Some
    }

    pub fn is_completed(&self) -> (r: bool)
        ensures
            r == self.spec_is_completed(),
    {
        match &self.subscription {
            Some(s) => s.completed_at.is_some(),
            None => false,
        }
    }

    pub fn subscription_id(&self) -> (r: Option<i64>)
        ensures
            match self.subscription {
                Some(s) => r == Some(s.id),
                None => r is None,
            },
    {
        match &self.subscription {
            Some(s) => Some(s.id),
            None => None,
        }
    }
}

pub fn clone_opt_string(o: &Option<String>) -> (r: Option<String>)
    ensures
        r == *o,
{
    match o {
        Some(s) => Some(s.clone()),
        None => None,
    }
}

impl Clone for User {
    fn clone(&self) -> (res: User)
        ensures
            res == *self,
    {
        User {
            id: self.id,
            username: self.username.clone(),
            display_name: self.display_name.clone(),
            role: self.role,
            skill_level: self.skill_level,
            goals: clone_opt_string(&self.goals),
            created_at: self.created_at,
            updated_at: self.updated_at,
        }
    }
}

impl Clone for Session {
    fn clone(&self) -> (res: Session)
        ensures
            res == *self,
    {
        Session {
            id: self.id,
            title: self.title.clone(),
            description: clone_opt_string(&self.description),
            scheduled_date: clone_opt_string(&self.scheduled_date),
            scheduled_time: clone_opt_string(&self.scheduled_time),
            duration_minutes: self.duration_minutes,
            skill_level: self.skill_level,
            created_by: self.created_by,
            created_at: self.created_at,
            updated_at: self.updated_at,
        }
    }
}

impl Clone for TrainingContent {
    fn clone(&self) -> (res: TrainingContent)
        ensures
            res == *self,
    {
        TrainingContent {
            id: self.id,
            session_id: self.session_id,
            content_type: self.content_type,
            title: self.title.clone(),
            description: clone_opt_string(&self.description),
            duration_minutes: self.duration_minutes,
            order_index: self.order_index,
        }
    }
}

impl Clone for Subscription {
    fn clone(&self) -> (res: Subscription)
        ensures
            res == *self,
    {
        Subscription {
            id: self.id,
            user_id: self.user_id,
            session_id: self.session_id,
            subscribed_at: self.subscribed_at,
            completed_at: self.completed_at,
            status: self.status,
            notes: clone_opt_string(&self.notes),
        }
    }
}

impl Clone for SessionWithSubscription {
    fn clone(&self) -> (res: SessionWithSubscription)
        ensures
            res == *self,
    {
        SessionWithSubscription {
            session: self.session.clone(),
            subscription: match &self.subscription {
                Some(s) => Some(s.clone()),
                None => None,
            },
        }
    }
}

#[derive(Debug, Clone)]
pub struct TrainingTemplate {
    pub id: i64,
    pub coach_id: i64,
    pub title: String,
    pub content_type: String,
    pub description: Option<String>,
    pub duration_minutes: Option<i32>,
    pub created_at: String,
    pub created_by: i64,
    pub last_edited_by: Option<i64>,
    pub last_edited_at: Option<String>,
    pub is_public: bool,
}

#[derive(Debug, Clone)]
pub struct TemplateAuditInfo {
    pub created_by_name: String,
    pub last_edited_by_name: Option<String>,
}

#[derive(Debug, Clone)]
pub struct SessionTrainingLink {
    pub id: i64,
    pub session_id: i64,
    pub training_template_id: i64,
    pub order_index: i32,
    pub custom_notes: Option<String>,
}

#[derive(Debug, Clone)]
pub struct SessionTrainingLinkWithTemplate {
    pub link: SessionTrainingLink,
    pub template: Option<TrainingTemplate>,
}

} // verus!
