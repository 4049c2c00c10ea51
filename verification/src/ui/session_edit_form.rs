//! Session edit form: the same field ring as the creation form, but
//! pre-populated from an existing session's current values.
use vstd::prelude::*;

use crate::models::Session;
use crate::strutil::chopped;
use crate::strutil::count_char;
use crate::strutil::char_is_numeric;
use crate::strutil::dec_str_i64;
use crate::strutil::exec_count_char;
use crate::strutil::fmt_i64;
use crate::strutil::numeric_char;
use crate::strutil::parse_u32;
use crate::strutil::spec_parse_u32;
use crate::strutil::spec_parse_i32;
use crate::strutil::parse_i32;
use crate::strutil::str_eq;
use crate::ui::session_form::spec_cycle_back;
use crate::ui::session_form::spec_cycle_forward;
use vstd::string::StrSliceExecFns;

verus! {

/// Session edit form state, pre-populated with existing session data.
#[derive(Debug, Clone)]
pub struct SessionEditForm {
    pub title: String,
    pub description: String,
    pub scheduled_date: String,
    pub scheduled_time: String,
    pub duration_minutes: String,
    pub skill_level: String,
    pub focus_field: FormField,
}

#[derive(Debug, Clone, Copy, PartialEq, Eq, Structural)]
pub enum FormField {
    Title,
    Description,
    ScheduledDate,
    ScheduledTime,
    DurationMinutes,
    SkillLevel,
}

impl FormField {
    pub open spec fn spec_next(self) -> FormField {
        match self {
            FormField::Title => FormField::Description,
            FormField::Description => FormField::ScheduledDate,
            FormField::ScheduledDate => FormField::ScheduledTime,
            FormField::ScheduledTime => FormField::DurationMinutes,
            FormField::DurationMinutes => FormField::SkillLevel,
            FormField::SkillLevel => FormField::Title,
        }
    }

    pub open spec fn spec_prev(self) -> FormField {
        match self {
            FormField::Title => FormField::SkillLevel,
            FormField::Description => FormField::Title,
            FormField::ScheduledDate => FormField::Description,
            FormField::ScheduledTime => FormField::ScheduledDate,
            FormField::DurationMinutes => FormField::ScheduledTime,
            FormField::SkillLevel => FormField::DurationMinutes,
        }
    }
}

/// Law: over the edit form's field ring, one step forward then one step
/// back returns focus to the original field, and likewise the other way.
pub proof fn lemma_edit_focus_ring_roundtrip(f: FormField)
    ensures
        f.spec_next().spec_prev() == f,
        f.spec_prev().spec_next() == f,
{
}

impl SessionEditForm {
    /// All fields except the focus agree between `pre` and `post`.
    pub open spec fn same_buffers(pre: SessionEditForm, post: SessionEditForm) -> bool {
        &&& post.title == pre.title
        &&& post.description == pre.description
        &&& post.scheduled_date == pre.scheduled_date
        &&& post.scheduled_time == pre.scheduled_time
        &&& post.duration_minutes == pre.duration_minutes
        &&& post.skill_level == pre.skill_level
    }

    /// All fields except the skill level agree between `pre` and `post`.
    pub open spec fn same_but_skill(pre: SessionEditForm, post: SessionEditForm) -> bool {
        &&& post.title == pre.title
        &&& post.description == pre.description
        &&& post.scheduled_date == pre.scheduled_date
        &&& post.scheduled_time == pre.scheduled_time
        &&& post.duration_minutes == pre.duration_minutes
        &&& post.focus_field == pre.focus_field
    }

    /// Build the form from a session's current values: absent optional
    /// values become empty buffers, the duration is shown in decimal, and an
    /// absent skill level defaults to `beginner`.
    pub fn from_session(session: &Session) -> (r: SessionEditForm)
        ensures
            r.title@ == session.title@,
            r.description@ == (match session.description {
                Some(d) => d@,
                None => Seq::<char>::empty(),
            }),
            r.scheduled_date@ == (match session.scheduled_date {
                Some(d) => d@,
                None => Seq::<char>::empty(),
            }),
            r.scheduled_time@ == (match session.scheduled_time {
                Some(t) => t@,
                None => Seq::<char>::empty(),
            }),
            r.duration_minutes@ == (match session.duration_minutes {
                Some(d) => dec_str_i64(d as int),
                None => Seq::<char>::empty(),
            }),
            r.skill_level@ == (match session.skill_level {
                Some(l) => l.spec_str(),
                None => "beginner"@,
            }),
            r.focus_field == FormField::Title,
    {
        let description = match &session.description {
            Some(d) => d.clone(),
            None => String::new(),
        };
        let scheduled_date = match &session.scheduled_date {
            Some(d) => d.clone(),
            None => String::new(),
        };
        let scheduled_time = match &session.scheduled_time {
            Some(t) => t.clone(),
            None => String::new(),
        };
        let duration_minutes = match session.duration_minutes {
            Some(d) => fmt_i64(d as i64),
            None => String::new(),
        };
        let skill_level = match &session.skill_level {
            Some(l) => l.as_str().to_owned(),
            None => "beginner".to_owned(),
        };
        SessionEditForm {
            title: session.title.clone(),
            description,
            scheduled_date,
            scheduled_time,
            duration_minutes,
            skill_level,
            focus_field: FormField::Title,
        }
    }

    /// Move focus to the next field of the ring.
    pub fn next_field(&mut self)
        ensures
            final(self).focus_field == old(self).focus_field.spec_next(),
            SessionEditForm::same_buffers(*old(self), *final(self)),
    {
        self.focus_field = match self.focus_field {
            FormField::Title => FormField::Description,
            FormField::Description => FormField::ScheduledDate,
            FormField::ScheduledDate => FormField::ScheduledTime,
            FormField::ScheduledTime => FormField::DurationMinutes,
            FormField::DurationMinutes => FormField::SkillLevel,
            FormField::SkillLevel => FormField::Title,
        };
    }

    /// Move focus to the previous field of the ring.
    pub fn prev_field(&mut self)
        ensures
            final(self).focus_field == old(self).focus_field.spec_prev(),
            SessionEditForm::same_buffers(*old(self), *final(self)),
    {
        self.focus_field = match self.focus_field {
            FormField::Title => FormField::SkillLevel,
            FormField::Description => FormField::Title,
            FormField::ScheduledDate => FormField::Description,
            FormField::ScheduledTime => FormField::ScheduledDate,
            FormField::DurationMinutes => FormField::ScheduledTime,
            FormField::SkillLevel => FormField::DurationMinutes,
        };
    }

    /// What adding a character does: see the creation form; the rules are
    /// the same.
    pub open spec fn add_char_spec(pre: SessionEditForm, post: SessionEditForm, c: char) -> bool {
        match pre.focus_field {
            FormField::Title => {
                &&& post.title@ == pre.title@.push(c)
                &&& post.description == pre.description
                &&& post.scheduled_date == pre.scheduled_date
                &&& post.scheduled_time == pre.scheduled_time
                &&& post.duration_minutes == pre.duration_minutes
                &&& post.skill_level == pre.skill_level
                &&& post.focus_field == pre.focus_field
            },
            FormField::Description => {
                &&& post.description@ == pre.description@.push(c)
                &&& post.title == pre.title
                &&& post.scheduled_date == pre.scheduled_date
                &&& post.scheduled_time == pre.scheduled_time
                &&& post.duration_minutes == pre.duration_minutes
                &&& post.skill_level == pre.skill_level
                &&& post.focus_field == pre.focus_field
            },
            FormField::ScheduledDate => {
                &&& post.scheduled_date@ == pre.scheduled_date@.push(c)
                &&& post.title == pre.title
                &&& post.description == pre.description
                &&& post.scheduled_time == pre.scheduled_time
                &&& post.duration_minutes == pre.duration_minutes
                &&& post.skill_level == pre.skill_level
                &&& post.focus_field == pre.focus_field
            },
            FormField::ScheduledTime => {
                &&& post.scheduled_time@ == pre.scheduled_time@.push(c)
                &&& post.title == pre.title
                &&& post.description == pre.description
                &&& post.scheduled_date == pre.scheduled_date
                &&& post.duration_minutes == pre.duration_minutes
                &&& post.skill_level == pre.skill_level
                &&& post.focus_field == pre.focus_field
            },
            FormField::DurationMinutes => {
                if numeric_char(c) {
                    &&& post.duration_minutes@ == pre.duration_minutes@.push(c)
                    &&& post.title == pre.title
                    &&& post.description == pre.description
                    &&& post.scheduled_date == pre.scheduled_date
                    &&& post.scheduled_time == pre.scheduled_time
                    &&& post.skill_level == pre.skill_level
                    &&& post.focus_field == pre.focus_field
                } else {
                    post == pre
                }
            },
            FormField::SkillLevel => post == pre,
        }
    }

    /// Append a character to the focused field.
    pub fn add_char(&mut self, c: char)
        ensures
            SessionEditForm::add_char_spec(*old(self), *final(self), c),
    {
        match self.focus_field {
            FormField::Title => self.title.push(c),
            FormField::Description => self.description.push(c),
            FormField::ScheduledDate => self.scheduled_date.push(c),
            FormField::ScheduledTime => self.scheduled_time.push(c),
            FormField::DurationMinutes => {
                if char_is_numeric(c) {
                    self.duration_minutes.push(c);
                }
            },
            FormField::SkillLevel => {},
        }
    }

    /// What backspace does: see the creation form; the rules are the same.
    pub open spec fn backspace_spec(pre: SessionEditForm, post: SessionEditForm) -> bool {
        match pre.focus_field {
            FormField::Title => {
                &&& post.title@ == chopped(pre.title@)
                &&& post.description == pre.description
                &&& post.scheduled_date == pre.scheduled_date
                &&& post.scheduled_time == pre.scheduled_time
                &&& post.duration_minutes == pre.duration_minutes
                &&& post.skill_level == pre.skill_level
                &&& post.focus_field == pre.focus_field
            },
            FormField::Description => {
                &&& post.description@ == chopped(
                    pre.description@,
                )
                &&& post.title == pre.title
                &&& post.scheduled_date == pre.scheduled_date
                &&& post.scheduled_time == pre.scheduled_time
                &&& post.duration_minutes == pre.duration_minutes
                &&& post.skill_level == pre.skill_level
                &&& post.focus_field == pre.focus_field
            },
            FormField::ScheduledDate => {
                &&& post.scheduled_date@ == chopped(
                    pre.scheduled_date@,
                )
                &&& post.title == pre.title
                &&& post.description == pre.description
                &&& post.scheduled_time == pre.scheduled_time
                &&& post.duration_minutes == pre.duration_minutes
                &&& post.skill_level == pre.skill_level
                &&& post.focus_field == pre.focus_field
            },
            FormField::ScheduledTime => {
                &&& post.scheduled_time@ == chopped(
                    pre.scheduled_time@,
                )
                &&& post.title == pre.title
                &&& post.description == pre.description
                &&& post.scheduled_date == pre.scheduled_date
                &&& post.duration_minutes == pre.duration_minutes
                &&& post.skill_level == pre.skill_level
                &&& post.focus_field == pre.focus_field
            },
            FormField::DurationMinutes => {
                &&& post.duration_minutes@ == chopped(
                    pre.duration_minutes@,
                )
                &&& post.title == pre.title
                &&& post.description == pre.description
                &&& post.scheduled_date == pre.scheduled_date
                &&& post.scheduled_time == pre.scheduled_time
                &&& post.skill_level == pre.skill_level
                &&& post.focus_field == pre.focus_field
            },
            FormField::SkillLevel => {
                &&& post.skill_level@ == spec_cycle_back(pre.skill_level@)
                &&& SessionEditForm::same_but_skill(pre, post)
            },
        }
    }

    /// Remove the last character of the focused field; on the skill-level
    /// field, cycle the level backward.
    pub fn backspace(&mut self)
        ensures
            SessionEditForm::backspace_spec(*old(self), *final(self)),
    {
        match self.focus_field {
            FormField::Title => {
                self.title.pop();
            },
            FormField::Description => {
                self.description.pop();
            },
            FormField::ScheduledDate => {
                self.scheduled_date.pop();
            },
            FormField::ScheduledTime => {
                self.scheduled_time.pop();
            },
            FormField::DurationMinutes => {
                self.duration_minutes.pop();
            },
            FormField::SkillLevel => {
                let next: &str = if str_eq(self.skill_level.as_str(), "beginner") {
                    "advanced"
                } else if str_eq(self.skill_level.as_str(), "intermediate") {
                    "beginner"
                } else if str_eq(self.skill_level.as_str(), "advanced") {
                    "intermediate"
                } else {
                    "beginner"
                };
                self.skill_level = next.to_owned();
            },
        }
    }

    /// Advance the skill level in the fixed cyclic order.
    pub fn cycle_skill_level_forward(&mut self)
        ensures
            final(self).skill_level@ == spec_cycle_forward(old(self).skill_level@),
            SessionEditForm::same_but_skill(*old(self), *final(self)),
    {
        let next: &str = if str_eq(self.skill_level.as_str(), "beginner") {
            "intermediate"
        } else if str_eq(self.skill_level.as_str(), "intermediate") {
            "advanced"
        } else if str_eq(self.skill_level.as_str(), "advanced") {
            "beginner"
        } else {
            "beginner"
        };
        self.skill_level = next.to_owned();
    }

    /// The first failing validation rule's message, or `None` when every
    /// rule passes; the rules are those of the creation form.
    pub open spec fn spec_error(self) -> Option<Seq<char>> {
        if self.title@.len() == 0 {
            Some("Title is required"@)
        } else if self.title@.len() < 3 {
            Some("Title must be at least 3 characters"@)
        } else if self.title@.len() > 100 {
            Some("Title must be less than 100 characters"@)
        } else if self.description@.len() > 500 {
            Some("Description must be less than 500 characters"@)
        } else if self.scheduled_date@.len() > 0 && count_char(self.scheduled_date@, '-') != 2 {
            Some("Date format should be YYYY-MM-DD"@)
        } else if self.scheduled_time@.len() > 0 && count_char(self.scheduled_time@, ':') != 1 {
            Some("Time format should be HH:MM"@)
        } else if self.duration_minutes@.len() > 0 {
            match spec_parse_u32(self.duration_minutes@) {
                None => Some("Duration must be a number"@),
                Some(d) => if d < 5 || d > 480 {
                    Some("Duration must be between 5 and 480 minutes"@)
                } else {
                    None
                },
            }
        } else {
            None
        }
    }

    /// Validate the form: `Ok` exactly when every rule passes, otherwise the
    /// first failing rule's message.
    pub fn validate(&self) -> (r: Result<(), String>)
        ensures
            match r {
                Ok(_) => self.spec_error() is None,
                Err(m) => self.spec_error() == Some(m@),
            },
    {
        if self.title.as_str().unicode_len() == 0 {
            return Err("Title is required".to_owned());
        }
        if self.title.as_str().unicode_len() < 3 {
            return Err("Title must be at least 3 characters".to_owned());
        }
        if self.title.as_str().unicode_len() > 100 {
            return Err("Title must be less than 100 characters".to_owned());
        }
        if self.description.as_str().unicode_len() > 500 {
            return Err("Description must be less than 500 characters".to_owned());
        }
        if self.scheduled_date.as_str().unicode_len() > 0 {
            if exec_count_char(self.scheduled_date.as_str(), '-') != 2 {
                return Err("Date format should be YYYY-MM-DD".to_owned());
            }
        }
        if self.scheduled_time.as_str().unicode_len() > 0 {
            if exec_count_char(self.scheduled_time.as_str(), ':') != 1 {
                return Err("Time format should be HH:MM".to_owned());
            }
        }
        if self.duration_minutes.as_str().unicode_len() > 0 {
            match parse_u32(self.duration_minutes.as_str()) {
                None => {
                    return Err("Duration must be a number".to_owned());
                },
                Some(d) => {
                    if d < 5 || d > 480 {
                        return Err("Duration must be between 5 and 480 minutes".to_owned());
                    }
                },
            }
        }
        Ok(())
    }

    /// The form's fields as plain record values, as on the creation form.
    pub fn as_db_values(&self) -> (r: (String, String, Option<String>, Option<String>, Option<i32>, String))
        ensures
            r.0@ == self.title@,
            r.1@ == self.description@,
            (match r.2 {
                Some(d) => self.scheduled_date@.len() > 0 && d@ == self.scheduled_date@,
                None => self.scheduled_date@.len() == 0,
            }),
            (match r.3 {
                Some(t) => self.scheduled_time@.len() > 0 && t@ == self.scheduled_time@,
                None => self.scheduled_time@.len() == 0,
            }),
            r.4 == (if self.duration_minutes@.len() == 0 {
                None::<i32>
            } else {
                spec_parse_i32(self.duration_minutes@)
            }),
            r.5@ == self.skill_level@,
    {
        let date = if self.scheduled_date.as_str().unicode_len() == 0 {
            None
        } else {
            Some(self.scheduled_date.clone())
        };
        let time = if self.scheduled_time.as_str().unicode_len() == 0 {
            None
        } else {
            Some(self.scheduled_time.clone())
        };
        let duration = if self.duration_minutes.as_str().unicode_len() == 0 {
            None
        } else {
            parse_i32(self.duration_minutes.as_str())
        };
        (
            self.title.clone(),
            self.description.clone(),
            date,
            time,
            duration,
            self.skill_level.clone(),
        )
    }
}

} // verus!
