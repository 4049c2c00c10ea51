//! Training content form: a ring of four fields, an enum-valued content
//! kind cycled in a fixed order, and the submit-time validation rules.
use vstd::prelude::*;

use crate::models::ContentType;
use crate::strutil::char_is_numeric;
use crate::strutil::chopped;
use crate::strutil::numeric_char;
use crate::strutil::parse_u32;
use crate::strutil::spec_parse_u32;
use crate::strutil::spec_parse_i32;
use crate::strutil::parse_i32;
use vstd::string::StrSliceExecFns;

verus! {

#[derive(Debug, Clone)]
pub struct TrainingContentForm {
    pub title: String,
    pub description: String,
    pub duration_minutes: String,
    pub content_type: ContentType,
    pub focus_field: FormField,
}

#[derive(Debug, Clone, Copy, PartialEq, Eq, Structural)]
pub enum FormField {
    Title,
    Description,
    DurationMinutes,
    ContentType,
}

impl FormField {
    pub open spec fn spec_next(self) -> FormField {
        match self {
            FormField::Title => FormField::Description,
            FormField::Description => FormField::DurationMinutes,
            FormField::DurationMinutes => FormField::ContentType,
            FormField::ContentType => FormField::Title,
        }
    }

    pub open spec fn spec_prev(self) -> FormField {
        match self {
            FormField::Title => FormField::ContentType,
            FormField::Description => FormField::Title,
            FormField::DurationMinutes => FormField::Description,
            FormField::ContentType => FormField::DurationMinutes,
        }
    }
}

/// Law: over the content form's field ring, one step forward then one step
/// back returns focus to the original field, and likewise the other way.
pub proof fn lemma_content_focus_ring_roundtrip(f: FormField)
    ensures
        f.spec_next().spec_prev() == f,
        f.spec_prev().spec_next() == f,
{
}

/// The next content kind in the fixed cyclic order.
pub open spec fn spec_kind_next(k: ContentType) -> ContentType {
    match k {
        ContentType::Drill => ContentType::Exercise,
        ContentType::Exercise => ContentType::Warmup,
        ContentType::Warmup => ContentType::Cooldown,
        ContentType::Cooldown => ContentType::Drill,
    }
}

/// The previous content kind in the fixed cyclic order.
pub open spec fn spec_kind_prev(k: ContentType) -> ContentType {
    match k {
        ContentType::Drill => ContentType::Cooldown,
        ContentType::Exercise => ContentType::Drill,
        ContentType::Warmup => ContentType::Exercise,
        ContentType::Cooldown => ContentType::Warmup,
    }
}

/// Law: cycling the content kind forward then backward, or backward then
/// forward, returns to the original kind.
pub proof fn lemma_kind_cycle_roundtrip(k: ContentType)
    ensures
        spec_kind_prev(spec_kind_next(k)) == k,
        spec_kind_next(spec_kind_prev(k)) == k,
{
}

impl TrainingContentForm {
    /// All fields except the focus agree between `pre` and `post`.
    pub open spec fn same_buffers(pre: TrainingContentForm, post: TrainingContentForm) -> bool {
        &&& post.title == pre.title
        &&& post.description == pre.description
        &&& post.duration_minutes == pre.duration_minutes
        &&& post.content_type == pre.content_type
    }

    pub fn new() -> (r: TrainingContentForm)
        ensures
            r.title@ == Seq::<char>::empty(),
            r.description@ == Seq::<char>::empty(),
            r.duration_minutes@ == Seq::<char>::empty(),
            r.content_type == ContentType::Drill,
            r.focus_field == FormField::Title,
    {
        TrainingContentForm {
            title: String::new(),
            description: String::new(),
            duration_minutes: String::new(),
            content_type: ContentType::Drill,
            focus_field: FormField::Title,
        }
    }

    /// Move focus to the next field of the ring.
    pub fn next_field(&mut self)
        ensures
            final(self).focus_field == old(self).focus_field.spec_next(),
            TrainingContentForm::same_buffers(*old(self), *final(self)),
    {
        self.focus_field = match self.focus_field {
            FormField::Title => FormField::Description,
            FormField::Description => FormField::DurationMinutes,
            FormField::DurationMinutes => FormField::ContentType,
            FormField::ContentType => FormField::Title,
        };
    }

    /// Move focus to the previous field of the ring.
    pub fn prev_field(&mut self)
        ensures
            final(self).focus_field == old(self).focus_field.spec_prev(),
            TrainingContentForm::same_buffers(*old(self), *final(self)),
    {
        self.focus_field = match self.focus_field {
            FormField::Title => FormField::ContentType,
            FormField::Description => FormField::Title,
            FormField::DurationMinutes => FormField::Description,
            FormField::ContentType => FormField::DurationMinutes,
        };
    }

    /// What adding a character does: appended to the focused text buffer,
    /// digits only for the duration, and no direct input on the kind field.
    pub open spec fn add_char_spec(pre: TrainingContentForm, post: TrainingContentForm, c: char) -> bool {
        match pre.focus_field {
            FormField::Title => {
                &&& post.title@ == pre.title@.push(c)
                &&& post.description == pre.description
                &&& post.duration_minutes == pre.duration_minutes
                &&& post.content_type == pre.content_type
                &&& post.focus_field == pre.focus_field
            },
            FormField::Description => {
                &&& post.description@ == pre.description@.push(c)
                &&& post.title == pre.title
                &&& post.duration_minutes == pre.duration_minutes
                &&& post.content_type == pre.content_type
                &&& post.focus_field == pre.focus_field
            },
            FormField::DurationMinutes => {
                if numeric_char(c) {
                    &&& post.duration_minutes@ == pre.duration_minutes@.push(c)
                    &&& post.title == pre.title
                    &&& post.description == pre.description
                    &&& post.content_type == pre.content_type
                    &&& post.focus_field == pre.focus_field
                } else {
                    post == pre
                }
            },
            FormField::ContentType => post == pre,
        }
    }

    /// Append a character to the focused field.
    pub fn add_char(&mut self, c: char)
        ensures
            TrainingContentForm::add_char_spec(*old(self), *final(self), c),
    {
        match self.focus_field {
            FormField::Title => self.title.push(c),
            FormField::Description => self.description.push(c),
            FormField::DurationMinutes => {
                if char_is_numeric(c) {
                    self.duration_minutes.push(c);
                }
            },
            FormField::ContentType => {},
        }
    }

    /// What backspace does: it removes the last character of the focused
    /// text buffer; on the kind field it instead cycles the kind backward.
    pub open spec fn backspace_spec(pre: TrainingContentForm, post: TrainingContentForm) -> bool {
        match pre.focus_field {
            FormField::Title => {
                &&& post.title@ == chopped(pre.title@)
                &&& post.description == pre.description
                &&& post.duration_minutes == pre.duration_minutes
                &&& post.content_type == pre.content_type
                &&& post.focus_field == pre.focus_field
            },
            FormField::Description => {
                &&& post.description@ == chopped(pre.description@)
                &&& post.title == pre.title
                &&& post.duration_minutes == pre.duration_minutes
                &&& post.content_type == pre.content_type
                &&& post.focus_field == pre.focus_field
            },
            FormField::DurationMinutes => {
                &&& post.duration_minutes@ == chopped(pre.duration_minutes@)
                &&& post.title == pre.title
                &&& post.description == pre.description
                &&& post.content_type == pre.content_type
                &&& post.focus_field == pre.focus_field
            },
            FormField::ContentType => {
                &&& post.content_type == spec_kind_prev(pre.content_type)
                &&& post.title == pre.title
                &&& post.description == pre.description
                &&& post.duration_minutes == pre.duration_minutes
                &&& post.focus_field == pre.focus_field
            },
        }
    }

    /// Remove the last character of the focused field; on the kind field,
    /// cycle the kind backward.
    pub fn backspace(&mut self)
        ensures
            TrainingContentForm::backspace_spec(*old(self), *final(self)),
    {
        match self.focus_field {
            FormField::Title => {
                self.title.pop();
            },
            FormField::Description => {
                self.description.pop();
            },
            FormField::DurationMinutes => {
                self.duration_minutes.pop();
            },
            FormField::ContentType => {
                self.content_type = match self.content_type {
                    ContentType::Drill => ContentType::Cooldown,
                    ContentType::Exercise => ContentType::Drill,
                    ContentType::Warmup => ContentType::Exercise,
                    ContentType::Cooldown => ContentType::Warmup,
                };
            },
        }
    }

    /// Advance the content kind in the fixed cyclic order.
    pub fn cycle_content_type_forward(&mut self)
        ensures
            final(self).content_type == spec_kind_next(old(self).content_type),
            final(self).title == old(self).title,
            final(self).description == old(self).description,
            final(self).duration_minutes == old(self).duration_minutes,
            final(self).focus_field == old(self).focus_field,
    {
        self.content_type = match self.content_type {
            ContentType::Drill => ContentType::Exercise,
            ContentType::Exercise => ContentType::Warmup,
            ContentType::Warmup => ContentType::Cooldown,
            ContentType::Cooldown => ContentType::Drill,
        };
    }

    /// The first failing validation rule's message, or `None` when every
    /// rule passes: title of 2 to 100 characters; description of at most
    /// 500; duration empty or an unsigned number within 1 to 480.
    pub open spec fn spec_error(self) -> Option<Seq<char>> {
        if self.title@.len() == 0 {
            Some("Title is required"@)
        } else if self.title@.len() < 2 {
            Some("Title must be at least 2 characters"@)
        } else if self.title@.len() > 100 {
            Some("Title must be less than 100 characters"@)
        } else if self.description@.len() > 500 {
            Some("Description must be less than 500 characters"@)
        } else if self.duration_minutes@.len() > 0 {
            match spec_parse_u32(self.duration_minutes@) {
                None => Some("Duration must be a number"@),
                Some(d) => if d < 1 || d > 480 {
                    Some("Duration must be between 1 and 480 minutes"@)
                } else {
                    None
                },
            }
        } else {
            None
        }
    }

    /// Validate the form: `Ok` exactly when every rule passes, otherwise the
    /// first failing rule's message.
    pub fn validate(&self) -> (r: Result<(), String>)
        ensures
            match r {
                Ok(_) => self.spec_error() is None,
                Err(m) => self.spec_error() == Some(m@),
            },
    {
        if self.title.as_str().unicode_len() == 0 {
            return Err("Title is required".to_owned());
        }
        if self.title.as_str().unicode_len() < 2 {
            return Err("Title must be at least 2 characters".to_owned());
        }
        if self.title.as_str().unicode_len() > 100 {
            return Err("Title must be less than 100 characters".to_owned());
        }
        if self.description.as_str().unicode_len() > 500 {
            return Err("Description must be less than 500 characters".to_owned());
        }
        if self.duration_minutes.as_str().unicode_len() > 0 {
            match parse_u32(self.duration_minutes.as_str()) {
                None => {
                    return Err("Duration must be a number".to_owned());
                },
                Some(d) => {
                    if d < 1 || d > 480 {
                        return Err("Duration must be between 1 and 480 minutes".to_owned());
                    }
                },
            }
        }
        Ok(())
    }

    /// The form's fields as plain record values: an empty duration becomes
    /// `None`, and the kind is given by its lower-case name.
    pub fn as_db_values(&self) -> (r: (String, String, Option<i32>, String))
        ensures
            r.0@ == self.title@,
            r.1@ == self.description@,
            r.2 == (if self.duration_minutes@.len() == 0 {
                None::<i32>
            } else {
                spec_parse_i32(self.duration_minutes@)
            }),
            r.3@ == self.content_type.spec_str(),
    {
        let duration = if self.duration_minutes.as_str().unicode_len() == 0 {
            None
        } else {
            parse_i32(self.duration_minutes.as_str())
        };
        (
            self.title.clone(),
            self.description.clone(),
            duration,
            self.content_type.as_str().to_owned(),
        )
    }

    /// Reset every field to its initial value.
    pub fn clear(&mut self)
        ensures
            final(self).title@ == Seq::<char>::empty(),
            final(self).description@ == Seq::<char>::empty(),
            final(self).duration_minutes@ == Seq::<char>::empty(),
            final(self).content_type == ContentType::Drill,
            final(self).focus_field == FormField::Title,
    {
        self.title.clear();
        self.description.clear();
        self.duration_minutes.clear();
        self.content_type = ContentType::Drill;
        self.focus_field = FormField::Title;
    }
}

} // verus!
