//! The screen navigator: one state aggregate owning the current screen,
//! the loaded lists, the transient forms and the status message. Each key
//! event updates the state and, where persistence is involved, yields a
//! command for the calling shell to run against the store; the shell
//! reports the outcome back through the `*_finished` and `*_loaded`
//! methods.
use vstd::prelude::*;

use crate::auth::UserContext;
use crate::domain::make_session_record;
use crate::domain::SessionRecord;
use crate::models::ContentType;
use crate::models::SessionWithSubscription;
use crate::models::Subscription;
use crate::models::TrainingContent;
use crate::models::UserRole;
use crate::ui::capability::permitted;
use crate::ui::capability::spec_permitted;
use crate::ui::capability::UserAction;
use crate::ui::navigation::Screen;
use crate::ui::session_edit_form::SessionEditForm;
use crate::ui::session_filter::SessionFilter;
use crate::ui::session_form::SessionForm;
use crate::ui::training_content_form::TrainingContentForm;
use vstd::string::StrSliceExecFns;
use vstd::string::StringExecFns;

verus! {

/// The key codes the engine acts on.
#[derive(Debug, Clone, Copy, PartialEq, Eq, Structural)]
pub enum KeyInput {
    Char(char),
    Up,
    Down,
    Left,
    Right,
    Tab,
    BackTab,
    Enter,
    Backspace,
    Esc,
}

/// The plain values a training content row is created or updated with.
#[derive(Debug, Clone)]
pub struct ContentRecord {
    pub title: String,
    pub description: Option<String>,
    pub duration_minutes: Option<i32>,
    pub content_type: ContentType,
    pub order_index: i32,
}

/// A persistence action the shell must run against the store.
#[derive(Debug, Clone)]
pub enum Command {
    LoadSessions,
    LoadContent(i64),
    SaveSession(SessionRecord),
    UpdateSession(i64, SessionRecord),
    DeleteSession(i64),
    SaveContent(i64, ContentRecord),
    UpdateContent(i64, i64, ContentRecord),
    DeleteContent(i64),
    Subscribe(i64),
    Unsubscribe(i64),
    MarkComplete(i64),
}

/// Commands only a coach's screens can produce.
pub open spec fn coach_command(c: Command) -> bool {
    ||| c matches Command::SaveSession(_)
    ||| c matches Command::UpdateSession(_, _)
    ||| c matches Command::DeleteSession(_)
    ||| c matches Command::SaveContent(_, _)
    ||| c matches Command::UpdateContent(_, _, _)
    ||| c matches Command::DeleteContent(_)
}

/// Commands only a player's actions can produce.
pub open spec fn player_command(c: Command) -> bool {
    ||| c matches Command::Subscribe(_)
    ||| c matches Command::Unsubscribe(_)
    ||| c matches Command::MarkComplete(_)
}

/// The screens where keystrokes are routed to the session form.
pub open spec fn form_mode(s: Screen) -> bool {
    s == Screen::SessionCreate || (s matches Screen::SessionEdit(_))
}

/// The screens where keystrokes are routed to the content form.
pub open spec fn content_form_mode(s: Screen) -> bool {
    (s matches Screen::TrainingContentCreate(_)) || (s matches Screen::TrainingContentEdit(_))
}

/// The confirmation screens, which accept only confirm or cancel.
pub open spec fn confirm_mode(s: Screen) -> bool {
    (s matches Screen::SessionDelete(_)) || (s matches Screen::TrainingContentDelete(_))
}

pub open spec fn main_mode(s: Screen) -> bool {
    !form_mode(s) && !content_form_mode(s) && !confirm_mode(s)
}

/// The screens only a coach can reach.
pub open spec fn coach_screen(s: Screen) -> bool {
    ||| form_mode(s)
    ||| content_form_mode(s)
    ||| confirm_mode(s)
}

/// The first content row with the given id.
pub open spec fn spec_find_content(items: Seq<TrainingContent>, id: i64) -> Option<int>
    decreases items.len(),
{
    if items.len() == 0 {
        None
    } else if items[0].id == id {
        Some(0)
    } else {
        match spec_find_content(items.drop_first(), id) {
            Some(i) => Some(i + 1),
            None => None,
        }
    }
}

proof fn lemma_find_content_properties(items: Seq<TrainingContent>, id: i64)
    ensures
        match spec_find_content(items, id) {
            Some(i) => 0 <= i < items.len() && items[i].id == id && (forall|j: int|
                0 <= j < i ==> items[j].id != id),
            None => forall|j: int| 0 <= j < items.len() ==> items[j].id != id,
        },
    decreases items.len(),
{
    if items.len() > 0 {
        if items[0].id != id {
            let rest = items.drop_first();
            lemma_find_content_properties(rest, id);
            match spec_find_content(rest, id) {
                Some(i) => {
                    assert(items[i + 1] == rest[i]);
                    assert forall|j: int| 0 <= j < i + 1 implies items[j].id != id by {
                        if j > 0 {
                            assert(rest[j - 1] == items[j]);
                        }
                    }
                },
                None => {
                    assert forall|j: int| 0 <= j < items.len() implies items[j].id != id by {
                        if j > 0 {
                            assert(rest[j - 1] == items[j]);
                        }
                    }
                },
            }
        }
    }
}

/// The index of the first content row with the given id.
fn find_content(items: &Vec<TrainingContent>, id: i64) -> (r: Option<usize>)
    ensures
        match r {
            Some(k) => spec_find_content(items@, id) == Some(k as int),
            None => spec_find_content(items@, id) is None,
        },
{
    proof {
        lemma_find_content_properties(items@, id);
    }
    let mut i: usize = 0;
    while i < items.len()
        invariant
            i <= items@.len(),
            forall|j: int| 0 <= j < i ==> items@[j].id != id,
            match spec_find_content(items@, id) {
                Some(k) => 0 <= k < items@.len() && items@[k].id == id && (forall|j: int|
                    0 <= j < k ==> items@[j].id != id),
                None => forall|j: int| 0 <= j < items@.len() ==> items@[j].id != id,
            },
        decreases items@.len() - i,
    {
        if items[i].id == id {
            proof {
                match spec_find_content(items@, id) {
                    Some(k) => {
                        assert(k == i);
                    },
                    None => {
                        assert(false);
                    },
                }
            }
            return Some(i);
        }
        i = i + 1;
    }
    None
}

pub struct App {
    pub user_context: UserContext,
    pub should_quit: bool,
    pub current_screen: Screen,
    pub sessions: Vec<SessionWithSubscription>,
    pub selected_index: usize,
    pub db_path: String,
    pub session_filter: SessionFilter,
    pub message: Option<String>,
    pub session_form: SessionForm,
    pub session_edit_form: Option<SessionEditForm>,
    pub delete_confirmation: bool,
    pub training_content: Vec<TrainingContent>,
    pub training_content_form: TrainingContentForm,
    pub training_content_selected_index: usize,
}

impl App {
    /// The navigator's invariant: the selection stays within the loaded
    /// list (and is zero when it is empty), the content list leaves room
    /// for one more order index, and the form, confirmation and content
    /// screens are reached only by a coach.
    pub open spec fn wf(self) -> bool {
        &&& (self.sessions@.len() == 0 ==> self.selected_index == 0)
        &&& (self.sessions@.len() > 0 ==> self.selected_index < self.sessions@.len())
        &&& self.training_content@.len() + 1 <= 0x7fff_ffff
        &&& (coach_screen(self.current_screen) ==> self.user_context.user.role == UserRole::Coach)
    }

    /// Everything except the current screen and the status message agrees
    /// between `pre` and `post`.
    pub open spec fn same_core(pre: App, post: App) -> bool {
        &&& post.user_context == pre.user_context
        &&& post.should_quit == pre.should_quit
        &&& post.sessions == pre.sessions
        &&& post.selected_index == pre.selected_index
        &&& post.db_path == pre.db_path
        &&& post.session_filter == pre.session_filter
        &&& post.session_form == pre.session_form
        &&& post.session_edit_form == pre.session_edit_form
        &&& post.delete_confirmation == pre.delete_confirmation
        &&& post.training_content == pre.training_content
        &&& post.training_content_form == pre.training_content_form
        &&& post.training_content_selected_index == pre.training_content_selected_index
    }

    /// Only the status message was cleared; every other field, the screen
    /// included, is unchanged. This is what a key refused by the capability
    /// filter leaves behind.
    pub open spec fn only_message_cleared(pre: App, post: App) -> bool {
        &&& App::same_core(pre, post)
        &&& post.current_screen == pre.current_screen
        &&& post.message is None
    }

    /// The record committed from the creation form, field by field.
    pub open spec fn record_of_session_form(f: SessionForm, rec: SessionRecord) -> bool {
        crate::domain::spec_session_record(
            f.title@,
            f.description@,
            f.scheduled_date@,
            f.scheduled_time@,
            f.duration_minutes@,
            f.skill_level@,
            rec,
        )
    }

    /// The record committed from the edit form, field by field.
    pub open spec fn record_of_edit_form(f: SessionEditForm, rec: SessionRecord) -> bool {
        crate::domain::spec_session_record(
            f.title@,
            f.description@,
            f.scheduled_date@,
            f.scheduled_time@,
            f.duration_minutes@,
            f.skill_level@,
            rec,
        )
    }

    /// The record committed from the content form, field by field; the
    /// order index is the caller's.
    pub open spec fn record_of_content_form(f: TrainingContentForm, rec: ContentRecord) -> bool {
        &&& rec.title@ == f.title@
        &&& (match rec.description {
            Some(d) => f.description@.len() > 0 && d@ == f.description@,
            None => f.description@.len() == 0,
        })
        &&& rec.duration_minutes == (if f.duration_minutes@.len() == 0 {
            None::<i32>
        } else {
            crate::strutil::spec_parse_i32(f.duration_minutes@)
        })
        &&& rec.content_type == f.content_type
    }

    /// What one keystroke does on the session create and edit screens,
    /// stated over the state before and after and the command returned:
    /// field navigation, editing, skill-level cycling, submit and cancel.
    pub open spec fn form_key_spec(pre: App, post: App, key: KeyInput, r: Option<Command>) -> bool {
        &&& post.user_context == pre.user_context
        &&& post.should_quit == pre.should_quit
        &&& post.sessions == pre.sessions
        &&& post.selected_index == pre.selected_index
        &&& post.db_path == pre.db_path
        &&& post.session_filter == pre.session_filter
        &&& post.delete_confirmation == pre.delete_confirmation
        &&& post.training_content == pre.training_content
        &&& post.training_content_form == pre.training_content_form
        &&& post.training_content_selected_index == pre.training_content_selected_index
        &&& post.current_screen == (if key == KeyInput::Esc {
            Screen::SessionList
        } else {
            pre.current_screen
        })
        &&& (key != KeyInput::Enter ==> post.message == pre.message)
        &&& (key == KeyInput::Esc ==> r == Some(Command::LoadSessions))
        &&& (r matches Some(c) ==> (c matches Command::SaveSession(_) || c
            matches Command::UpdateSession(_, _) || c == Command::LoadSessions))
        &&& (pre.current_screen == Screen::SessionCreate ==> post.session_edit_form
            == pre.session_edit_form)
        &&& (pre.current_screen matches Screen::SessionEdit(_) ==> post.session_form
            == pre.session_form)
        &&& (!form_mode(pre.current_screen) ==> post.session_form == pre.session_form
            && post.session_edit_form == pre.session_edit_form && (key != KeyInput::Esc
            ==> r is None))
        &&& match key {
            KeyInput::Tab | KeyInput::Down => {
                &&& (pre.current_screen == Screen::SessionCreate
                    ==> post.session_form.focus_field == pre.session_form.focus_field.spec_next()
                    && SessionForm::same_buffers(pre.session_form, post.session_form))
                &&& (pre.current_screen matches Screen::SessionEdit(_) ==> (match (
                    pre.session_edit_form,
                    post.session_edit_form,
                ) {
                    (Some(f), Some(g)) => g.focus_field == f.focus_field.spec_next()
                        && SessionEditForm::same_buffers(f, g),
                    (None, None) => true,
                    _ => false,
                }))
                &&& r is None
            },
            KeyInput::BackTab | KeyInput::Up => {
                &&& (pre.current_screen == Screen::SessionCreate
                    ==> post.session_form.focus_field == pre.session_form.focus_field.spec_prev()
                    && SessionForm::same_buffers(pre.session_form, post.session_form))
                &&& (pre.current_screen matches Screen::SessionEdit(_) ==> (match (
                    pre.session_edit_form,
                    post.session_edit_form,
                ) {
                    (Some(f), Some(g)) => g.focus_field == f.focus_field.spec_prev()
                        && SessionEditForm::same_buffers(f, g),
                    (None, None) => true,
                    _ => false,
                }))
                &&& r is None
            },
            KeyInput::Char(c) => {
                &&& (pre.current_screen == Screen::SessionCreate
                    ==> SessionForm::add_char_spec(pre.session_form, post.session_form, c))
                &&& (pre.current_screen matches Screen::SessionEdit(_) ==> (match (
                    pre.session_edit_form,
                    post.session_edit_form,
                ) {
                    (Some(f), Some(g)) => SessionEditForm::add_char_spec(f, g, c),
                    (None, None) => true,
                    _ => false,
                }))
                &&& r is None
            },
            KeyInput::Backspace => {
                &&& (pre.current_screen == Screen::SessionCreate
                    ==> SessionForm::backspace_spec(pre.session_form, post.session_form))
                &&& (pre.current_screen matches Screen::SessionEdit(_) ==> (match (
                    pre.session_edit_form,
                    post.session_edit_form,
                ) {
                    (Some(f), Some(g)) => SessionEditForm::backspace_spec(f, g),
                    (None, None) => true,
                    _ => false,
                }))
                &&& r is None
            },
            KeyInput::Left => {
                &&& (pre.current_screen == Screen::SessionCreate ==> (
                if pre.session_form.focus_field == crate::ui::session_form::FormField::SkillLevel {
                    post.session_form.focus_field
                        == crate::ui::session_form::FormField::DurationMinutes
                        && SessionForm::same_buffers(pre.session_form, post.session_form)
                } else {
                    post.session_form == pre.session_form
                }))
                &&& (pre.current_screen matches Screen::SessionEdit(_) ==> (match (
                    pre.session_edit_form,
                    post.session_edit_form,
                ) {
                    (Some(f), Some(g)) => if f.focus_field
                        == crate::ui::session_edit_form::FormField::SkillLevel {
                        g.focus_field == crate::ui::session_edit_form::FormField::DurationMinutes
                            && SessionEditForm::same_buffers(f, g)
                    } else {
                        g == f
                    },
                    (None, None) => true,
                    _ => false,
                }))
                &&& r is None
            },
            KeyInput::Right => {
                &&& (pre.current_screen == Screen::SessionCreate ==> (
                if pre.session_form.focus_field == crate::ui::session_form::FormField::SkillLevel {
                    post.session_form.skill_level@ == crate::ui::session_form::spec_cycle_forward(
                        pre.session_form.skill_level@,
                    ) && SessionForm::same_but_skill(pre.session_form, post.session_form)
                } else {
                    post.session_form == pre.session_form
                }))
                &&& (pre.current_screen matches Screen::SessionEdit(_) ==> (match (
                    pre.session_edit_form,
                    post.session_edit_form,
                ) {
                    (Some(f), Some(g)) => if f.focus_field
                        == crate::ui::session_edit_form::FormField::SkillLevel {
                        g.skill_level@ == crate::ui::session_form::spec_cycle_forward(
                            f.skill_level@,
                        ) && SessionEditForm::same_but_skill(f, g)
                    } else {
                        g == f
                    },
                    (None, None) => true,
                    _ => false,
                }))
                &&& r is None
            },
            KeyInput::Enter => {
                &&& post.session_form == pre.session_form
                &&& post.session_edit_form == pre.session_edit_form
                &&& (pre.current_screen == Screen::SessionCreate ==> ({
                    &&& (pre.session_form.spec_error() is None <==> (r matches Some(
                        Command::SaveSession(_),
                    )))
                    &&& (match pre.session_form.spec_error() {
                        Some(m) => post.message matches Some(msg) && msg@ == "Error: "@ + m,
                        None => post.message == pre.message,
                    })
                    &&& (r matches Some(Command::SaveSession(rec))
                        ==> App::record_of_session_form(pre.session_form, rec))
                }))
                &&& (pre.current_screen matches Screen::SessionEdit(id) ==> (
                match pre.session_edit_form {
                    Some(f) => {
                        &&& (f.spec_error() is None <==> (r matches Some(
                            Command::UpdateSession(_, _),
                        )))
                        &&& (r matches Some(Command::UpdateSession(sid, rec)) ==> sid == id
                            && App::record_of_edit_form(f, rec))
                        &&& (match f.spec_error() {
                            Some(m) => post.message matches Some(msg) && msg@ == "Error: "@ + m,
                            None => post.message == pre.message,
                        })
                    },
                    None => r is None && post.message == pre.message,
                }))
            },
            KeyInput::Esc => {
                &&& post.session_form == pre.session_form
                &&& post.session_edit_form == pre.session_edit_form
            },
        }
    }

    /// What one keystroke does on the training content create and edit
    /// screens, stated over the state before and after and the command
    /// returned. On submit of a new row, the order index appended is the
    /// current content count plus one.
    pub open spec fn content_form_key_spec(
        pre: App,
        post: App,
        key: KeyInput,
        r: Option<Command>,
    ) -> bool {
        &&& post.user_context == pre.user_context
        &&& post.should_quit == pre.should_quit
        &&& post.sessions == pre.sessions
        &&& post.selected_index == pre.selected_index
        &&& post.db_path == pre.db_path
        &&& post.session_filter == pre.session_filter
        &&& post.session_form == pre.session_form
        &&& post.session_edit_form == pre.session_edit_form
        &&& post.delete_confirmation == pre.delete_confirmation
        &&& post.training_content == pre.training_content
        &&& post.training_content_selected_index == pre.training_content_selected_index
        &&& post.current_screen == (if key == KeyInput::Esc {
            Screen::SessionList
        } else {
            pre.current_screen
        })
        &&& (key != KeyInput::Enter ==> post.message == pre.message)
        &&& (key == KeyInput::Esc ==> r == Some(Command::LoadSessions))
        &&& (r matches Some(c) ==> (c matches Command::SaveContent(_, _) || c
            matches Command::UpdateContent(_, _, _) || c == Command::LoadSessions))
        &&& match key {
            KeyInput::Tab => {
                &&& post.training_content_form.focus_field
                    == pre.training_content_form.focus_field.spec_next()
                &&& TrainingContentForm::same_buffers(
                    pre.training_content_form,
                    post.training_content_form,
                )
                &&& r is None
            },
            KeyInput::BackTab => {
                &&& post.training_content_form.focus_field
                    == pre.training_content_form.focus_field.spec_prev()
                &&& TrainingContentForm::same_buffers(
                    pre.training_content_form,
                    post.training_content_form,
                )
                &&& r is None
            },
            KeyInput::Char(c) => {
                &&& TrainingContentForm::add_char_spec(
                    pre.training_content_form,
                    post.training_content_form,
                    c,
                )
                &&& r is None
            },
            KeyInput::Backspace => {
                &&& TrainingContentForm::backspace_spec(
                    pre.training_content_form,
                    post.training_content_form,
                )
                &&& r is None
            },
            KeyInput::Right | KeyInput::Down => {
                &&& (if pre.training_content_form.focus_field
                    == crate::ui::training_content_form::FormField::ContentType {
                    post.training_content_form.content_type
                        == crate::ui::training_content_form::spec_kind_next(
                        pre.training_content_form.content_type,
                    ) && post.training_content_form.focus_field
                        == pre.training_content_form.focus_field
                        && post.training_content_form.title == pre.training_content_form.title
                        && post.training_content_form.description
                        == pre.training_content_form.description
                        && post.training_content_form.duration_minutes
                        == pre.training_content_form.duration_minutes
                } else {
                    post.training_content_form.focus_field
                        == pre.training_content_form.focus_field.spec_next()
                        && TrainingContentForm::same_buffers(
                        pre.training_content_form,
                        post.training_content_form,
                    )
                })
                &&& r is None
            },
            KeyInput::Left | KeyInput::Up => {
                &&& (if pre.training_content_form.focus_field
                    == crate::ui::training_content_form::FormField::ContentType {
                    post.training_content_form.focus_field
                        == crate::ui::training_content_form::FormField::DurationMinutes
                        && TrainingContentForm::same_buffers(
                        pre.training_content_form,
                        post.training_content_form,
                    )
                } else {
                    post.training_content_form.focus_field
                        == pre.training_content_form.focus_field.spec_prev()
                        && TrainingContentForm::same_buffers(
                        pre.training_content_form,
                        post.training_content_form,
                    )
                })
                &&& r is None
            },
            KeyInput::Enter => {
                &&& post.training_content_form == pre.training_content_form
                &&& (match pre.training_content_form.spec_error() {
                    Some(m) => post.message matches Some(msg) && msg@ == "Validation error: "@ + m
                        && r is None,
                    None => post.message == pre.message,
                })
                &&& (pre.current_screen matches Screen::TrainingContentCreate(session_id) ==> (
                if pre.training_content_form.spec_error() is None {
                    r matches Some(Command::SaveContent(sid, rec)) && sid == session_id
                        && rec.order_index == pre.training_content@.len() + 1
                        && App::record_of_content_form(pre.training_content_form, rec)
                } else {
                    r is None
                }))
                &&& (pre.current_screen matches Screen::TrainingContentEdit(content_id) ==> (
                if pre.training_content_form.spec_error() is None {
                    match spec_find_content(pre.training_content@, content_id) {
                        Some(k) => r matches Some(Command::UpdateContent(cid, sid, rec)) && cid
                            == content_id && sid == pre.training_content@[k].session_id
                            && rec.order_index == pre.training_content@[k].order_index
                            && App::record_of_content_form(pre.training_content_form, rec),
                        None => r is None,
                    }
                } else {
                    r is None
                }))
                &&& (!content_form_mode(pre.current_screen) ==> r is None)
            },
            KeyInput::Esc => {
                post.training_content_form == pre.training_content_form
            },
        }
    }

    pub fn new(user_context: UserContext, db_path: String) -> (r: App)
        ensures
            r.wf(),
            r.user_context == user_context,
            !r.should_quit,
            r.current_screen == Screen::Home,
            r.sessions@.len() == 0,
            r.selected_index == 0,
            r.db_path == db_path,
            r.session_filter == SessionFilter::MySubscriptions,
            r.message is None,
            r.session_edit_form is None,
            !r.delete_confirmation,
            r.training_content@.len() == 0,
            r.training_content_selected_index == 0,
            r.session_form.title@ == Seq::<char>::empty(),
            r.session_form.description@ == Seq::<char>::empty(),
            r.session_form.scheduled_date@ == Seq::<char>::empty(),
            r.session_form.scheduled_time@ == Seq::<char>::empty(),
            r.session_form.duration_minutes@ == Seq::<char>::empty(),
            r.session_form.skill_level@ == "beginner"@,
            r.session_form.focus_field == crate::ui::session_form::FormField::Title,
            r.training_content_form.title@ == Seq::<char>::empty(),
            r.training_content_form.description@ == Seq::<char>::empty(),
            r.training_content_form.duration_minutes@ == Seq::<char>::empty(),
            r.training_content_form.content_type == ContentType::Drill,
            r.training_content_form.focus_field
                == crate::ui::training_content_form::FormField::Title,
    {
        App {
            user_context,
            should_quit: false,
            current_screen: Screen::Home,
            sessions: Vec::new(),
            selected_index: 0,
            db_path,
            session_filter: SessionFilter::MySubscriptions,
            message: None,
            session_form: SessionForm::new(),
            session_edit_form: None,
            delete_confirmation: false,
            training_content: Vec::new(),
            training_content_form: TrainingContentForm::new(),
            training_content_selected_index: 0,
        }
    }

    /// Route one key event: form screens get their own handlers, the
    /// confirmation screens take only confirm or cancel, and every other
    /// screen follows the main transition table.
    pub fn handle_key_event(&mut self, key: KeyInput) -> (r: Option<Command>)
        requires
            old(self).wf(),
        ensures
            final(self).wf(),
            final(self).user_context == old(self).user_context,
            final(self).db_path == old(self).db_path,
            final(self).sessions == old(self).sessions,
            r matches Some(c) && coach_command(c) ==> old(self).user_context.user.role
                == UserRole::Coach,
            r matches Some(c) && player_command(c) ==> old(self).user_context.user.role
                == UserRole::Player,
            final(self).should_quit == (old(self).should_quit || (main_mode(
                old(self).current_screen,
            ) && (key == KeyInput::Char('q') || key == KeyInput::Char('Q'))
                && old(self).current_screen == Screen::Home)),
            main_mode(old(self).current_screen) && key == KeyInput::Char('?') ==> final(self).current_screen == Screen::Help && r is None,
            main_mode(old(self).current_screen) && key == KeyInput::Esc ==> final(self).current_screen == Screen::Home && r is None,
            form_mode(old(self).current_screen) ==> App::form_key_spec(
                *old(self),
                *final(self),
                key,
                r,
            ),
            content_form_mode(old(self).current_screen) ==> App::content_form_key_spec(
                *old(self),
                *final(self),
                key,
                r,
            ),
            old(self).current_screen matches Screen::SessionDelete(id) ==> (
            if key == KeyInput::Char('y') || key == KeyInput::Char('Y') {
                r == Some(Command::DeleteSession(id)) && *final(self) == *old(self)
            } else if key == KeyInput::Char('n') || key == KeyInput::Char('N') || key
                == KeyInput::Esc {
                final(self).current_screen == Screen::SessionList && App::same_core(
                    *old(self),
                    *final(self),
                ) && final(self).message == old(self).message && r == Some(Command::LoadSessions)
            } else {
                *final(self) == *old(self) && r is None
            }),
            old(self).current_screen matches Screen::TrainingContentDelete(id) ==> (
            if key == KeyInput::Char('y') || key == KeyInput::Char('Y') {
                r == Some(Command::DeleteContent(id)) && *final(self) == *old(self)
            } else if key == KeyInput::Char('n') || key == KeyInput::Char('N') || key
                == KeyInput::Esc {
                final(self).current_screen == Screen::SessionList && App::same_core(
                    *old(self),
                    *final(self),
                ) && final(self).message == old(self).message && r == Some(Command::LoadSessions)
            } else {
                *final(self) == *old(self) && r is None
            }),
            main_mode(old(self).current_screen) && (key == KeyInput::Char('q') || key
                == KeyInput::Char('Q')) ==> (final(self).current_screen == Screen::Home && r
                is None && (old(self).current_screen != Screen::Home && old(self).current_screen
                != Screen::Help ==> final(self).selected_index == 0)),
            main_mode(old(self).current_screen) && key == KeyInput::Esc && old(self).current_screen != Screen::Help ==> final(self).selected_index == 0 && final(self).training_content@.len() == 0,
            main_mode(old(self).current_screen) && (key == KeyInput::Char('c') || key
                == KeyInput::Char('C')) && !spec_permitted(
                old(self).current_screen,
                old(self).user_context.user.role,
                UserAction::CreateSession,
            ) ==> App::only_message_cleared(*old(self), *final(self)) && r is None,
            main_mode(old(self).current_screen) && (key == KeyInput::Char('f') || key
                == KeyInput::Char('F')) && !spec_permitted(
                old(self).current_screen,
                old(self).user_context.user.role,
                UserAction::ToggleFilter,
            ) ==> App::only_message_cleared(*old(self), *final(self)) && r is None,
            main_mode(old(self).current_screen) && (key == KeyInput::Char('s') || key
                == KeyInput::Char('S')) && (!spec_permitted(
                old(self).current_screen,
                old(self).user_context.user.role,
                UserAction::Subscribe,
            ) || old(self).sessions@.len() == 0) ==> App::only_message_cleared(
                *old(self),
                *final(self),
            ) && r is None,
            main_mode(old(self).current_screen) && (key == KeyInput::Char('m') || key
                == KeyInput::Char('M')) && !spec_permitted(
                old(self).current_screen,
                old(self).user_context.user.role,
                UserAction::MarkComplete,
            ) ==> App::only_message_cleared(*old(self), *final(self)) && r is None,
            main_mode(old(self).current_screen) && (key == KeyInput::Char('t') || key
                == KeyInput::Char('T')) && !spec_permitted(
                old(self).current_screen,
                old(self).user_context.user.role,
                UserAction::ManageContent,
            ) ==> App::only_message_cleared(*old(self), *final(self)) && r is None,
            main_mode(old(self).current_screen) && (key == KeyInput::Char('e') || key
                == KeyInput::Char('E')) && !(spec_permitted(
                old(self).current_screen,
                old(self).user_context.user.role,
                UserAction::EditSession,
            ) && old(self).sessions@.len() > 0) ==> App::only_message_cleared(
                *old(self),
                *final(self),
            ) && r is None,
            main_mode(old(self).current_screen) && (key == KeyInput::Char('d') || key
                == KeyInput::Char('D')) && !(spec_permitted(
                old(self).current_screen,
                old(self).user_context.user.role,
                UserAction::DeleteSession,
            ) && old(self).sessions@.len() > 0) ==> App::only_message_cleared(
                *old(self),
                *final(self),
            ) && r is None,
            main_mode(old(self).current_screen) && key == KeyInput::Char('1') ==> final(self).current_screen == Screen::Home && final(self).selected_index == 0 && r is None,
            main_mode(old(self).current_screen) && key == KeyInput::Char('2') ==> final(self).current_screen == Screen::SessionList && r == Some(Command::LoadSessions),
            main_mode(old(self).current_screen) && (key == KeyInput::Char('c') || key
                == KeyInput::Char('C')) && spec_permitted(
                old(self).current_screen,
                old(self).user_context.user.role,
                UserAction::CreateSession,
            ) ==> final(self).current_screen == Screen::SessionCreate && final(self).session_form.title@ == Seq::<char>::empty() && final(self).session_form.focus_field
                == crate::ui::session_form::FormField::Title && r is None,
            main_mode(old(self).current_screen) && (key == KeyInput::Char('f') || key
                == KeyInput::Char('F')) && spec_permitted(
                old(self).current_screen,
                old(self).user_context.user.role,
                UserAction::ToggleFilter,
            ) ==> final(self).session_filter == old(self).session_filter.spec_toggle() && r
                == Some(Command::LoadSessions),
            main_mode(old(self).current_screen) && (key == KeyInput::Char('m') || key
                == KeyInput::Char('M')) && old(self).user_context.user.role == UserRole::Player
                ==> (old(self).current_screen matches Screen::SessionDetail(id) ==> r == Some(
                Command::MarkComplete(id),
            )),
            main_mode(old(self).current_screen) && (key == KeyInput::Char('t') || key
                == KeyInput::Char('T')) && old(self).user_context.user.role == UserRole::Coach
                ==> (old(self).current_screen matches Screen::SessionDetail(id) ==> final(self).current_screen == Screen::TrainingContentCreate(id) && final(self).training_content_form.title@ == Seq::<char>::empty() && r is None),
            main_mode(old(self).current_screen) && (key == KeyInput::Char('e') || key
                == KeyInput::Char('E')) && spec_permitted(
                old(self).current_screen,
                old(self).user_context.user.role,
                UserAction::EditSession,
            ) && old(self).sessions@.len() > 0 ==> ({
                let entry = old(self).sessions@[old(self).selected_index as int];
                &&& final(self).current_screen == Screen::SessionEdit(entry.session.id)
                &&& (final(self).session_edit_form matches Some(f) && f.title@
                    == entry.session.title@)
                &&& r is None
            }),
            main_mode(old(self).current_screen) && (key == KeyInput::Char('d') || key
                == KeyInput::Char('D')) && spec_permitted(
                old(self).current_screen,
                old(self).user_context.user.role,
                UserAction::DeleteSession,
            ) && old(self).sessions@.len() > 0 ==> ({
                let entry = old(self).sessions@[old(self).selected_index as int];
                final(self).current_screen == Screen::SessionDelete(entry.session.id) && r is None
            }),
            main_mode(old(self).current_screen) && (key == KeyInput::Up || key == KeyInput::Char(
                'k',
            )) ==> final(self).selected_index == (if old(self).selected_index > 0 {
                old(self).selected_index - 1
            } else {
                0int
            }) && r is None,
            main_mode(old(self).current_screen) && (key == KeyInput::Down || key == KeyInput::Char(
                'j',
            )) ==> final(self).selected_index == (if old(self).sessions@.len() > 0 && old(self).selected_index < old(self).sessions@.len() - 1 {
                old(self).selected_index + 1
            } else {
                old(self).selected_index as int
            }) && r is None,
            main_mode(old(self).current_screen) && key == KeyInput::Enter && old(self).current_screen == Screen::SessionList && old(self).sessions@.len() > 0 ==> ({
                let id = old(self).sessions@[old(self).selected_index as int].session.id;
                final(self).current_screen == Screen::SessionDetail(id) && r == Some(
                    Command::LoadContent(id),
                )
            }),
            main_mode(old(self).current_screen) && (key == KeyInput::Char('s') || key
                == KeyInput::Char('S')) && old(self).current_screen == Screen::SessionList && old(self).user_context.user.role == UserRole::Player && old(self).sessions@.len() > 0 ==> ({
                let entry = old(self).sessions@[old(self).selected_index as int];
                if entry.subscription is Some {
                    r == Some(Command::Unsubscribe(entry.session.id))
                } else {
                    r == Some(Command::Subscribe(entry.session.id))
                }
            }),
    {
        if matches!(self.current_screen, Screen::SessionCreate | Screen::SessionEdit(_)) {
            return self.handle_form_key_event(key);
        }
        if matches!(
            self.current_screen,
            Screen::TrainingContentCreate(_) | Screen::TrainingContentEdit(_)
        ) {
            return self.handle_training_content_form_key_event(key);
        }
        if matches!(
            self.current_screen,
            Screen::SessionDelete(_) | Screen::TrainingContentDelete(_)
        ) {
            match key {
                KeyInput::Char(c) if c == 'y' || c == 'Y' => {
                    if let Screen::SessionDelete(session_id) = self.current_screen {
                        return Some(Command::DeleteSession(session_id));
                    }
                    if let Screen::TrainingContentDelete(content_id) = self.current_screen {
                        return Some(Command::DeleteContent(content_id));
                    }
                    return None;
                },
                KeyInput::Char(c) if c == 'n' || c == 'N' => {
                    self.current_screen = Screen::SessionList;
                    return Some(Command::LoadSessions);
                },
                KeyInput::Esc => {
                    self.current_screen = Screen::SessionList;
                    return Some(Command::LoadSessions);
                },
                _ => {
                    return None;
                },
            }
        }
        self.message = None;
        match key {
            KeyInput::Char(c) => {
                if c == '?' {
                    self.current_screen = Screen::Help;
                    None
                } else if c == 'q' || c == 'Q' {
                    if self.current_screen == Screen::Help {
                        self.current_screen = Screen::Home;
                    } else if self.current_screen == Screen::Home {
                        self.should_quit = true;
                    } else {
                        self.current_screen = Screen::Home;
                        self.selected_index = 0;
                    }
                    None
                } else if c == '1' {
                    self.current_screen = Screen::Home;
                    self.selected_index = 0;
                    None
                } else if c == '2' {
                    self.current_screen = Screen::SessionList;
                    Some(Command::LoadSessions)
                } else if c == 'c' || c == 'C' {
                    if permitted(
                        &self.current_screen,
                        &self.user_context.user.role,
                        UserAction::CreateSession,
                    ) {
                        self.session_form = SessionForm::new();
                        self.current_screen = Screen::SessionCreate;
                    }
                    None
                } else if c == 'f' || c == 'F' {
                    if permitted(
                        &self.current_screen,
                        &self.user_context.user.role,
                        UserAction::ToggleFilter,
                    ) {
                        self.session_filter = self.session_filter.toggle();
                        Some(Command::LoadSessions)
                    } else {
                        None
                    }
                } else if c == 's' || c == 'S' {
                    if permitted(
                        &self.current_screen,
                        &self.user_context.user.role,
                        UserAction::Subscribe,
                    ) {
                        self.toggle_subscription()
                    } else {
                        None
                    }
                } else if c == 'm' || c == 'M' {
                    if permitted(
                        &self.current_screen,
                        &self.user_context.user.role,
                        UserAction::MarkComplete,
                    ) {
                        if let Screen::SessionDetail(session_id) = self.current_screen {
                            Some(Command::MarkComplete(session_id))
                        } else {
                            None
                        }
                    } else {
                        None
                    }
                } else if c == 't' || c == 'T' {
                    if permitted(
                        &self.current_screen,
                        &self.user_context.user.role,
                        UserAction::ManageContent,
                    ) {
                        if let Screen::SessionDetail(session_id) = self.current_screen {
                            self.training_content_form = TrainingContentForm::new();
                            self.current_screen = Screen::TrainingContentCreate(session_id);
                        }
                    }
                    None
                } else if c == 'k' {
                    if self.selected_index > 0 {
                        self.selected_index = self.selected_index - 1;
                    }
                    None
                } else if c == 'j' {
                    if self.sessions.len() > 0 && self.selected_index < self.sessions.len() - 1 {
                        self.selected_index = self.selected_index + 1;
                    }
                    None
                } else if c == 'e' || c == 'E' {
                    if permitted(
                        &self.current_screen,
                        &self.user_context.user.role,
                        UserAction::EditSession,
                    ) && self.sessions.len() > 0 {
                        let session_id = self.sessions[self.selected_index].session.id;
                        let form = SessionEditForm::from_session(
                            &self.sessions[self.selected_index].session,
                        );
                        self.session_edit_form = Some(form);
                        self.current_screen = Screen::SessionEdit(session_id);
                    }
                    None
                } else if c == 'd' || c == 'D' {
                    if permitted(
                        &self.current_screen,
                        &self.user_context.user.role,
                        UserAction::DeleteSession,
                    ) && self.sessions.len() > 0 {
                        let session_id = self.sessions[self.selected_index].session.id;
                        self.current_screen = Screen::SessionDelete(session_id);
                    }
                    None
                } else {
                    None
                }
            },
            KeyInput::Esc => {
                if self.current_screen == Screen::Help {
                    self.current_screen = Screen::Home;
                } else {
                    self.current_screen = Screen::Home;
                    self.selected_index = 0;
                    self.training_content.clear();
                }
                None
            },
            KeyInput::Up => {
                if self.selected_index > 0 {
                    self.selected_index = self.selected_index - 1;
                }
                None
            },
            KeyInput::Down => {
                if self.sessions.len() > 0 && self.selected_index < self.sessions.len() - 1 {
                    self.selected_index = self.selected_index + 1;
                }
                None
            },
            KeyInput::Enter => {
                if self.current_screen == Screen::SessionList && self.sessions.len() > 0 {
                    let session_id = self.sessions[self.selected_index].session.id;
                    self.current_screen = Screen::SessionDetail(session_id);
                    Some(Command::LoadContent(session_id))
                } else {
                    None
                }
            },
            _ => None,
        }
    }

    /// The subscribe/unsubscribe toggle, keyed off the currently displayed
    /// view: with no subscription shown, subscribe; with one, delete it.
    fn toggle_subscription(&mut self) -> (r: Option<Command>)
        requires
            old(self).wf(),
            old(self).user_context.user.role == UserRole::Player,
        ensures
            *final(self) == *old(self),
            if old(self).sessions@.len() == 0 {
                r is None
            } else {
                ({
                    let entry = old(self).sessions@[old(self).selected_index as int];
                    if entry.subscription is Some {
                        r == Some(Command::Unsubscribe(entry.session.id))
                    } else {
                        r == Some(Command::Subscribe(entry.session.id))
                    }
                })
            },
    {
        if self.sessions.len() == 0 {
            return None;
        }
        let entry = &self.sessions[self.selected_index];
        let session_id = entry.session.id;
        if entry.is_subscribed() {
            Some(Command::Unsubscribe(session_id))
        } else {
            Some(Command::Subscribe(session_id))
        }
    }

    /// Keystrokes on the session create and edit screens: field
    /// navigation, editing, enum cycling, submit and cancel.
    pub fn handle_form_key_event(&mut self, key: KeyInput) -> (r: Option<Command>)
        requires
            old(self).wf(),
        ensures
            final(self).wf(),
            App::form_key_spec(*old(self), *final(self), key, r),
    {
        let is_create = matches!(self.current_screen, Screen::SessionCreate);
        let is_edit = matches!(self.current_screen, Screen::SessionEdit(_));
        match key {
            KeyInput::Tab => {
                if is_create {
                    self.session_form.next_field();
                } else if is_edit {
                    if let Some(form) = &mut self.session_edit_form {
                        form.next_field();
                    }
                }
                None
            },
            KeyInput::BackTab => {
                if is_create {
                    self.session_form.prev_field();
                } else if is_edit {
                    if let Some(form) = &mut self.session_edit_form {
                        form.prev_field();
                    }
                }
                None
            },
            KeyInput::Char(c) => {
                if is_create {
                    self.session_form.add_char(c);
                } else if is_edit {
                    if let Some(form) = &mut self.session_edit_form {
                        form.add_char(c);
                    }
                }
                None
            },
            KeyInput::Backspace => {
                if is_create {
                    self.session_form.backspace();
                } else if is_edit {
                    if let Some(form) = &mut self.session_edit_form {
                        form.backspace();
                    }
                }
                None
            },
            KeyInput::Left => {
                if is_create {
                    if self.session_form.focus_field
                        == crate::ui::session_form::FormField::SkillLevel {
                        self.session_form.focus_field =
                            crate::ui::session_form::FormField::DurationMinutes;
                    }
                } else if is_edit {
                    if let Some(form) = &mut self.session_edit_form {
                        if form.focus_field == crate::ui::session_edit_form::FormField::SkillLevel {
                            form.focus_field =
                                crate::ui::session_edit_form::FormField::DurationMinutes;
                        }
                    }
                }
                None
            },
            KeyInput::Right => {
                if is_create {
                    if self.session_form.focus_field
                        == crate::ui::session_form::FormField::SkillLevel {
                        self.session_form.cycle_skill_level_forward();
                    }
                } else if is_edit {
                    if let Some(form) = &mut self.session_edit_form {
                        if form.focus_field == crate::ui::session_edit_form::FormField::SkillLevel {
                            form.cycle_skill_level_forward();
                        }
                    }
                }
                None
            },
            KeyInput::Up => {
                if is_create {
                    self.session_form.prev_field();
                } else if is_edit {
                    if let Some(form) = &mut self.session_edit_form {
                        form.prev_field();
                    }
                }
                None
            },
            KeyInput::Down => {
                if is_create {
                    self.session_form.next_field();
                } else if is_edit {
                    if let Some(form) = &mut self.session_edit_form {
                        form.next_field();
                    }
                }
                None
            },
            KeyInput::Enter => {
                if is_create {
                    match self.session_form.validate() {
                        Ok(_) => {
                            let (title, description, date, time, duration, skill) =
                                self.session_form.as_db_values();
                            let record = make_session_record(
                                title,
                                description,
                                date,
                                time,
                                duration,
                                skill.as_str(),
                            );
                            Some(Command::SaveSession(record))
                        },
                        Err(e) => {
                            let mut msg = "Error: ".to_owned();
                            msg.append(e.as_str());
                            self.message = Some(msg);
                            None
                        },
                    }
                } else if is_edit {
                    let outcome: Option<Command> = match &self.session_edit_form {
                        Some(form) => {
                            match form.validate() {
                                Ok(_) => {
                                    if let Screen::SessionEdit(session_id) = self.current_screen {
                                        let (title, description, date, time, duration, skill) =
                                            form.as_db_values();
                                        let record = make_session_record(
                                            title,
                                            description,
                                            date,
                                            time,
                                            duration,
                                            skill.as_str(),
                                        );
                                        Some(Command::UpdateSession(session_id, record))
                                    } else {
                                        None
                                    }
                                },
                                Err(e) => {
                                    let mut msg = "Error: ".to_owned();
                                    msg.append(e.as_str());
                                    self.message = Some(msg);
                                    None
                                },
                            }
                        },
                        None => None,
                    };
                    outcome
                } else {
                    None
                }
            },
            KeyInput::Esc => {
                self.current_screen = Screen::SessionList;
                Some(Command::LoadSessions)
            },
        }
    }

    /// Keystrokes on the training content create and edit screens. On
    /// submit of a new row, the order index appended is the current content
    /// count plus one.
    pub fn handle_training_content_form_key_event(&mut self, key: KeyInput) -> (r: Option<Command>)
        requires
            old(self).wf(),
        ensures
            final(self).wf(),
            App::content_form_key_spec(*old(self), *final(self), key, r),
    {
        match key {
            KeyInput::Tab => {
                self.training_content_form.next_field();
                None
            },
            KeyInput::BackTab => {
                self.training_content_form.prev_field();
                None
            },
            KeyInput::Char(c) => {
                self.training_content_form.add_char(c);
                None
            },
            KeyInput::Backspace => {
                self.training_content_form.backspace();
                None
            },
            KeyInput::Left | KeyInput::Up => {
                if self.training_content_form.focus_field
                    == crate::ui::training_content_form::FormField::ContentType {
                    self.training_content_form.focus_field =
                        crate::ui::training_content_form::FormField::DurationMinutes;
                } else {
                    self.training_content_form.prev_field();
                }
                None
            },
            KeyInput::Right | KeyInput::Down => {
                if self.training_content_form.focus_field
                    == crate::ui::training_content_form::FormField::ContentType {
                    self.training_content_form.cycle_content_type_forward();
                } else {
                    self.training_content_form.next_field();
                }
                None
            },
            KeyInput::Enter => {
                match self.training_content_form.validate() {
                    Ok(_) => {
                        if let Screen::TrainingContentCreate(session_id) = self.current_screen {
                            let record = self.content_record_from_form(
                                (self.training_content.len() as i32) + 1,
                            );
                            Some(Command::SaveContent(session_id, record))
                        } else if let Screen::TrainingContentEdit(content_id) =
                            self.current_screen {
                            match find_content(&self.training_content, content_id) {
                                Some(k) => {
                                    proof {
                                        lemma_find_content_properties(
                                            self.training_content@,
                                            content_id,
                                        );
                                    }
                                    let session_id = self.training_content[k].session_id;
                                    let order_index = self.training_content[k].order_index;
                                    let record = self.content_record_from_form(order_index);
                                    Some(Command::UpdateContent(content_id, session_id, record))
                                },
                                None => None,
                            }
                        } else {
                            None
                        }
                    },
                    Err(e) => {
                        let mut msg = "Validation error: ".to_owned();
                        msg.append(e.as_str());
                        self.message = Some(msg);
                        None
                    },
                }
            },
            KeyInput::Esc => {
                self.current_screen = Screen::SessionList;
                Some(Command::LoadSessions)
            },
        }
    }

    /// The content form's values as a record: an empty description becomes
    /// `None`, and the caller supplies the order index.
    fn content_record_from_form(&self, order_index: i32) -> (r: ContentRecord)
        ensures
            r.title@ == self.training_content_form.title@,
            (match r.description {
                Some(d) => self.training_content_form.description@.len() > 0 && d@
                    == self.training_content_form.description@,
                None => self.training_content_form.description@.len() == 0,
            }),
            r.duration_minutes == (if self.training_content_form.duration_minutes@.len() == 0 {
                None::<i32>
            } else {
                crate::strutil::spec_parse_i32(self.training_content_form.duration_minutes@)
            }),
            r.content_type == self.training_content_form.content_type,
            r.order_index == order_index,
    {
        let (title, description, duration, _kind) = self.training_content_form.as_db_values();
        let description = if description.as_str().unicode_len() == 0 {
            None
        } else {
            Some(description)
        };
        ContentRecord {
            title,
            description,
            duration_minutes: duration,
            content_type: self.training_content_form.content_type,
            order_index,
        }
    }

    /// A fresh listing arrived: the selection resets to the top.
    pub fn sessions_loaded(&mut self, views: Vec<SessionWithSubscription>)
        requires
            old(self).wf(),
        ensures
            final(self).wf(),
            final(self).sessions == views,
            final(self).selected_index == 0,
            final(self).current_screen == old(self).current_screen,
            final(self).message == old(self).message,
            final(self).user_context == old(self).user_context,
            final(self).should_quit == old(self).should_quit,
            final(self).session_filter == old(self).session_filter,
            final(self).training_content == old(self).training_content,
            final(self).db_path == old(self).db_path,
            final(self).session_form == old(self).session_form,
            final(self).session_edit_form == old(self).session_edit_form,
            final(self).delete_confirmation == old(self).delete_confirmation,
            final(self).training_content_form == old(self).training_content_form,
            final(self).training_content_selected_index == old(self).training_content_selected_index,
    {
        self.sessions = views;
        self.selected_index = 0;
    }

    /// A session's content rows arrived.
    pub fn content_loaded(&mut self, items: Vec<TrainingContent>)
        requires
            old(self).wf(),
            items@.len() + 1 <= 0x7fff_ffff,
        ensures
            final(self).wf(),
            final(self).training_content == items,
            final(self).user_context == old(self).user_context,
            final(self).should_quit == old(self).should_quit,
            final(self).current_screen == old(self).current_screen,
            final(self).sessions == old(self).sessions,
            final(self).selected_index == old(self).selected_index,
            final(self).db_path == old(self).db_path,
            final(self).session_filter == old(self).session_filter,
            final(self).message == old(self).message,
            final(self).session_form == old(self).session_form,
            final(self).session_edit_form == old(self).session_edit_form,
            final(self).delete_confirmation == old(self).delete_confirmation,
            final(self).training_content_form == old(self).training_content_form,
            final(self).training_content_selected_index == old(self).training_content_selected_index,
    {
        self.training_content = items;
    }

    /// The outcome of creating a session: on success, a confirmation
    /// message and back to the list (which the shell reloads); on failure,
    /// the failure text, staying where we are.
    pub fn session_save_finished(&mut self, error: Option<String>) -> (reload: bool)
        requires
            old(self).wf(),
        ensures
            final(self).wf(),
            App::same_core(*old(self), *final(self)),
            (match error {
                None => {
                    &&& reload
                    &&& final(self).current_screen == Screen::SessionList
                    &&& final(self).message matches Some(m) && m@
                        == "Session created successfully!"@
                },
                Some(e) => {
                    &&& !reload
                    &&& final(self).current_screen == old(self).current_screen
                    &&& final(self).message == Some(e)
                },
            }),
    {
        match error {
            None => {
                self.message = Some("Session created successfully!".to_owned());
                self.current_screen = Screen::SessionList;
                true
            },
            Some(e) => {
                self.message = Some(e);
                false
            },
        }
    }

    /// The outcome of updating a session: as for creation, and the edit
    /// form is discarded on success.
    pub fn session_update_finished(&mut self, error: Option<String>) -> (reload: bool)
        requires
            old(self).wf(),
        ensures
            final(self).wf(),
            final(self).user_context == old(self).user_context,
            final(self).sessions == old(self).sessions,
            final(self).selected_index == old(self).selected_index,
            final(self).should_quit == old(self).should_quit,
            final(self).session_filter == old(self).session_filter,
            final(self).training_content == old(self).training_content,
            final(self).db_path == old(self).db_path,
            final(self).session_form == old(self).session_form,
            final(self).delete_confirmation == old(self).delete_confirmation,
            final(self).training_content_form == old(self).training_content_form,
            final(self).training_content_selected_index == old(self).training_content_selected_index,
            (match error {
                None => {
                    &&& reload
                    &&& final(self).current_screen == Screen::SessionList
                    &&& final(self).session_edit_form is None
                    &&& final(self).message matches Some(m) && m@
                        == "Session updated successfully!"@
                },
                Some(e) => {
                    &&& !reload
                    &&& final(self).current_screen == old(self).current_screen
                    &&& final(self).session_edit_form == old(self).session_edit_form
                    &&& final(self).message == Some(e)
                },
            }),
    {
        match error {
            None => {
                self.message = Some("Session updated successfully!".to_owned());
                self.current_screen = Screen::SessionList;
                self.session_edit_form = None;
                true
            },
            Some(e) => {
                self.message = Some(e);
                false
            },
        }
    }

    /// The outcome of deleting a session.
    pub fn session_delete_finished(&mut self, error: Option<String>) -> (reload: bool)
        requires
            old(self).wf(),
        ensures
            final(self).wf(),
            App::same_core(*old(self), *final(self)),
            (match error {
                None => {
                    &&& reload
                    &&& final(self).current_screen == Screen::SessionList
                    &&& final(self).message matches Some(m) && m@
                        == "Session deleted successfully!"@
                },
                Some(e) => {
                    &&& !reload
                    &&& final(self).current_screen == old(self).current_screen
                    &&& final(self).message == Some(e)
                },
            }),
    {
        match error {
            None => {
                self.message = Some("Session deleted successfully!".to_owned());
                self.current_screen = Screen::SessionList;
                true
            },
            Some(e) => {
                self.message = Some(e);
                false
            },
        }
    }

    /// The outcome of creating a content row: on success, back to the
    /// session's detail screen (whose content the shell reloads).
    pub fn content_save_finished(&mut self, session_id: i64, error: Option<String>) -> (reload:
        bool)
        requires
            old(self).wf(),
        ensures
            final(self).wf(),
            App::same_core(*old(self), *final(self)),
            (match error {
                None => {
                    &&& reload
                    &&& final(self).current_screen == Screen::SessionDetail(session_id)
                    &&& final(self).message matches Some(m) && m@
                        == "Training content created successfully!"@
                },
                Some(e) => {
                    &&& !reload
                    &&& final(self).current_screen == old(self).current_screen
                    &&& final(self).message == Some(e)
                },
            }),
    {
        match error {
            None => {
                self.message = Some("Training content created successfully!".to_owned());
                self.current_screen = Screen::SessionDetail(session_id);
                true
            },
            Some(e) => {
                self.message = Some(e);
                false
            },
        }
    }

    /// The outcome of updating a content row.
    pub fn content_update_finished(&mut self, session_id: i64, error: Option<String>) -> (reload:
        bool)
        requires
            old(self).wf(),
        ensures
            final(self).wf(),
            App::same_core(*old(self), *final(self)),
            (match error {
                None => {
                    &&& reload
                    &&& final(self).current_screen == Screen::SessionDetail(session_id)
                    &&& final(self).message matches Some(m) && m@
                        == "Training content updated successfully!"@
                },
                Some(e) => {
                    &&& !reload
                    &&& final(self).current_screen == old(self).current_screen
                    &&& final(self).message == Some(e)
                },
            }),
    {
        match error {
            None => {
                self.message = Some("Training content updated successfully!".to_owned());
                self.current_screen = Screen::SessionDetail(session_id);
                true
            },
            Some(e) => {
                self.message = Some(e);
                false
            },
        }
    }

    /// The outcome of deleting a content row: as on every confirmation
    /// screen, a confirmed delete returns to the session list, which the
    /// shell reloads.
    pub fn content_delete_finished(&mut self, error: Option<String>) -> (reload: bool)
        requires
            old(self).wf(),
        ensures
            final(self).wf(),
            App::same_core(*old(self), *final(self)),
            (match error {
                None => {
                    &&& reload
                    &&& final(self).current_screen == Screen::SessionList
                    &&& final(self).message matches Some(m) && m@
                        == "Training content deleted successfully!"@
                },
                Some(e) => {
                    &&& !reload
                    &&& final(self).current_screen == old(self).current_screen
                    &&& final(self).message == Some(e)
                },
            }),
    {
        match error {
            None => {
                self.message = Some("Training content deleted successfully!".to_owned());
                self.current_screen = Screen::SessionList;
                true
            },
            Some(e) => {
                self.message = Some(e);
                false
            },
        }
    }

    /// The outcome of subscribing.
    pub fn subscribe_finished(&mut self, error: Option<String>) -> (reload: bool)
        requires
            old(self).wf(),
        ensures
            final(self).wf(),
            App::same_core(*old(self), *final(self)),
            final(self).current_screen == old(self).current_screen,
            (match error {
                None => reload && (final(self).message matches Some(m) && m@
                    == "Subscribed successfully"@),
                Some(e) => !reload && final(self).message == Some(e),
            }),
    {
        match error {
            None => {
                self.message = Some("Subscribed successfully".to_owned());
                true
            },
            Some(e) => {
                self.message = Some(e);
                false
            },
        }
    }

    /// The outcome of unsubscribing.
    pub fn unsubscribe_finished(&mut self, error: Option<String>) -> (reload: bool)
        requires
            old(self).wf(),
        ensures
            final(self).wf(),
            App::same_core(*old(self), *final(self)),
            final(self).current_screen == old(self).current_screen,
            (match error {
                None => reload && (final(self).message matches Some(m) && m@
                    == "Unsubscribed successfully"@),
                Some(e) => !reload && final(self).message == Some(e),
            }),
    {
        match error {
            None => {
                self.message = Some("Unsubscribed successfully".to_owned());
                true
            },
            Some(e) => {
                self.message = Some(e);
                false
            },
        }
    }

    /// The completion rule's decision, keyed off the looked-up
    /// subscription: without one, or with one already completed, a status
    /// message and no action; otherwise the id of the row to complete.
    pub fn decide_mark_complete(&mut self, subscription: &Option<Subscription>) -> (r: Option<i64>)
        requires
            old(self).wf(),
        ensures
            final(self).wf(),
            App::same_core(*old(self), *final(self)),
            final(self).current_screen == old(self).current_screen,
            (match *subscription {
                None => r is None && (final(self).message matches Some(m) && m@
                    == "You must subscribe to this session first"@),
                Some(sub) => if sub.completed_at is Some {
                    r is None && (final(self).message matches Some(m) && m@
                        == "Session already marked as complete"@)
                } else {
                    r == Some(sub.id) && final(self).message == old(self).message
                },
            }),
    {
        match subscription {
            Some(sub) => {
                if sub.completed_at.is_some() {
                    self.message = Some("Session already marked as complete".to_owned());
                    None
                } else {
                    Some(sub.id)
                }
            },
            None => {
                self.message = Some("You must subscribe to this session first".to_owned());
                None
            },
        }
    }

    /// The outcome of the completion update itself.
    pub fn mark_complete_finished(&mut self, error: Option<String>) -> (reload: bool)
        requires
            old(self).wf(),
        ensures
            final(self).wf(),
            App::same_core(*old(self), *final(self)),
            final(self).current_screen == old(self).current_screen,
            (match error {
                None => reload && (final(self).message matches Some(m) && m@
                    == "Session marked as complete!"@),
                Some(e) => !reload && final(self).message == Some(e),
            }),
    {
        match error {
            None => {
                self.message = Some("Session marked as complete!".to_owned());
                true
            },
            Some(e) => {
                self.message = Some(e);
                false
            },
        }
    }
}

} // verus!
