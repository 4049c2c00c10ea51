//! Help screen and keyboard command reference: pure tables keyed by the
//! current screen and the user's role.
use vstd::prelude::*;

use crate::auth::UserContext;
use crate::models::UserRole;
use crate::ui::navigation::Screen;

verus! {

pub struct HelpScreen;

/// The key/description texts of a command list.
pub open spec fn pairs_view(v: Seq<(&'static str, &'static str)>) -> Seq<(Seq<char>, Seq<char>)> {
    v.map_values(|p: (&'static str, &'static str)| (p.0@, p.1@))
}

/// The full command list for a screen, by role.
pub open spec fn spec_commands(screen: Screen, coach: bool) -> Seq<(Seq<char>, Seq<char>)> {
    match screen {
        Screen::Home => seq![
            ("[1]"@, "Go to Home"@),
            ("[2]"@, "Go to Session Management"@),
            ("[q]"@, "Quit"@),
            ("[?]"@, "Show this help"@),
        ],
        Screen::SessionList => if coach {
            seq![
                ("[c]"@, "Create new session"@),
                ("[e]"@, "Edit selected session"@),
                ("[d]"@, "Delete selected session"@),
                ("[↑↓]"@, "Navigate sessions"@),
                ("[Enter]"@, "View session details"@),
                ("[1]"@, "Go to Home"@),
                ("[q]"@, "Go to Home"@),
                ("[?]"@, "Show this help"@),
            ]
        } else {
            seq![
                ("[s]"@, "Subscribe/Unsubscribe"@),
                ("[f]"@, "Toggle filter (My/All)"@),
                ("[↑↓]"@, "Navigate sessions"@),
                ("[Enter]"@, "View session details"@),
                ("[1]"@, "Go to Home"@),
                ("[q]"@, "Go to Home"@),
                ("[?]"@, "Show this help"@),
            ]
        },
        Screen::SessionDetail(_) => if coach {
            seq![
                ("[e]"@, "Edit this session"@),
                ("[d]"@, "Delete this session"@),
                ("[t]"@, "Manage training content"@),
                ("[1]"@, "Go to Home"@),
                ("[2]"@, "Back to Session List"@),
                ("[q]"@, "Go to Home"@),
                ("[?]"@, "Show this help"@),
            ]
        } else {
            seq![
                ("[s]"@, "Subscribe/Unsubscribe"@),
                ("[m]"@, "Mark as completed"@),
                ("[1]"@, "Go to Home"@),
                ("[2]"@, "Back to Session List"@),
                ("[q]"@, "Go to Home"@),
                ("[?]"@, "Show this help"@),
            ]
        },
        Screen::SessionCreate => spec_form_commands(),
        Screen::SessionEdit(_) => spec_form_commands(),
        Screen::SessionDelete(_) => spec_delete_commands(),
        Screen::TrainingContentCreate(_) => spec_content_form_commands(),
        Screen::TrainingContentEdit(_) => spec_content_form_commands(),
        Screen::TrainingContentDelete(_) => spec_delete_commands(),
        Screen::Help => seq![
            ("[q]"@, "Close help"@),
            ("[Esc]"@, "Close help"@),
            ("[↑↓]"@, "Scroll help text"@),
            ("[Space]"@, "Page down"@),
            ("[b]"@, "Page up"@),
        ],
    }
}

pub open spec fn spec_form_commands() -> Seq<(Seq<char>, Seq<char>)> {
    seq![
        ("[Tab]"@, "Next field"@),
        ("[Shift+Tab]"@, "Previous field"@),
        ("[Enter]"@, "Save changes"@),
        ("[Esc]"@, "Cancel"@),
        ("[?]"@, "Show this help"@),
    ]
}

pub open spec fn spec_content_form_commands() -> Seq<(Seq<char>, Seq<char>)> {
    seq![
        ("[Tab]"@, "Next field"@),
        ("[Shift+Tab]"@, "Previous field"@),
        ("[← →]"@, "Cycle content type"@),
        ("[Enter]"@, "Save content"@),
        ("[Esc]"@, "Cancel"@),
        ("[?]"@, "Show this help"@),
    ]
}

pub open spec fn spec_delete_commands() -> Seq<(Seq<char>, Seq<char>)> {
    seq![
        ("[y]"@, "Confirm deletion"@),
        ("[n]"@, "Cancel deletion"@),
        ("[Esc]"@, "Cancel deletion"@),
        ("[?]"@, "Show this help"@),
    ]
}

/// The brief footer list for a screen, by role.
pub open spec fn spec_footer(screen: Screen, coach: bool) -> Seq<(Seq<char>, Seq<char>)> {
    match screen {
        Screen::Home => seq![
            ("[2]"@, "Manage Sessions"@),
            ("[?]"@, "Help"@),
            ("[q]"@, "Quit"@),
        ],
        Screen::SessionList => if coach {
            seq![
                ("[c]"@, "Create"@),
                ("[e]"@, "Edit"@),
                ("[d]"@, "Delete"@),
                ("[?]"@, "Help"@),
            ]
        } else {
            seq![
                ("[s]"@, "Subscribe"@),
                ("[f]"@, "Filter"@),
                ("[Enter]"@, "View"@),
                ("[?]"@, "Help"@),
            ]
        },
        Screen::SessionDetail(_) => if coach {
            seq![("[t]"@, "Training"@), ("[e]"@, "Edit"@), ("[2]"@, "Back"@)]
        } else {
            seq![("[m]"@, "Complete"@), ("[s]"@, "Subscribe"@), ("[2]"@, "Back"@)]
        },
        Screen::SessionCreate => seq![
            ("[Tab]"@, "Next"@),
            ("[Enter]"@, "Save"@),
            ("[Esc]"@, "Cancel"@),
        ],
        Screen::SessionEdit(_) => seq![
            ("[Tab]"@, "Next"@),
            ("[Enter]"@, "Save"@),
            ("[Esc]"@, "Cancel"@),
        ],
        Screen::SessionDelete(_) => seq![("[y]"@, "Delete"@), ("[n]"@, "Cancel"@)],
        Screen::TrainingContentCreate(_) => seq![
            ("[Tab]"@, "Next"@),
            ("[← →]"@, "Content type"@),
            ("[Enter]"@, "Save"@),
            ("[Esc]"@, "Cancel"@),
        ],
        Screen::TrainingContentEdit(_) => seq![
            ("[Tab]"@, "Next"@),
            ("[← →]"@, "Content type"@),
            ("[Enter]"@, "Save"@),
            ("[Esc]"@, "Cancel"@),
        ],
        Screen::TrainingContentDelete(_) => seq![("[y]"@, "Delete"@), ("[n]"@, "Cancel"@)],
        Screen::Help => seq![("[q]"@, "Close"@), ("[↑↓]"@, "Scroll"@)],
    }
}

impl HelpScreen {
    /// All commands available on `screen` for the user's role.
    pub fn get_commands(screen: &Screen, user_context: &UserContext) -> (r: Vec<
        (&'static str, &'static str),
    >)
        ensures
            pairs_view(r@) == spec_commands(*screen, user_context.user.role == UserRole::Coach),
    {
        let coach = user_context.is_coach();
        let mut r: Vec<(&'static str, &'static str)> = Vec::new();
        match screen {
            Screen::Home => {
                r.push(("[1]", "Go to Home"));
                r.push(("[2]", "Go to Session Management"));
                r.push(("[q]", "Quit"));
                r.push(("[?]", "Show this help"));
            },
            Screen::SessionList => {
                if coach {
                    r.push(("[c]", "Create new session"));
                    r.push(("[e]", "Edit selected session"));
                    r.push(("[d]", "Delete selected session"));
                    r.push(("[↑↓]", "Navigate sessions"));
                    r.push(("[Enter]", "View session details"));
                    r.push(("[1]", "Go to Home"));
                    r.push(("[q]", "Go to Home"));
                    r.push(("[?]", "Show this help"));
                } else {
                    r.push(("[s]", "Subscribe/Unsubscribe"));
                    r.push(("[f]", "Toggle filter (My/All)"));
                    r.push(("[↑↓]", "Navigate sessions"));
                    r.push(("[Enter]", "View session details"));
                    r.push(("[1]", "Go to Home"));
                    r.push(("[q]", "Go to Home"));
                    r.push(("[?]", "Show this help"));
                }
            },
            Screen::SessionDetail(_) => {
                if coach {
                    r.push(("[e]", "Edit this session"));
                    r.push(("[d]", "Delete this session"));
                    r.push(("[t]", "Manage training content"));
                    r.push(("[1]", "Go to Home"));
                    r.push(("[2]", "Back to Session List"));
                    r.push(("[q]", "Go to Home"));
                    r.push(("[?]", "Show this help"));
                } else {
                    r.push(("[s]", "Subscribe/Unsubscribe"));
                    r.push(("[m]", "Mark as completed"));
                    r.push(("[1]", "Go to Home"));
                    r.push(("[2]", "Back to Session List"));
                    r.push(("[q]", "Go to Home"));
                    r.push(("[?]", "Show this help"));
                }
            },
            Screen::SessionCreate | Screen::SessionEdit(_) => {
                r.push(("[Tab]", "Next field"));
                r.push(("[Shift+Tab]", "Previous field"));
                r.push(("[Enter]", "Save changes"));
                r.push(("[Esc]", "Cancel"));
                r.push(("[?]", "Show this help"));
            },
            Screen::SessionDelete(_) | Screen::TrainingContentDelete(_) => {
                r.push(("[y]", "Confirm deletion"));
                r.push(("[n]", "Cancel deletion"));
                r.push(("[Esc]", "Cancel deletion"));
                r.push(("[?]", "Show this help"));
            },
            Screen::TrainingContentCreate(_) | Screen::TrainingContentEdit(_) => {
                r.push(("[Tab]", "Next field"));
                r.push(("[Shift+Tab]", "Previous field"));
                r.push(("[← →]", "Cycle content type"));
                r.push(("[Enter]", "Save content"));
                r.push(("[Esc]", "Cancel"));
                r.push(("[?]", "Show this help"));
            },
            Screen::Help => {
                r.push(("[q]", "Close help"));
                r.push(("[Esc]", "Close help"));
                r.push(("[↑↓]", "Scroll help text"));
                r.push(("[Space]", "Page down"));
                r.push(("[b]", "Page up"));
            },
        }
        proof {
            assert(pairs_view(r@) =~= spec_commands(
                *screen,
                user_context.user.role == UserRole::Coach,
            ));
        }
        r
    }

    /// The brief footer help for `screen`: the few most important commands.
    pub fn get_footer_help(screen: &Screen, user_context: &UserContext) -> (r: Vec<
        (&'static str, &'static str),
    >)
        ensures
            pairs_view(r@) == spec_footer(*screen, user_context.user.role == UserRole::Coach),
    {
        let coach = user_context.is_coach();
        let mut r: Vec<(&'static str, &'static str)> = Vec::new();
        match screen {
            Screen::Home => {
                r.push(("[2]", "Manage Sessions"));
                r.push(("[?]", "Help"));
                r.push(("[q]", "Quit"));
            },
            Screen::SessionList => {
                if coach {
                    r.push(("[c]", "Create"));
                    r.push(("[e]", "Edit"));
                    r.push(("[d]", "Delete"));
                    r.push(("[?]", "Help"));
                } else {
                    r.push(("[s]", "Subscribe"));
                    r.push(("[f]", "Filter"));
                    r.push(("[Enter]", "View"));
                    r.push(("[?]", "Help"));
                }
            },
            Screen::SessionDetail(_) => {
                if coach {
                    r.push(("[t]", "Training"));
                    r.push(("[e]", "Edit"));
                    r.push(("[2]", "Back"));
                } else {
                    r.push(("[m]", "Complete"));
                    r.push(("[s]", "Subscribe"));
                    r.push(("[2]", "Back"));
                }
            },
            Screen::SessionCreate | Screen::SessionEdit(_) => {
                r.push(("[Tab]", "Next"));
                r.push(("[Enter]", "Save"));
                r.push(("[Esc]", "Cancel"));
            },
            Screen::SessionDelete(_) | Screen::TrainingContentDelete(_) => {
                r.push(("[y]", "Delete"));
                r.push(("[n]", "Cancel"));
            },
            Screen::TrainingContentCreate(_) | Screen::TrainingContentEdit(_) => {
                r.push(("[Tab]", "Next"));
                r.push(("[← →]", "Content type"));
                r.push(("[Enter]", "Save"));
                r.push(("[Esc]", "Cancel"));
            },
            Screen::Help => {
                r.push(("[q]", "Close"));
                r.push(("[↑↓]", "Scroll"));
            },
        }
        proof {
            assert(pairs_view(r@) =~= spec_footer(
                *screen,
                user_context.user.role == UserRole::Coach,
            ));
        }
        r
    }

    /// The full help text, line by line.
    pub fn get_help_text() -> (r: Vec<String>)
        ensures
            r.deep_view() == spec_help_text(),
    {
        let mut r: Vec<String> = Vec::new();
        r.push(
            "═══════════════════════════════════════════════════════════════════".to_owned(),
        );
        r.push("TENNIS TUI COACH - KEYBOARD COMMANDS REFERENCE".to_owned());
        r.push(
            "═══════════════════════════════════════════════════════════════════".to_owned(),
        );
        r.push("".to_owned());
        r.push("GLOBAL COMMANDS:".to_owned());
        r.push("  [?]        Show this help screen".to_owned());
        r.push("  [q]        Return to home screen (or quit if on home)".to_owned());
        r.push("  [1]        Jump to home screen".to_owned());
        r.push("  [Esc]      Go back to previous screen".to_owned());
        r.push("".to_owned());
        r.push("NAVIGATION COMMANDS:".to_owned());
        r.push("  [2]        Go to Session Management".to_owned());
        r.push("  [↑] [k]    Navigate up / Previous item (vi-style)".to_owned());
        r.push("  [↓] [j]    Navigate down / Next item (vi-style)".to_owned());
        r.push("  [Enter]    Select/View item or confirm action".to_owned());
        r.push("".to_owned());
        r.push("SESSION LIST COMMANDS (Coach):".to_owned());
        r.push("  [c]        Create new session".to_owned());
        r.push("  [e]        Edit selected session".to_owned());
        r.push("  [d]        Delete selected session".to_owned());
        r.push("".to_owned());
        r.push("SESSION LIST COMMANDS (Player):".to_owned());
        r.push("  [s]        Subscribe/Unsubscribe to session".to_owned());
        r.push("  [f]        Toggle filter: My Sessions vs All Available".to_owned());
        r.push("".to_owned());
        r.push("SESSION DETAIL COMMANDS (Player):".to_owned());
        r.push("  [m]        Mark session as completed".to_owned());
        r.push("".to_owned());
        r.push("SESSION DETAIL DISPLAY:".to_owned());
        r.push("  View all session information including:".to_owned());
        r.push("  - Session title, description, date, time, duration".to_owned());
        r.push("  - Skill level and subscription status".to_owned());
        r.push("  - Training content (drills, exercises, warmups, cooldowns)".to_owned());
        r.push("  - Estimated duration from training activities".to_owned());
        r.push("".to_owned());
        r.push("FORM EDITING COMMANDS:".to_owned());
        r.push("  [Tab]      Move to next field".to_owned());
        r.push("  [Shift+Tab] Move to previous field".to_owned());
        r.push("  [↑] [↓]    Move up/down between fields".to_owned());
        r.push("  [← →]      Cycle skill level (when on skill level field)".to_owned());
        r.push("  [Enter]    Save form".to_owned());
        r.push("  [Esc]      Cancel without saving".to_owned());
        r.push("".to_owned());
        r.push("DELETION COMMANDS:".to_owned());
        r.push("  [y]        Confirm deletion".to_owned());
        r.push("  [n]        Cancel deletion".to_owned());
        r.push("  [Esc]      Cancel deletion".to_owned());
        r.push("".to_owned());
        r.push("TEXT EDITOR (Vim-style):".to_owned());
        r.push("  [i]        Enter insert mode (when in normal mode)".to_owned());
        r.push("  [Esc]      Enter normal mode (when in insert mode)".to_owned());
        r.push("  [h] [←]    Move cursor left".to_owned());
        r.push("  [l] [→]    Move cursor right".to_owned());
        r.push("  [0]        Move to start of line".to_owned());
        r.push("  [$]        Move to end of line".to_owned());
        r.push("  [x]        Delete character at cursor (normal mode)".to_owned());
        r.push("  [d$]       Delete from cursor to end (normal mode)".to_owned());
        r.push("  Insert text - Type normally in insert mode".to_owned());
        r.push("  Backspace - Delete character before cursor (insert mode)".to_owned());
        r.push("".to_owned());
        r.push("FIELD TYPES:".to_owned());
        r.push("  Title              Required: 3-100 characters".to_owned());
        r.push("  Description        Optional: max 500 characters".to_owned());
        r.push("  Date               Format: YYYY-MM-DD (optional)".to_owned());
        r.push("  Time               Format: HH:MM (optional)".to_owned());
        r.push("  Duration           Range: 5-480 minutes (optional)".to_owned());
        r.push("  Skill Level        Choose: Beginner, Intermediate, or Advanced".to_owned());
        r.push("".to_owned());
        r.push(
            "═══════════════════════════════════════════════════════════════════".to_owned(),
        );
        r.push("Press [q] or [Esc] to close help and return to application".to_owned());
        r.push(
            "═══════════════════════════════════════════════════════════════════".to_owned(),
        );
        proof {
            assert(r.deep_view() =~= spec_help_text());
        }
        r
    }
}

/// The full help text as line views.
pub open spec fn spec_help_text() -> Seq<Seq<char>> {
    seq![
        "═══════════════════════════════════════════════════════════════════"@,
        "TENNIS TUI COACH - KEYBOARD COMMANDS REFERENCE"@,
        "═══════════════════════════════════════════════════════════════════"@,
        ""@,
        "GLOBAL COMMANDS:"@,
        "  [?]        Show this help screen"@,
        "  [q]        Return to home screen (or quit if on home)"@,
        "  [1]        Jump to home screen"@,
        "  [Esc]      Go back to previous screen"@,
        ""@,
        "NAVIGATION COMMANDS:"@,
        "  [2]        Go to Session Management"@,
        "  [↑] [k]    Navigate up / Previous item (vi-style)"@,
        "  [↓] [j]    Navigate down / Next item (vi-style)"@,
        "  [Enter]    Select/View item or confirm action"@,
        ""@,
        "SESSION LIST COMMANDS (Coach):"@,
        "  [c]        Create new session"@,
        "  [e]        Edit selected session"@,
        "  [d]        Delete selected session"@,
        ""@,
        "SESSION LIST COMMANDS (Player):"@,
        "  [s]        Subscribe/Unsubscribe to session"@,
        "  [f]        Toggle filter: My Sessions vs All Available"@,
        ""@,
        "SESSION DETAIL COMMANDS (Player):"@,
        "  [m]        Mark session as completed"@,
        ""@,
        "SESSION DETAIL DISPLAY:"@,
        "  View all session information including:"@,
        "  - Session title, description, date, time, duration"@,
        "  - Skill level and subscription status"@,
        "  - Training content (drills, exercises, warmups, cooldowns)"@,
        "  - Estimated duration from training activities"@,
        ""@,
        "FORM EDITING COMMANDS:"@,
        "  [Tab]      Move to next field"@,
        "  [Shift+Tab] Move to previous field"@,
        "  [↑] [↓]    Move up/down between fields"@,
        "  [← →]      Cycle skill level (when on skill level field)"@,
        "  [Enter]    Save form"@,
        "  [Esc]      Cancel without saving"@,
        ""@,
        "DELETION COMMANDS:"@,
        "  [y]        Confirm deletion"@,
        "  [n]        Cancel deletion"@,
        "  [Esc]      Cancel deletion"@,
        ""@,
        "TEXT EDITOR (Vim-style):"@,
        "  [i]        Enter insert mode (when in normal mode)"@,
        "  [Esc]      Enter normal mode (when in insert mode)"@,
        "  [h] [←]    Move cursor left"@,
        "  [l] [→]    Move cursor right"@,
        "  [0]        Move to start of line"@,
        "  [$]        Move to end of line"@,
        "  [x]        Delete character at cursor (normal mode)"@,
        "  [d$]       Delete from cursor to end (normal mode)"@,
        "  Insert text - Type normally in insert mode"@,
        "  Backspace - Delete character before cursor (insert mode)"@,
        ""@,
        "FIELD TYPES:"@,
        "  Title              Required: 3-100 characters"@,
        "  Description        Optional: max 500 characters"@,
        "  Date               Format: YYYY-MM-DD (optional)"@,
        "  Time               Format: HH:MM (optional)"@,
        "  Duration           Range: 5-480 minutes (optional)"@,
        "  Skill Level        Choose: Beginner, Intermediate, or Advanced"@,
        ""@,
        "═══════════════════════════════════════════════════════════════════"@,
        "Press [q] or [Esc] to close help and return to application"@,
        "═══════════════════════════════════════════════════════════════════"@,
    ]
}

} // verus!
