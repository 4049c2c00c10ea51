use tui_coach::auth::UserContext;
use tui_coach::models::{User, UserRole};
use tui_coach::ui::help::HelpScreen;
use tui_coach::ui::navigation::Screen;

fn context(role: UserRole) -> UserContext {
    UserContext::new(User {
        id: 1,
        username: "u".to_string(),
        display_name: "U".to_string(),
        role,
        skill_level: None,
        goals: None,
        created_at: 0,
        updated_at: 0,
    })
}

#[test]
fn test_commands_differ_by_role_on_session_list() {
    let coach = context(UserRole::Coach);
    let player = context(UserRole::Player);
    let coach_cmds = HelpScreen::get_commands(&Screen::SessionList, &coach);
    let player_cmds = HelpScreen::get_commands(&Screen::SessionList, &player);
    assert_eq!(coach_cmds[0], ("[c]", "Create new session"));
    assert_eq!(player_cmds[0], ("[s]", "Subscribe/Unsubscribe"));
    assert!(coach_cmds.iter().all(|(k, _)| *k != "[s]"));
    assert!(player_cmds.iter().all(|(k, _)| *k != "[c]"));
}

#[test]
fn test_footer_help_for_forms() {
    let coach = context(UserRole::Coach);
    let footer = HelpScreen::get_footer_help(&Screen::SessionCreate, &coach);
    assert_eq!(
        footer,
        vec![("[Tab]", "Next"), ("[Enter]", "Save"), ("[Esc]", "Cancel")]
    );
}

#[test]
fn test_help_text_structure() {
    let text = HelpScreen::get_help_text();
    assert_eq!(text.len(), 71);
    assert_eq!(text[1], "TENNIS TUI COACH - KEYBOARD COMMANDS REFERENCE");
    assert!(text.iter().any(|l| l == "GLOBAL COMMANDS:"));
    assert!(text.iter().any(|l| l == "  Title              Required: 3-100 characters"));
}

#[test]
fn test_menu_items_by_role() {
    let coach = context(UserRole::Coach);
    let player = context(UserRole::Player);
    let coach_menu = Screen::get_menu_items(&coach);
    assert_eq!(coach_menu.len(), 2);
    assert_eq!(coach_menu[1].0, "Manage Session");
    let player_menu = Screen::get_menu_items(&player);
    assert_eq!(player_menu[1].0, "My Session");
}
