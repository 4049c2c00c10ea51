use tui_coach::models::ContentType;
use tui_coach::ui::training_content_form::{FormField, TrainingContentForm};

#[test]
fn test_form_creation() {
    let form = TrainingContentForm::new();
    assert_eq!(form.title, "");
    assert_eq!(form.description, "");
    assert_eq!(form.duration_minutes, "");
    assert_eq!(form.content_type, ContentType::Drill);
}

#[test]
fn test_add_char() {
    let mut form = TrainingContentForm::new();
    form.add_char('F');
    form.add_char('o');
    form.add_char('r');
    assert_eq!(form.title, "For");
}

#[test]
fn training_content_form_test_field_navigation() {
    let mut form = TrainingContentForm::new();
    assert_eq!(form.focus_field, FormField::Title);
    form.next_field();
    assert_eq!(form.focus_field, FormField::Description);
    form.next_field();
    assert_eq!(form.focus_field, FormField::DurationMinutes);
    form.prev_field();
    assert_eq!(form.focus_field, FormField::Description);
}

#[test]
fn test_validate_title_required() {
    let form = TrainingContentForm::new();
    let result = form.validate();
    assert!(result.is_err());
    assert!(result.unwrap_err().to_lowercase().contains("required"));
}

#[test]
fn test_validate_duration_range() {
    let mut form = TrainingContentForm::new();
    form.title = "Test".to_string();
    form.duration_minutes = "500".to_string();
    let result = form.validate();
    assert!(result.is_err());
}

#[test]
fn test_cycle_content_type() {
    let mut form = TrainingContentForm::new();
    assert_eq!(form.content_type, ContentType::Drill);
    form.cycle_content_type_forward();
    assert_eq!(form.content_type, ContentType::Exercise);
    form.cycle_content_type_forward();
    assert_eq!(form.content_type, ContentType::Warmup);
}

#[test]
fn training_content_form_test_as_db_values() {
    let mut form = TrainingContentForm::new();
    form.title = "Forehand Drill".to_string();
    form.description = "Practice forehand".to_string();
    form.duration_minutes = "30".to_string();

    let (title, desc, duration, content_type) = form.as_db_values();
    assert_eq!(title, "Forehand Drill");
    assert_eq!(desc, "Practice forehand");
    assert_eq!(duration, Some(30));
    assert_eq!(content_type, "drill");
}

#[test]
fn test_content_form_backspace_cycles_kind() {
    let mut form = TrainingContentForm::new();
    form.focus_field = FormField::ContentType;
    form.backspace();
    assert_eq!(form.content_type, ContentType::Cooldown);
    form.backspace();
    assert_eq!(form.content_type, ContentType::Warmup);
}

#[test]
fn test_content_form_clear_resets_fields() {
    let mut form = TrainingContentForm::new();
    form.title = "Drill".to_string();
    form.duration_minutes = "15".to_string();
    form.cycle_content_type_forward();
    form.next_field();
    form.clear();
    assert_eq!(form.title, "");
    assert_eq!(form.duration_minutes, "");
    assert_eq!(form.content_type, ContentType::Drill);
    assert_eq!(form.focus_field, FormField::Title);
}

#[test]
fn test_content_form_title_minimum_is_two() {
    let mut form = TrainingContentForm::new();
    form.title = "A".to_string();
    let result = form.validate();
    assert!(result.is_err());
    assert!(result.unwrap_err().contains("at least 2"));

    form.title = "Ab".to_string();
    assert!(form.validate().is_ok());
}
