pub mod app;
pub mod capability;
pub mod help;
pub mod navigation;
pub mod session_edit_form;
pub mod session_filter;
pub mod session_form;
pub mod text_editor;
pub mod training_content_form;
