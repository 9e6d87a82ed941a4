use up_down::paths::{log_dir_path, log_file_path};
use up_down::ui::{react, UiAction, UiEvent};

#[test]
fn log_paths_derived_from_data_dir() {
    assert_eq!(log_dir_path("/home/someone/.local/share"), "/home/someone/.local/share/shitternet");
    assert_eq!(
        log_file_path("/home/someone/.local/share"),
        "/home/someone/.local/share/shitternet/up_down.log"
    );
}

#[test]
fn ui_events_map_to_fixed_actions() {
    assert_eq!(react(UiEvent::IconClicked), UiAction::Ignore);
    assert_eq!(react(UiEvent::OpenLogRequested), UiAction::FlushAndOpenLog);
    assert_eq!(react(UiEvent::ExitRequested), UiAction::Exit);
}
