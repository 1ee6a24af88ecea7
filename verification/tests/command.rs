use nova::app_state::{AppState, Status};
use nova::command::{parse_command, Command, CommandEffect, Control};

#[test]
fn commands_with_values_are_parsed() {
    assert_eq!(
        parse_command("enabled-content-indices", Some("3,2,x")),
        Command::EnabledContentIndices(vec![3, 2])
    );
    assert_eq!(
        parse_command("selected-content-index", Some("2")),
        Command::SelectedContentIndex(Some(2))
    );
    assert_eq!(
        parse_command("selected-content-index", Some("two")),
        Command::SelectedContentIndex(None)
    );
    assert_eq!(
        parse_command("volume", Some("0.42")),
        Command::SetControl(Control::Volume, "0.42".to_string())
    );
    assert_eq!(
        parse_command("brightness", Some("1")),
        Command::SetControl(Control::Brightness, "1".to_string())
    );
    assert_eq!(parse_command("flip-vertical", Some("true")), Command::FlipVertical(Some(true)));
    assert_eq!(
        parse_command("ethernet-interface", Some("eth1")),
        Command::EthernetInterface("eth1".to_string())
    );
    assert_eq!(parse_command("module0-address", Some("300")), Command::Module0Address(None));
    assert_eq!(parse_command("module0-address", Some("12")), Command::Module0Address(Some(12)));
    assert_eq!(parse_command("reset", Some("1")), Command::NotFound);
}

#[test]
fn commands_without_values_are_parsed() {
    assert_eq!(parse_command("restore", None), Command::Restore);
    assert_eq!(parse_command("reset", None), Command::Reset);
    assert_eq!(parse_command("reload", None), Command::Reload);
    assert_eq!(parse_command("volume", None), Command::NotFound);
}

#[test]
fn reset_requests_hardware_reset_without_saving() {
    let mut state = AppState::default();
    let effect = state.apply_command(parse_command("reset", None));
    assert_eq!(effect, CommandEffect::Reset);
    assert!(state.take_hardware_reset_request());
    assert!(!state.take_hardware_reset_request());
}

#[test]
fn commands_change_settings_and_ask_for_a_save() {
    let mut state = AppState::default();
    assert_eq!(
        state.apply_command(parse_command("enabled-content-indices", Some("2,2,9"))),
        CommandEffect::Save
    );
    assert_eq!(state.enabled_content_indices(), &[2]);
    assert_eq!(state.selected_content_index(), 2);
    assert_eq!(state.apply_command(parse_command("selected-content-index", Some("9"))), CommandEffect::Save);
    assert_eq!(state.selected_content_index(), 2);
    state.apply_command(parse_command("flip-vertical", Some("true")));
    assert!(state.is_flip_vertical());
    state.apply_command(parse_command("module0-address", Some("5")));
    assert_eq!(state.module0_address(), 5);
    state.apply_command(parse_command("ethernet-interface", Some("eth3")));
    assert_eq!(state.ethernet_interface(), "eth3");
    assert_eq!(
        state.apply_command(parse_command("tone", Some("0.5"))),
        CommandEffect::SetControl(Control::Tone, "0.5".to_string())
    );
    assert_eq!(state.apply_command(parse_command("nothing", Some("1"))), CommandEffect::NotFound);
    state.set_status(Status::Okay("x".into()));
    assert_eq!(state.apply_command(parse_command("restore", None)), CommandEffect::Restore);
    assert_eq!(state.enabled_content_indices(), &[0, 1, 2, 3]);
    assert_eq!(state.status(), &Status::Unknown);
    assert_eq!(state.apply_command(parse_command("reload", None)), CommandEffect::Reload);
}

#[test]
fn audio_api_reports_volume_and_independent_status() {
    let mut state = AppState::default();
    state.set_status(Status::Okay("Display ready".into()));
    state.set_audio_status(Status::Error("Audio unavailable".into()));
    let (status_ok, _) = state.status().report();
    let (audio_ok, audio_message) = state.audio_status().report();
    assert_eq!(status_ok, true);
    assert_eq!(audio_ok, false);
    assert_eq!(audio_message, "Audio unavailable");
}

fn save_and_load(state: &AppState) -> AppState {
    let read = AppState::from_saved(
        state.content_version(),
        state.enabled_content_indices().clone(),
        state.selected_content_index(),
        state.is_flip_vertical(),
        state.ethernet_interface().to_string(),
        state.modules().clone(),
        state.webserver_port(),
    );
    AppState::load_parsed(read).0
}

#[test]
fn settings_reached_by_commands_load_back() {
    let mut state = AppState::new();
    for (command, value) in [
        ("enabled-content-indices", Some("3,1,1,9")),
        ("selected-content-index", Some("1")),
        ("flip-vertical", Some("true")),
        ("ethernet-interface", Some("enx-a-rather-long-interface-name")),
        ("module0-address", Some("12")),
        ("reset", None),
    ] {
        state.apply_command(parse_command(command, value));
    }
    let loaded = save_and_load(&state);
    assert_eq!(loaded.enabled_content_indices(), &vec![3, 1]);
    assert_eq!(loaded.selected_content_index(), 1);
    assert!(loaded.is_flip_vertical());
    assert_eq!(loaded.ethernet_interface(), state.ethernet_interface());
    assert_eq!(loaded.modules(), state.modules());
    assert_eq!(loaded.dim(), state.dim());
    assert_eq!(loaded.webserver_port(), state.webserver_port());
    assert_eq!(loaded.status(), &Status::Unknown);
}
