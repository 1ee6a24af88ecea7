use nova::app_state::{AppState, Status};

fn restored(settings: &AppState) -> AppState {
    AppState::from_saved(
        settings.content_version(),
        settings.enabled_content_indices().clone(),
        settings.selected_content_index(),
        settings.is_flip_vertical(),
        settings.ethernet_interface().to_string(),
        settings.modules().clone(),
        settings.webserver_port(),
    )
}

#[test]
fn current_settings_and_invalid_indices_are_safe() {
    let mut settings = AppState::default();
    settings.set_selected_content_index(3);
    settings.set_selected_content_index(usize::MAX);
    assert_eq!(settings.selected_content_index(), 3);
    settings.set_enabled_content_indices(vec![3, 2, 3, 99]);
    assert_eq!(settings.enabled_content_indices(), &[3, 2]);
    let mut restored = restored(&settings);
    assert!(!restored.migrate_content());
    assert_eq!(restored.selected_content_index(), 3);
    assert_eq!(restored.enabled_content_indices(), &[3, 2]);
}

#[test]
fn single_enabled_content_is_selected() {
    let mut settings = AppState::default();
    settings.set_selected_content_index(0);
    settings.set_enabled_content_indices(vec![2, 2, 99]);
    assert_eq!(settings.enabled_content_indices(), &[2]);
    assert_eq!(settings.selected_content_index(), 2);
    settings.set_enabled_content_indices(vec![1, 2]);
    assert_eq!(settings.selected_content_index(), 2);
    settings.set_enabled_content_indices(vec![]);
    assert_eq!(settings.selected_content_index(), 2);
}

#[test]
fn legacy_settings_keep_levels_and_migrate_content() {
    for (old_index, new_index) in [(0, 0), (1, 0), (2, 3), (3, 1), (4, 2), (5, 3), (99, 0)] {
        let defaults = AppState::default();
        let mut settings = AppState::from_saved(
            0,
            defaults.enabled_content_indices().clone(),
            old_index,
            defaults.is_flip_vertical(),
            defaults.ethernet_interface().to_string(),
            defaults.modules().clone(),
            defaults.webserver_port(),
        );
        assert!(settings.migrate_content());
        assert!(!settings.migrate_content());
        assert_eq!(settings.selected_content_index(), new_index);
        assert_eq!(settings.enabled_content_indices(), &[0, 1, 2, 3]);
        assert_eq!(settings.content_version(), 1);
    }
}

#[test]
fn audio_volume_migration_validation_and_status_are_independent() {
    let mut state = AppState::default();
    state.set_status(Status::Error("Display unavailable".into()));
    state.set_audio_status(Status::Okay("Audio ready".into()));
    assert_eq!(state.status(), &Status::Error("Display unavailable".into()));
    assert_eq!(state.audio_status(), &Status::Okay("Audio ready".into()));
}

#[test]
fn defaults_describe_one_module() {
    let state = AppState::default();
    assert_eq!(state.content_version(), 1);
    assert_eq!(state.enabled_content_indices(), &[0, 1, 2, 3]);
    assert_eq!(state.selected_content_index(), 0);
    assert!(!state.is_flip_vertical());
    assert_eq!(state.ethernet_interface(), "eth0");
    assert_eq!(state.modules(), &vec![(0, 0, 1)]);
    assert_eq!(state.module0_address(), 1);
    assert_eq!(state.webserver_port(), 8080);
    assert_eq!(state.available_content(), &["Field", "Layers", "Threads", "Cloud"]);
    assert_eq!(state.dim(), (5, 5, 10));
    assert_eq!(state.status(), &Status::Unknown);
    assert_eq!(state.audio_status(), &Status::Unknown);
}

#[test]
fn interface_names_are_cut_to_twenty_bytes() {
    let mut state = AppState::default();
    state.set_ethernet_interface("enx0123456789abcdefghij");
    assert_eq!(state.ethernet_interface(), "enx0123456789abcdefg");
    state.set_ethernet_interface("wlan0");
    assert_eq!(state.ethernet_interface(), "wlan0");
    state.set_ethernet_interface("ééééééééééééé");
    assert_eq!(state.ethernet_interface(), "éééééééééé");
}

#[test]
fn first_module_is_readdressed() {
    let mut state = AppState::default();
    state.set_module0_address(7);
    assert_eq!(state.module0_address(), 7);
    assert_eq!(state.modules(), &vec![(0, 0, 7)]);
    state.set_webserver_port(9000);
    assert_eq!(state.webserver_port(), 9000);
    state.set_flip_vertical(true);
    assert!(state.is_flip_vertical());
}

#[test]
fn hardware_reset_request_is_taken_once() {
    let mut state = AppState::default();
    assert!(!state.take_hardware_reset_request());
    state.request_hardware_reset();
    assert!(state.take_hardware_reset_request());
    assert!(!state.take_hardware_reset_request());
}

#[test]
fn loading_keeps_grid_modules_and_spans_the_image() {
    let read = AppState::from_saved(
        1,
        vec![1, 1, 7, 0],
        2,
        true,
        "eth1".to_string(),
        vec![(0, 0, 1), (12, 0, 9), (1, 0, 2), (0, 3, 4)],
        8081,
    );
    let (loaded, migrated) = AppState::load_parsed(read);
    assert!(!migrated);
    assert_eq!(loaded.enabled_content_indices(), &[1, 0]);
    assert_eq!(loaded.selected_content_index(), 2);
    assert!(loaded.is_flip_vertical());
    assert_eq!(loaded.ethernet_interface(), "eth1");
    assert_eq!(loaded.modules(), &vec![(0, 0, 1), (1, 0, 2), (0, 3, 4)]);
    assert_eq!(loaded.dim(), (10, 20, 10));
    assert_eq!(loaded.webserver_port(), 8081);
    assert_eq!(loaded.available_content().len(), 4);
}

#[test]
fn loading_without_grid_modules_keeps_the_default_module() {
    let read = AppState::from_saved(0, vec![], 4, false, "eth0".to_string(), vec![(10, 10, 3)], 80);
    let (loaded, migrated) = AppState::load_parsed(read);
    assert!(migrated);
    assert_eq!(loaded.selected_content_index(), 2);
    assert_eq!(loaded.enabled_content_indices(), &[0, 1, 2, 3]);
    assert_eq!(loaded.modules(), &vec![(0, 0, 1)]);
    assert_eq!(loaded.dim(), (5, 5, 10));
}

#[test]
fn saved_settings_load_back() {
    let mut settings = AppState::default();
    settings.set_enabled_content_indices(vec![3, 1]);
    settings.set_selected_content_index(1);
    settings.set_ethernet_interface("eth2");
    settings.set_module0_address(5);
    settings.set_status(Status::Okay("running".into()));
    let (loaded, migrated) = AppState::load_parsed(restored(&settings));
    assert!(!migrated);
    assert_eq!(loaded.enabled_content_indices(), settings.enabled_content_indices());
    assert_eq!(loaded.selected_content_index(), settings.selected_content_index());
    assert_eq!(loaded.ethernet_interface(), settings.ethernet_interface());
    assert_eq!(loaded.modules(), settings.modules());
    assert_eq!(loaded.dim(), settings.dim());
    assert_eq!(loaded.status(), &Status::Unknown);
}

#[test]
fn status_reports_flag_and_message() {
    assert_eq!(Status::Okay("Display ready".into()).report(), (true, "Display ready".to_string()));
    assert_eq!(
        Status::Error("Audio unavailable".into()).report(),
        (false, "Audio unavailable".to_string())
    );
    assert_eq!(Status::Unknown.report(), (false, String::new()));
}
