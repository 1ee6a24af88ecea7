use nova::classic::app_state::AppState;
use nova::classic::command::{
    parse_classic_command, ClassicCommand, ClassicCommandEffect, ClassicControl,
};

#[test]
fn classic_commands_with_values_are_parsed() {
    assert_eq!(
        parse_classic_command("enabled-content-indices", Some("2,x,0")),
        ClassicCommand::EnabledContentIndices(vec![2, 0])
    );
    assert_eq!(
        parse_classic_command("selected-content-index", Some("7")),
        ClassicCommand::SelectedContentIndex(Some(7))
    );
    assert_eq!(
        parse_classic_command("hue", Some("120.5")),
        ClassicCommand::SetControl(ClassicControl::Hue, "120.5".to_string())
    );
    assert_eq!(
        parse_classic_command("cycle-duration", Some("60")),
        ClassicCommand::SetControl(ClassicControl::CycleDuration, "60".to_string())
    );
    assert_eq!(
        parse_classic_command("flip-vertical", Some("yes")),
        ClassicCommand::FlipVertical(None)
    );
    assert_eq!(
        parse_classic_command("module0-address", Some("256")),
        ClassicCommand::Module0Address(None)
    );
    assert_eq!(parse_classic_command("volume", Some("1")), ClassicCommand::NotFound);
}

#[test]
fn classic_commands_without_values_are_parsed() {
    assert_eq!(parse_classic_command("restore", None), ClassicCommand::Restore);
    assert_eq!(parse_classic_command("reset", None), ClassicCommand::Reset);
    assert_eq!(parse_classic_command("reload", None), ClassicCommand::Reload);
    assert_eq!(parse_classic_command("hue", None), ClassicCommand::NotFound);
}

#[test]
fn classic_commands_take_values_as_given() {
    let mut state = AppState::new();
    let effect = state.apply_command(ClassicCommand::EnabledContentIndices(vec![9, 1]));
    assert_eq!(effect, ClassicCommandEffect::Save);
    assert_eq!(state.enabled_content_indices(), &vec![9, 1]);
    state.apply_command(ClassicCommand::SelectedContentIndex(Some(5)));
    assert_eq!(state.selected_content_index(), 5);
    state.apply_command(ClassicCommand::EthernetInterface(
        "a-very-long-interface-name".to_string(),
    ));
    assert_eq!(state.ethernet_interface(), "a-very-long-interfac");
    state.apply_command(ClassicCommand::Module0Address(Some(7)));
    assert_eq!(state.module0_address(), 7);
    assert_eq!(state.apply_command(ClassicCommand::Reset), ClassicCommandEffect::Save);
    assert_eq!(state.apply_command(ClassicCommand::Restore), ClassicCommandEffect::Restore);
    assert_eq!(state.enabled_content_indices(), &vec![0, 1]);
    assert_eq!(state.module0_address(), 1);
    assert_eq!(state.apply_command(ClassicCommand::NotFound), ClassicCommandEffect::NotFound);
}
