//! The commands of the web client (`/api/<command>?value=<value>`): parsing a
//! request into a command, and applying a command to the settings.

use vstd::prelude::*;
use vstd::string::*;
use vstd::utf8::*;

use crate::app_state::{
    default_view, kept_indices, loaded_view, selection_after_enabling, stored_interface_name, truncatable,
    AppState, AppStateView, Status,
};
use crate::persistence::{
    consistent, lemma_default_is_consistent, lemma_operations_keep_consistency,
    lemma_saved_settings_load_back, restarted_view, saved_view,
};
use crate::text::{
    chars_of, comma_pieces, parse_bool, parse_index_list, parse_u8, parse_usize, parsed_bool,
    parsed_bounded, parsed_list, same_text,
};

verus! {

/// The continuous artistic controls, set from a decimal value in 0..=1.
#[derive(Debug, Clone, Copy, PartialEq, Eq)]
pub enum Control {
    Brightness,
    Volume,
    Tone,
    Heat,
    Flow,
    Form,
}

/// A request of the web client.
#[derive(Debug, PartialEq, Eq)]
pub enum Command {
    /// Enable these content families (the numbers of the comma-separated value).
    EnabledContentIndices(Vec<u32>),
    /// Select this content family, if the value is a number.
    SelectedContentIndex(Option<usize>),
    /// Set a continuous control from the given text.
    SetControl(Control, String),
    /// Set the vertical flip, if the value is `true` or `false`.
    FlipVertical(Option<bool>),
    /// Set the interface name.
    EthernetInterface(String),
    /// Set the first module's jumper address, if the value is a byte.
    Module0Address(Option<u8>),
    /// Restore the default settings.
    Restore,
    /// Reset the modules.
    Reset,
    /// Save the settings and restart the controller.
    Reload,
    /// An unknown command.
    NotFound,
}

/// The value of an optional number.
pub open spec fn as_usize(n: Option<nat>) -> Option<usize> {
    match n {
        Some(v) => Some(v as usize),
        None => None,
    }
}

/// The value of an optional byte.
pub open spec fn as_u8(n: Option<nat>) -> Option<u8> {
    match n {
        Some(v) => Some(v as u8),
        None => None,
    }
}

/// The control a command name with a value sets, if it is one of
/// `brightness`, `volume`, `tone`, `heat`, `flow` or `form`.
pub open spec fn control_named(name: Seq<char>) -> Option<Control> {
    if name == "brightness"@ {
        Some(Control::Brightness)
    } else if name == "volume"@ {
        Some(Control::Volume)
    } else if name == "tone"@ {
        Some(Control::Tone)
    } else if name == "heat"@ {
        Some(Control::Heat)
    } else if name == "flow"@ {
        Some(Control::Flow)
    } else if name == "form"@ {
        Some(Control::Form)
    } else {
        None
    }
}

/// The command of a request with a value.
pub open spec fn command_with_value(name: Seq<char>, value: Seq<char>, command: Command) -> bool {
    if name == "enabled-content-indices"@ {
        command matches Command::EnabledContentIndices(list) && list@ == parsed_list(
            comma_pieces(value),
        )
    } else if name == "selected-content-index"@ {
        command == Command::SelectedContentIndex(
            as_usize(parsed_bounded(value, usize::MAX as nat)),
        )
    } else if control_named(name) is Some {
        command matches Command::SetControl(control, text) && control == control_named(name)->0
            && text@ == value
    } else if name == "flip-vertical"@ {
        command == Command::FlipVertical(parsed_bool(value))
    } else if name == "ethernet-interface"@ {
        command matches Command::EthernetInterface(text) && text@ == value
    } else if name == "module0-address"@ {
        command == Command::Module0Address(as_u8(parsed_bounded(value, u8::MAX as nat)))
    } else {
        command == Command::NotFound
    }
}

/// The command of a request without a value.
pub open spec fn command_without_value(name: Seq<char>) -> Command {
    if name == "restore"@ {
        Command::Restore
    } else if name == "reset"@ {
        Command::Reset
    } else if name == "reload"@ {
        Command::Reload
    } else {
        Command::NotFound
    }
}

fn control_of(name: &[char]) -> (control: Option<Control>)
    ensures
        control == control_named(name@),
{
    if same_text(name, "brightness") {
        Some(Control::Brightness)
    } else if same_text(name, "volume") {
        Some(Control::Volume)
    } else if same_text(name, "tone") {
        Some(Control::Tone)
    } else if same_text(name, "heat") {
        Some(Control::Heat)
    } else if same_text(name, "flow") {
        Some(Control::Flow)
    } else if same_text(name, "form") {
        Some(Control::Form)
    } else {
        None
    }
}

/// The command of a request `/api/<command>`, with the query's `value` if it has one.
pub fn parse_command(command: &str, value: Option<&str>) -> (parsed: Command)
    ensures
        value matches Some(v) ==> command_with_value(command@, v@, parsed),
        value is None ==> parsed == command_without_value(command@),
{
    let name = chars_of(command);
    match value {
        Some(value) => {
            let text = chars_of(value);
            if same_text(name.as_slice(), "enabled-content-indices") {
                Command::EnabledContentIndices(parse_index_list(value))
            } else if same_text(name.as_slice(), "selected-content-index") {
                Command::SelectedContentIndex(parse_usize(text.as_slice()))
            } else if let Some(control) = control_of(name.as_slice()) {
                Command::SetControl(control, value.to_owned())
            } else if same_text(name.as_slice(), "flip-vertical") {
                Command::FlipVertical(parse_bool(text.as_slice()))
            } else if same_text(name.as_slice(), "ethernet-interface") {
                Command::EthernetInterface(value.to_owned())
            } else if same_text(name.as_slice(), "module0-address") {
                Command::Module0Address(parse_u8(text.as_slice()))
            } else {
                Command::NotFound
            }
        },
        None => {
            if same_text(name.as_slice(), "restore") {
                Command::Restore
            } else if same_text(name.as_slice(), "reset") {
                Command::Reset
            } else if same_text(name.as_slice(), "reload") {
                Command::Reload
            } else {
                Command::NotFound
            }
        },
    }
}

/// What is left to do after a command is applied to the settings.
#[derive(Debug, PartialEq, Eq)]
pub enum CommandEffect {
    /// Save the settings.
    Save,
    /// Set the continuous control from the text, then save the settings.
    SetControl(Control, String),
    /// Restore the default continuous controls too, then save the settings.
    Restore,
    /// Nothing: the reset request is for the hardware driver, nothing is saved.
    Reset,
    /// Save the settings and restart the controller.
    Reload,
    /// Answer that the command is unknown; nothing is saved.
    NotFound,
}

/// Whether a command can be applied: an interface name must be cut at a
/// character boundary, and the first module must exist to be readdressed.
pub open spec fn applicable(state: AppStateView, command: Command) -> bool {
    &&& (command matches Command::EthernetInterface(name) ==> truncatable(encode_utf8(name@))
        && encode_utf8(name@).len() <= usize::MAX)
    &&& (command matches Command::Module0Address(Some(_)) ==> state.modules.len() > 0)
}

/// The settings after a command.
pub open spec fn after_command(state: AppStateView, command: Command) -> AppStateView {
    match command {
        Command::EnabledContentIndices(list) => {
            let kept = kept_indices(list@, state.available_content.len());
            AppStateView {
                enabled_content_indices: kept,
                selected_content_index: selection_after_enabling(
                    kept,
                    state.selected_content_index,
                ),
                ..state
            }
        },
        Command::SelectedContentIndex(Some(index)) => if index < state.available_content.len() {
            AppStateView { selected_content_index: index, ..state }
        } else {
            state
        },
        Command::FlipVertical(Some(flip)) => AppStateView { flip_vertical: flip, ..state },
        Command::EthernetInterface(name) => AppStateView {
            ethernet_interface: stored_interface_name(name@),
            ..state
        },
        Command::Module0Address(Some(address)) => AppStateView {
            modules: state.modules.update(0, (state.modules[0].0, state.modules[0].1, address)),
            ..state
        },
        Command::Restore => default_view(),
        Command::Reset => AppStateView { hardware_reset_requested: true, ..state },
        _ => state,
    }
}

/// What is left to do after a command.
pub open spec fn effect_of(command: Command, effect: CommandEffect) -> bool {
    match command {
        Command::SetControl(control, text) => effect matches CommandEffect::SetControl(c, t) && c
            == control && t@ == text@,
        Command::Restore => effect == CommandEffect::Restore,
        Command::Reset => effect == CommandEffect::Reset,
        Command::Reload => effect == CommandEffect::Reload,
        Command::NotFound => effect == CommandEffect::NotFound,
        _ => effect == CommandEffect::Save,
    }
}

/// Commands keep the settings consistent: any applicable command of the web
/// client, applied to consistent settings, leaves them consistent.
pub proof fn lemma_commands_keep_consistency(state: AppStateView, command: Command)
    requires
        consistent(state),
        applicable(state, command),
    ensures
        consistent(after_command(state, command)),
{
    lemma_default_is_consistent();
    match command {
        Command::EnabledContentIndices(list) => {
            lemma_operations_keep_consistency(state, list@, 0, false, Seq::empty(), 0, 0, Status::Unknown, false);
        },
        Command::SelectedContentIndex(Some(index)) => {
            lemma_operations_keep_consistency(state, Seq::empty(), index, false, Seq::empty(), 0, 0, Status::Unknown, false);
        },
        Command::FlipVertical(Some(flip)) => {
            lemma_operations_keep_consistency(state, Seq::empty(), 0, flip, Seq::empty(), 0, 0, Status::Unknown, false);
        },
        Command::EthernetInterface(name) => {
            lemma_operations_keep_consistency(state, Seq::empty(), 0, false, name@, 0, 0, Status::Unknown, false);
        },
        Command::Module0Address(Some(address)) => {
            lemma_operations_keep_consistency(state, Seq::empty(), 0, false, Seq::empty(), address, 0, Status::Unknown, false);
        },
        Command::Reset => {
            lemma_operations_keep_consistency(state, Seq::empty(), 0, false, Seq::empty(), 0, 0, Status::Unknown, true);
        },
        _ => {},
    }
}

/// The settings after a sequence of commands, applied in order.
pub open spec fn after_commands(state: AppStateView, commands: Seq<Command>) -> AppStateView
    decreases commands.len(),
{
    if commands.len() == 0 {
        state
    } else {
        after_commands(after_command(state, commands[0]), commands.drop_first())
    }
}

/// Whether each command of a sequence is applicable to the settings it meets.
pub open spec fn all_applicable(state: AppStateView, commands: Seq<Command>) -> bool
    decreases commands.len(),
{
    if commands.len() == 0 {
        true
    } else {
        applicable(state, commands[0]) && all_applicable(
            after_command(state, commands[0]),
            commands.drop_first(),
        )
    }
}

proof fn lemma_command_sequences_keep_consistency(state: AppStateView, commands: Seq<Command>)
    requires
        consistent(state),
        all_applicable(state, commands),
    ensures
        consistent(after_commands(state, commands)),
    decreases commands.len(),
{
    if commands.len() > 0 {
        lemma_commands_keep_consistency(state, commands[0]);
        lemma_command_sequences_keep_consistency(
            after_command(state, commands[0]),
            commands.drop_first(),
        );
    }
}

/// Settings reached from the defaults load back: after any sequence of
/// applicable commands of the web client from the default settings, the
/// settings, saved and loaded again, are the same settings, with the status
/// unknown and no reset pending. (Not for settings with a single enabled
/// family and another one selected: loading selects the single enabled family.)
pub proof fn lemma_reached_settings_load_back(commands: Seq<Command>)
    requires
        all_applicable(default_view(), commands),
        !({
            let s = after_commands(default_view(), commands);
            s.enabled_content_indices.len() == 1 && s.selected_content_index
                != s.enabled_content_indices[0] as usize
        }),
    ensures
        ({
            let s = after_commands(default_view(), commands);
            &&& consistent(s)
            &&& loaded_view(saved_view(s)) == restarted_view(s)
        }),
{
    lemma_default_is_consistent();
    lemma_command_sequences_keep_consistency(default_view(), commands);
    lemma_saved_settings_load_back(after_commands(default_view(), commands));
}

proof fn lemma_control_request(name: Seq<char>, control: Control, value: Seq<char>, command: Command)
    requires
        control_named(name) == Some(control),
        name != "enabled-content-indices"@,
        name != "selected-content-index"@,
    ensures
        command_with_value(name, value, command) ==> (command matches Command::SetControl(c, t)
            && c == control && t@ == value),
{
}

/// Each continuous control is set by the request of its own name: a request
/// `brightness`, `volume`, `tone`, `heat`, `flow` or `form` with a value
/// parses into setting that very control from that very value.
pub proof fn lemma_controls_are_set_by_their_names(value: Seq<char>, command: Command)
    ensures
        command_with_value("brightness"@, value, command) ==> (command matches Command::SetControl(
            c,
            t,
        ) && c == Control::Brightness && t@ == value),
        command_with_value("volume"@, value, command) ==> (command matches Command::SetControl(
            c,
            t,
        ) && c == Control::Volume && t@ == value),
        command_with_value("tone"@, value, command) ==> (command matches Command::SetControl(
            c,
            t,
        ) && c == Control::Tone && t@ == value),
        command_with_value("heat"@, value, command) ==> (command matches Command::SetControl(
            c,
            t,
        ) && c == Control::Heat && t@ == value),
        command_with_value("flow"@, value, command) ==> (command matches Command::SetControl(
            c,
            t,
        ) && c == Control::Flow && t@ == value),
        command_with_value("form"@, value, command) ==> (command matches Command::SetControl(
            c,
            t,
        ) && c == Control::Form && t@ == value),
{
    assert(control_named("brightness"@) == Some(Control::Brightness) && "brightness"@ != "enabled-content-indices"@
        && "brightness"@ != "selected-content-index"@) by {
        reveal_strlit("brightness");
        reveal_strlit("enabled-content-indices");
        reveal_strlit("selected-content-index");
        assert("brightness"@.len() != "enabled-content-indices"@.len());
        assert("brightness"@.len() != "selected-content-index"@.len());
    }
    lemma_control_request("brightness"@, Control::Brightness, value, command);
    assert(control_named("volume"@) == Some(Control::Volume) && "volume"@ != "enabled-content-indices"@
        && "volume"@ != "selected-content-index"@) by {
        reveal_strlit("volume");
        reveal_strlit("enabled-content-indices");
        reveal_strlit("selected-content-index");
        reveal_strlit("brightness");
        assert("volume"@.len() != "enabled-content-indices"@.len());
        assert("volume"@.len() != "selected-content-index"@.len());
        assert("volume"@.len() != "brightness"@.len());
    }
    lemma_control_request("volume"@, Control::Volume, value, command);
    assert(control_named("tone"@) == Some(Control::Tone) && "tone"@ != "enabled-content-indices"@
        && "tone"@ != "selected-content-index"@) by {
        reveal_strlit("tone");
        reveal_strlit("enabled-content-indices");
        reveal_strlit("selected-content-index");
        reveal_strlit("brightness");
        reveal_strlit("volume");
        assert("tone"@.len() != "enabled-content-indices"@.len());
        assert("tone"@.len() != "selected-content-index"@.len());
        assert("tone"@.len() != "brightness"@.len());
        assert("tone"@.len() != "volume"@.len());
    }
    lemma_control_request("tone"@, Control::Tone, value, command);
    assert(control_named("heat"@) == Some(Control::Heat) && "heat"@ != "enabled-content-indices"@
        && "heat"@ != "selected-content-index"@) by {
        reveal_strlit("heat");
        reveal_strlit("enabled-content-indices");
        reveal_strlit("selected-content-index");
        reveal_strlit("brightness");
        reveal_strlit("volume");
        reveal_strlit("tone");
        assert("heat"@.len() != "enabled-content-indices"@.len());
        assert("heat"@.len() != "selected-content-index"@.len());
        assert("heat"@.len() != "brightness"@.len());
        assert("heat"@.len() != "volume"@.len());
        assert("heat"@[0] != "tone"@[0]);
    }
    lemma_control_request("heat"@, Control::Heat, value, command);
    assert(control_named("flow"@) == Some(Control::Flow) && "flow"@ != "enabled-content-indices"@
        && "flow"@ != "selected-content-index"@) by {
        reveal_strlit("flow");
        reveal_strlit("enabled-content-indices");
        reveal_strlit("selected-content-index");
        reveal_strlit("brightness");
        reveal_strlit("volume");
        reveal_strlit("tone");
        reveal_strlit("heat");
        assert("flow"@.len() != "enabled-content-indices"@.len());
        assert("flow"@.len() != "selected-content-index"@.len());
        assert("flow"@.len() != "brightness"@.len());
        assert("flow"@.len() != "volume"@.len());
        assert("flow"@[0] != "tone"@[0]);
        assert("flow"@[0] != "heat"@[0]);
    }
    lemma_control_request("flow"@, Control::Flow, value, command);
    assert(control_named("form"@) == Some(Control::Form) && "form"@ != "enabled-content-indices"@
        && "form"@ != "selected-content-index"@) by {
        reveal_strlit("form");
        reveal_strlit("enabled-content-indices");
        reveal_strlit("selected-content-index");
        reveal_strlit("brightness");
        reveal_strlit("volume");
        reveal_strlit("tone");
        reveal_strlit("heat");
        reveal_strlit("flow");
        assert("form"@.len() != "enabled-content-indices"@.len());
        assert("form"@.len() != "selected-content-index"@.len());
        assert("form"@.len() != "brightness"@.len());
        assert("form"@.len() != "volume"@.len());
        assert("form"@[0] != "tone"@[0]);
        assert("form"@[0] != "heat"@[0]);
        assert("form"@[1] != "flow"@[1]);
    }
    lemma_control_request("form"@, Control::Form, value, command);
}


/// The vertical flip follows the web client both ways: `flip-vertical` with
/// `true` or `false` parses into that flip; applying it sets the flip to
/// exactly that value and leaves every other setting alone, so applying the
/// previous value afterwards gives the settings back.
pub proof fn lemma_flip_follows_the_client(state: AppStateView, flip: bool, command: Command)
    ensures
        command_with_value("flip-vertical"@, "true"@, command) ==> command
            == Command::FlipVertical(Some(true)),
        command_with_value("flip-vertical"@, "false"@, command) ==> command
            == Command::FlipVertical(Some(false)),
        after_command(state, Command::FlipVertical(Some(flip))).flip_vertical == flip,
        (AppStateView {
            flip_vertical: state.flip_vertical,
            ..after_command(state, Command::FlipVertical(Some(flip)))
        }) == state,
        after_command(
            after_command(state, Command::FlipVertical(Some(flip))),
            Command::FlipVertical(Some(state.flip_vertical)),
        ) == state,
{
    assert(control_named("flip-vertical"@) is None && "flip-vertical"@ != "enabled-content-indices"@
        && "flip-vertical"@ != "selected-content-index"@) by {
        reveal_strlit("flip-vertical");
        reveal_strlit("enabled-content-indices");
        reveal_strlit("selected-content-index");
        reveal_strlit("brightness");
        reveal_strlit("volume");
        reveal_strlit("tone");
        reveal_strlit("heat");
        reveal_strlit("flow");
        reveal_strlit("form");
        assert("flip-vertical"@.len() != "enabled-content-indices"@.len());
        assert("flip-vertical"@.len() != "selected-content-index"@.len());
        assert("flip-vertical"@.len() != "brightness"@.len());
        assert("flip-vertical"@.len() != "volume"@.len());
        assert("flip-vertical"@.len() != "tone"@.len());
        assert("flip-vertical"@.len() != "heat"@.len());
        assert("flip-vertical"@.len() != "flow"@.len());
        assert("flip-vertical"@.len() != "form"@.len());
    }
    assert("true"@ =~= seq!['t', 'r', 'u', 'e']) by {
        reveal_strlit("true");
    }
    assert("false"@ =~= seq!['f', 'a', 'l', 's', 'e']) by {
        reveal_strlit("false");
    }
}

/// Enabling exactly one family selects it, whatever was selected before;
/// enabling any other number of families keeps the selection. Every enabled
/// family exists and was asked for.
pub proof fn lemma_single_enabled_family_is_selected(state: AppStateView, list: Vec<u32>)
    ensures
        ({
            let after = after_command(state, Command::EnabledContentIndices(list));
            &&& after.enabled_content_indices.len() == 1 ==> after.selected_content_index
                == after.enabled_content_indices[0]
            &&& after.enabled_content_indices.len() != 1 ==> after.selected_content_index
                == state.selected_content_index
            &&& forall|i: int|
                0 <= i < after.enabled_content_indices.len() ==> {
                    &&& #[trigger] after.enabled_content_indices[i]
                        < state.available_content.len()
                    &&& list@.contains(after.enabled_content_indices[i])
                }
        }),
{
    lemma_kept_indices_come_from_the_list(list@, state.available_content.len());
}

proof fn lemma_kept_indices_come_from_the_list(input: Seq<u32>, limit: nat)
    ensures
        forall|i: int|
            0 <= i < kept_indices(input, limit).len() ==> {
                &&& #[trigger] kept_indices(input, limit)[i] < limit
                &&& input.contains(kept_indices(input, limit)[i])
            },
    decreases input.len(),
{
    if input.len() > 0 {
        let rest = input.drop_last();
        lemma_kept_indices_come_from_the_list(rest, limit);
        let kept = kept_indices(rest, limit);
        assert forall|i: int| 0 <= i < kept_indices(input, limit).len() implies {
            &&& #[trigger] kept_indices(input, limit)[i] < limit
            &&& input.contains(kept_indices(input, limit)[i])
        } by {
            if i < kept.len() {
                let j = choose|j: int| 0 <= j < rest.len() && rest[j] == kept[i];
                assert(input[j] == rest[j]);
            } else {
                assert(input[input.len() - 1] == input.last());
            }
        }
    }
}

impl AppState {
    /// Applies a command of the web client to the settings; returns what is
    /// left to do (for the continuous controls, saving, and answering).
    pub fn apply_command(&mut self, command: Command) -> (effect: CommandEffect)
        requires
            applicable(old(self)@, command),
        ensures
            final(self)@ == after_command(old(self)@, command),
            effect_of(command, effect),
    {
        match command {
            Command::EnabledContentIndices(list) => {
                self.set_enabled_content_indices(list);
                CommandEffect::Save
            },
            Command::SelectedContentIndex(index) => {
                if let Some(index) = index {
                    self.set_selected_content_index(index);
                }
                CommandEffect::Save
            },
            Command::SetControl(control, text) => CommandEffect::SetControl(control, text),
            Command::FlipVertical(flip) => {
                if let Some(flip) = flip {
                    self.set_flip_vertical(flip);
                }
                CommandEffect::Save
            },
            Command::EthernetInterface(name) => {
                self.set_ethernet_interface(name.as_str());
                CommandEffect::Save
            },
            Command::Module0Address(address) => {
                if let Some(address) = address {
                    self.set_module0_address(address);
                }
                CommandEffect::Save
            },
            Command::Restore => {
                *self = AppState::new();
                CommandEffect::Restore
            },
            Command::Reset => {
                self.request_hardware_reset();
                CommandEffect::Reset
            },
            Command::Reload => CommandEffect::Reload,
            Command::NotFound => CommandEffect::NotFound,
        }
    }
}

} // verus!
