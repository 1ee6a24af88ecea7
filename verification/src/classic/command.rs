//! The commands of the first-generation web client
//! (`/api/<command>?value=<value>`): parsing a request into a command, and
//! applying a command to the first-generation settings.

use vstd::prelude::*;
use vstd::string::*;
use vstd::utf8::*;

use crate::app_state::{stored_interface_name, truncatable};
use crate::classic::app_state::{classic_default_view, AppState, ClassicStateView};
use crate::command::{as_u8, as_usize};
use crate::text::{
    chars_of, comma_pieces, parse_bool, parse_index_list, parse_u8, parse_usize, parsed_bool,
    parsed_bounded, parsed_list, same_text,
};

verus! {

/// The continuous controls of the first-generation settings, set from a
/// decimal value.
#[derive(Debug, Clone, Copy, PartialEq, Eq)]
pub enum ClassicControl {
    Hue,
    Saturation,
    Brightness,
    Speed,
    CycleDuration,
}

/// A request of the first-generation web client.
#[derive(Debug, PartialEq, Eq)]
pub enum ClassicCommand {
    /// Enable these content families (the numbers of the comma-separated value).
    EnabledContentIndices(Vec<u32>),
    /// Select this content, if the value is a number.
    SelectedContentIndex(Option<usize>),
    /// Set a continuous control from the given text.
    SetControl(ClassicControl, String),
    /// Set the vertical flip, if the value is `true` or `false`.
    FlipVertical(Option<bool>),
    /// Set the interface name.
    EthernetInterface(String),
    /// Set the first module's jumper address, if the value is a byte.
    Module0Address(Option<u8>),
    /// Restore the default settings.
    Restore,
    /// Reset the modules (not acted on by this controller).
    Reset,
    /// Restart the controller (not acted on by this controller).
    Reload,
    /// An unknown command.
    NotFound,
}

/// The control a command name with a value sets, if it is one of `hue`,
/// `saturation`, `brightness`, `speed` or `cycle-duration`.
pub open spec fn classic_control_named(name: Seq<char>) -> Option<ClassicControl> {
    if name == "hue"@ {
        Some(ClassicControl::Hue)
    } else if name == "saturation"@ {
        Some(ClassicControl::Saturation)
    } else if name == "brightness"@ {
        Some(ClassicControl::Brightness)
    } else if name == "speed"@ {
        Some(ClassicControl::Speed)
    } else if name == "cycle-duration"@ {
        Some(ClassicControl::CycleDuration)
    } else {
        None
    }
}

/// The command of a request with a value.
pub open spec fn classic_command_with_value(
    name: Seq<char>,
    value: Seq<char>,
    command: ClassicCommand,
) -> bool {
    if name == "enabled-content-indices"@ {
        command matches ClassicCommand::EnabledContentIndices(list) && list@ == parsed_list(
            comma_pieces(value),
        )
    } else if name == "selected-content-index"@ {
        command == ClassicCommand::SelectedContentIndex(
            as_usize(parsed_bounded(value, usize::MAX as nat)),
        )
    } else if classic_control_named(name) is Some {
        command matches ClassicCommand::SetControl(control, text) && control
            == classic_control_named(name)->0 && text@ == value
    } else if name == "flip-vertical"@ {
        command == ClassicCommand::FlipVertical(parsed_bool(value))
    } else if name == "ethernet-interface"@ {
        command matches ClassicCommand::EthernetInterface(text) && text@ == value
    } else if name == "module0-address"@ {
        command == ClassicCommand::Module0Address(as_u8(parsed_bounded(value, u8::MAX as nat)))
    } else {
        command == ClassicCommand::NotFound
    }
}

/// The command of a request without a value.
pub open spec fn classic_command_without_value(name: Seq<char>) -> ClassicCommand {
    if name == "restore"@ {
        ClassicCommand::Restore
    } else if name == "reset"@ {
        ClassicCommand::Reset
    } else if name == "reload"@ {
        ClassicCommand::Reload
    } else {
        ClassicCommand::NotFound
    }
}

fn classic_control_of(name: &[char]) -> (control: Option<ClassicControl>)
    ensures
        control == classic_control_named(name@),
{
    if same_text(name, "hue") {
        Some(ClassicControl::Hue)
    } else if same_text(name, "saturation") {
        Some(ClassicControl::Saturation)
    } else if same_text(name, "brightness") {
        Some(ClassicControl::Brightness)
    } else if same_text(name, "speed") {
        Some(ClassicControl::Speed)
    } else if same_text(name, "cycle-duration") {
        Some(ClassicControl::CycleDuration)
    } else {
        None
    }
}

/// The command of a first-generation request `/api/<command>`, with the
/// query's `value` if it has one.
pub fn parse_classic_command(command: &str, value: Option<&str>) -> (parsed: ClassicCommand)
    ensures
        value matches Some(v) ==> classic_command_with_value(command@, v@, parsed),
        value is None ==> parsed == classic_command_without_value(command@),
{
    let name = chars_of(command);
    match value {
        Some(value) => {
            let text = chars_of(value);
            if same_text(name.as_slice(), "enabled-content-indices") {
                ClassicCommand::EnabledContentIndices(parse_index_list(value))
            } else if same_text(name.as_slice(), "selected-content-index") {
                ClassicCommand::SelectedContentIndex(parse_usize(text.as_slice()))
            } else if let Some(control) = classic_control_of(name.as_slice()) {
                ClassicCommand::SetControl(control, value.to_owned())
            } else if same_text(name.as_slice(), "flip-vertical") {
                ClassicCommand::FlipVertical(parse_bool(text.as_slice()))
            } else if same_text(name.as_slice(), "ethernet-interface") {
                ClassicCommand::EthernetInterface(value.to_owned())
            } else if same_text(name.as_slice(), "module0-address") {
                ClassicCommand::Module0Address(parse_u8(text.as_slice()))
            } else {
                ClassicCommand::NotFound
            }
        },
        None => {
            if same_text(name.as_slice(), "restore") {
                ClassicCommand::Restore
            } else if same_text(name.as_slice(), "reset") {
                ClassicCommand::Reset
            } else if same_text(name.as_slice(), "reload") {
                ClassicCommand::Reload
            } else {
                ClassicCommand::NotFound
            }
        },
    }
}

/// What is left to do after a first-generation command is applied.
#[derive(Debug, PartialEq, Eq)]
pub enum ClassicCommandEffect {
    /// Save the settings.
    Save,
    /// Set the continuous control from the text, then save the settings.
    SetControl(ClassicControl, String),
    /// Restore the default continuous controls too, then save the settings.
    Restore,
    /// Answer that the command is unknown; nothing is saved.
    NotFound,
}

/// Whether a first-generation command can be applied: an interface name must
/// be cut at a character boundary, and the first module must exist to be
/// readdressed.
pub open spec fn classic_applicable(state: ClassicStateView, command: ClassicCommand) -> bool {
    &&& (command matches ClassicCommand::EthernetInterface(name) ==> truncatable(
        encode_utf8(name@),
    ) && encode_utf8(name@).len() <= usize::MAX)
    &&& (command matches ClassicCommand::Module0Address(Some(_)) ==> state.modules.len() > 0)
}

/// The first-generation settings after a command: enabled content and the
/// selection are taken as given.
pub open spec fn classic_after_command(
    state: ClassicStateView,
    command: ClassicCommand,
) -> ClassicStateView {
    match command {
        ClassicCommand::EnabledContentIndices(list) => ClassicStateView {
            enabled_content_indices: list@,
            ..state
        },
        ClassicCommand::SelectedContentIndex(Some(index)) => ClassicStateView {
            selected_content_index: index,
            ..state
        },
        ClassicCommand::FlipVertical(Some(flip)) => ClassicStateView {
            flip_vertical: flip,
            ..state
        },
        ClassicCommand::EthernetInterface(name) => ClassicStateView {
            ethernet_interface: stored_interface_name(name@),
            ..state
        },
        ClassicCommand::Module0Address(Some(address)) => ClassicStateView {
            modules: state.modules.update(0, (state.modules[0].0, state.modules[0].1, address)),
            ..state
        },
        ClassicCommand::Restore => classic_default_view(),
        _ => state,
    }
}

/// What is left to do after a first-generation command.
pub open spec fn classic_effect_of(command: ClassicCommand, effect: ClassicCommandEffect) -> bool {
    match command {
        ClassicCommand::SetControl(control, text) => effect matches ClassicCommandEffect::SetControl(
            c,
            t,
        ) && c == control && t@ == text@,
        ClassicCommand::Restore => effect == ClassicCommandEffect::Restore,
        ClassicCommand::NotFound => effect == ClassicCommandEffect::NotFound,
        _ => effect == ClassicCommandEffect::Save,
    }
}

/// No first-generation command empties the module list: after any applicable
/// command, settings with at least one module still have one, so the first
/// module can always be readdressed.
pub proof fn lemma_classic_commands_keep_a_module(state: ClassicStateView, command: ClassicCommand)
    requires
        state.modules.len() > 0,
        classic_applicable(state, command),
    ensures
        classic_after_command(state, command).modules.len() > 0,
{
}

proof fn lemma_classic_control_request(
    name: Seq<char>,
    control: ClassicControl,
    value: Seq<char>,
    command: ClassicCommand,
)
    requires
        classic_control_named(name) == Some(control),
        name != "enabled-content-indices"@,
        name != "selected-content-index"@,
    ensures
        classic_command_with_value(name, value, command) ==> (command matches ClassicCommand::SetControl(
            c,
            t,
        ) && c == control && t@ == value),
{
}

/// Each first-generation control is set by the request of its own name: a
/// request `hue`, `saturation`, `brightness`, `speed` or `cycle-duration` with a
/// value parses into setting that very control from that very value.
pub proof fn lemma_classic_controls_are_set_by_their_names(value: Seq<char>, command: ClassicCommand)
    ensures
        classic_command_with_value("hue"@, value, command) ==> (command matches ClassicCommand::SetControl(
            c,
            t,
        ) && c == ClassicControl::Hue && t@ == value),
        classic_command_with_value("saturation"@, value, command) ==> (command matches ClassicCommand::SetControl(
            c,
            t,
        ) && c == ClassicControl::Saturation && t@ == value),
        classic_command_with_value("brightness"@, value, command) ==> (command matches ClassicCommand::SetControl(
            c,
            t,
        ) && c == ClassicControl::Brightness && t@ == value),
        classic_command_with_value("speed"@, value, command) ==> (command matches ClassicCommand::SetControl(
            c,
            t,
        ) && c == ClassicControl::Speed && t@ == value),
        classic_command_with_value("cycle-duration"@, value, command) ==> (command matches ClassicCommand::SetControl(
            c,
            t,
        ) && c == ClassicControl::CycleDuration && t@ == value),
{
    assert(classic_control_named("hue"@) == Some(ClassicControl::Hue) && "hue"@
        != "enabled-content-indices"@ && "hue"@ != "selected-content-index"@) by {
        reveal_strlit("hue");
        reveal_strlit("enabled-content-indices");
        reveal_strlit("selected-content-index");
        assert("hue"@.len() != "enabled-content-indices"@.len());
        assert("hue"@.len() != "selected-content-index"@.len());
    }
    lemma_classic_control_request("hue"@, ClassicControl::Hue, value, command);
    assert(classic_control_named("saturation"@) == Some(ClassicControl::Saturation) && "saturation"@
        != "enabled-content-indices"@ && "saturation"@ != "selected-content-index"@) by {
        reveal_strlit("saturation");
        reveal_strlit("enabled-content-indices");
        reveal_strlit("selected-content-index");
        reveal_strlit("hue");
        assert("saturation"@.len() != "enabled-content-indices"@.len());
        assert("saturation"@.len() != "selected-content-index"@.len());
        assert("saturation"@.len() != "hue"@.len());
    }
    lemma_classic_control_request("saturation"@, ClassicControl::Saturation, value, command);
    assert(classic_control_named("brightness"@) == Some(ClassicControl::Brightness) && "brightness"@
        != "enabled-content-indices"@ && "brightness"@ != "selected-content-index"@) by {
        reveal_strlit("brightness");
        reveal_strlit("enabled-content-indices");
        reveal_strlit("selected-content-index");
        reveal_strlit("hue");
        reveal_strlit("saturation");
        assert("brightness"@.len() != "enabled-content-indices"@.len());
        assert("brightness"@.len() != "selected-content-index"@.len());
        assert("brightness"@.len() != "hue"@.len());
        assert("brightness"@[0] != "saturation"@[0]);
    }
    lemma_classic_control_request("brightness"@, ClassicControl::Brightness, value, command);
    assert(classic_control_named("speed"@) == Some(ClassicControl::Speed) && "speed"@
        != "enabled-content-indices"@ && "speed"@ != "selected-content-index"@) by {
        reveal_strlit("speed");
        reveal_strlit("enabled-content-indices");
        reveal_strlit("selected-content-index");
        reveal_strlit("hue");
        reveal_strlit("saturation");
        reveal_strlit("brightness");
        assert("speed"@.len() != "enabled-content-indices"@.len());
        assert("speed"@.len() != "selected-content-index"@.len());
        assert("speed"@.len() != "hue"@.len());
        assert("speed"@.len() != "saturation"@.len());
        assert("speed"@.len() != "brightness"@.len());
    }
    lemma_classic_control_request("speed"@, ClassicControl::Speed, value, command);
    assert(classic_control_named("cycle-duration"@) == Some(ClassicControl::CycleDuration) && "cycle-duration"@
        != "enabled-content-indices"@ && "cycle-duration"@ != "selected-content-index"@) by {
        reveal_strlit("cycle-duration");
        reveal_strlit("enabled-content-indices");
        reveal_strlit("selected-content-index");
        reveal_strlit("hue");
        reveal_strlit("saturation");
        reveal_strlit("brightness");
        reveal_strlit("speed");
        assert("cycle-duration"@.len() != "enabled-content-indices"@.len());
        assert("cycle-duration"@.len() != "selected-content-index"@.len());
        assert("cycle-duration"@.len() != "hue"@.len());
        assert("cycle-duration"@.len() != "saturation"@.len());
        assert("cycle-duration"@.len() != "brightness"@.len());
        assert("cycle-duration"@.len() != "speed"@.len());
    }
    lemma_classic_control_request("cycle-duration"@, ClassicControl::CycleDuration, value, command);
}

/// The first-generation vertical flip follows the web client both ways:
/// `flip-vertical` with `true` or `false` parses into that flip; applying it
/// sets the flip to exactly that value and leaves every other setting alone.
pub proof fn lemma_classic_flip_follows_the_client(
    state: ClassicStateView,
    flip: bool,
    command: ClassicCommand,
)
    ensures
        classic_command_with_value("flip-vertical"@, "true"@, command) ==> command
            == ClassicCommand::FlipVertical(Some(true)),
        classic_command_with_value("flip-vertical"@, "false"@, command) ==> command
            == ClassicCommand::FlipVertical(Some(false)),
        classic_after_command(state, ClassicCommand::FlipVertical(Some(flip))).flip_vertical == flip,
        (ClassicStateView {
            flip_vertical: state.flip_vertical,
            ..classic_after_command(state, ClassicCommand::FlipVertical(Some(flip)))
        }) == state,
{
    assert(classic_control_named("flip-vertical"@) is None && "flip-vertical"@
        != "enabled-content-indices"@ && "flip-vertical"@ != "selected-content-index"@) by {
        reveal_strlit("flip-vertical");
        reveal_strlit("enabled-content-indices");
        reveal_strlit("selected-content-index");
        reveal_strlit("hue");
        reveal_strlit("saturation");
        reveal_strlit("brightness");
        reveal_strlit("speed");
        reveal_strlit("cycle-duration");
        assert("flip-vertical"@.len() != "enabled-content-indices"@.len());
        assert("flip-vertical"@.len() != "selected-content-index"@.len());
        assert("flip-vertical"@.len() != "hue"@.len());
        assert("flip-vertical"@.len() != "saturation"@.len());
        assert("flip-vertical"@.len() != "brightness"@.len());
        assert("flip-vertical"@.len() != "speed"@.len());
        assert("flip-vertical"@.len() != "cycle-duration"@.len());
    }
    assert("true"@ =~= seq!['t', 'r', 'u', 'e']) by {
        reveal_strlit("true");
    }
    assert("false"@ =~= seq!['f', 'a', 'l', 's', 'e']) by {
        reveal_strlit("false");
    }
}

impl AppState {
    /// Applies a command of the first-generation web client to the settings;
    /// returns what is left to do (for the continuous controls, saving, and
    /// answering).
    pub fn apply_command(&mut self, command: ClassicCommand) -> (effect: ClassicCommandEffect)
        requires
            classic_applicable(old(self)@, command),
        ensures
            final(self)@ == classic_after_command(old(self)@, command),
            classic_effect_of(command, effect),
    {
        match command {
            ClassicCommand::EnabledContentIndices(list) => {
                self.set_enabled_content_indices(list);
                ClassicCommandEffect::Save
            },
            ClassicCommand::SelectedContentIndex(index) => {
                if let Some(index) = index {
                    self.set_selected_content_index(index);
                }
                ClassicCommandEffect::Save
            },
            ClassicCommand::SetControl(control, text) => ClassicCommandEffect::SetControl(
                control,
                text,
            ),
            ClassicCommand::FlipVertical(flip) => {
                if let Some(flip) = flip {
                    self.set_flip_vertical(flip);
                }
                ClassicCommandEffect::Save
            },
            ClassicCommand::EthernetInterface(name) => {
                self.set_ethernet_interface(name.as_str());
                ClassicCommandEffect::Save
            },
            ClassicCommand::Module0Address(address) => {
                if let Some(address) = address {
                    self.set_module0_address(address);
                }
                ClassicCommandEffect::Save
            },
            ClassicCommand::Restore => {
                *self = AppState::new();
                ClassicCommandEffect::Restore
            },
            ClassicCommand::Reset => ClassicCommandEffect::Save,
            ClassicCommand::Reload => ClassicCommandEffect::Save,
            ClassicCommand::NotFound => ClassicCommandEffect::NotFound,
        }
    }
}

} // verus!
