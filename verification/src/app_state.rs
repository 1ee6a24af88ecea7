//! The controller's settings and status: the content selection, the module
//! layout, the network settings, and the display and audio status.

use vstd::prelude::*;
use vstd::string::*;
use vstd::utf8::*;

use crate::content::{content_names, get_all_content_names, string_views};

verus! {

/// A status shown in the web client.
#[derive(Debug, Clone, PartialEq, Eq, Hash, Default)]
pub enum Status {
    #[default]
    Unknown,
    Okay(String),
    Error(String),
}

impl Status {
    /// The flag and message the web client shows: `(true, message)` for `Okay`,
    /// `(false, message)` for `Error`, and `(false, "")` while unknown.
    pub fn report(&self) -> (report: (bool, String))
        ensures
            (match self {
                Status::Okay(message) => report.0 && report.1@ == message@,
                Status::Error(message) => !report.0 && report.1@ == message@,
                Status::Unknown => !report.0 && report.1@ == Seq::<char>::empty(),
            }),
    {
        match self {
            Status::Okay(message) => (true, message.clone()),
            Status::Error(message) => (false, message.clone()),
            Status::Unknown => (false, String::new()),
        }
    }
}

/// The abstract settings and status.
pub struct AppStateView {
    pub content_version: u32,
    pub enabled_content_indices: Seq<u32>,
    pub selected_content_index: usize,
    pub flip_vertical: bool,
    pub ethernet_interface: Seq<char>,
    pub modules: Seq<(usize, usize, u8)>,
    pub webserver_port: u16,
    pub available_content: Seq<Seq<char>>,
    pub dim: (usize, usize, usize),
    pub status: Status,
    pub audio_status: Status,
    pub hardware_reset_requested: bool,
}

/// The controller's settings (except the continuous artistic controls) and status.
pub struct AppState {
    content_version: u32,
    enabled_content_indices: Vec<u32>,
    selected_content_index: usize,
    flip_vertical: bool,
    ethernet_interface: String,
    modules: Vec<(usize, usize, u8)>,
    webserver_port: u16,
    available_content: Vec<String>,
    dim: (usize, usize, usize),
    status: Status,
    audio_status: Status,
    hardware_reset_requested: bool,
}

impl View for AppState {
    type V = AppStateView;

    closed spec fn view(&self) -> AppStateView {
        AppStateView {
            content_version: self.content_version,
            enabled_content_indices: self.enabled_content_indices@,
            selected_content_index: self.selected_content_index,
            flip_vertical: self.flip_vertical,
            ethernet_interface: self.ethernet_interface@,
            modules: self.modules@,
            webserver_port: self.webserver_port,
            available_content: string_views(self.available_content@),
            dim: self.dim,
            status: self.status,
            audio_status: self.audio_status,
            hardware_reset_requested: self.hardware_reset_requested,
        }
    }
}

/// The size of the module grid in each direction.
pub const MODULE_GRID_MAX: usize = 10;

/// The voxels of a module along x.
pub const MODULE_X_RES: usize = 5;

/// The voxels of a module along y.
pub const MODULE_Y_RES: usize = 5;

/// The voxels of a module along z.
pub const MODULE_Z_RES: usize = 10;

/// The jumper address of the default module.
pub const MODULE_DEFAULT_ADDRESS: u8 = 1;

/// The longest interface name kept, in bytes.
pub const MAX_INTERFACE_NAME_LEN: usize = 20;

/// The enabled indices kept from a request: each index below `limit`, in
/// order, the first time it occurs.
pub open spec fn kept_indices(input: Seq<u32>, limit: nat) -> Seq<u32>
    decreases input.len(),
{
    if input.len() == 0 {
        Seq::empty()
    } else {
        let kept = kept_indices(input.drop_last(), limit);
        let index = input.last();
        if index < limit && !kept.contains(index) {
            kept.push(index)
        } else {
            kept
        }
    }
}

/// The selection after enabling `kept`: the single enabled index if exactly
/// one is enabled, otherwise `selected`.
pub open spec fn selection_after_enabling(kept: Seq<u32>, selected: usize) -> usize {
    if kept.len() == 1 {
        kept[0] as usize
    } else {
        selected
    }
}

/// The index of a content family in the current family list, for a selection
/// stored before the list changed to Field, Layers, Threads, Cloud.
pub open spec fn migrated_index(index: usize) -> usize {
    if index == 2 || index == 5 {
        3
    } else if index == 3 {
        1
    } else if index == 4 {
        2
    } else {
        0
    }
}

/// The indices `0..n`.
pub open spec fn all_indices(n: nat) -> Seq<u32> {
    Seq::new(n, |i: int| i as u32)
}

/// The interface name as stored: its first 20 bytes.
pub open spec fn truncated_name(bytes: Seq<u8>) -> Seq<u8> {
    if bytes.len() > 20 {
        bytes.subrange(0, 20)
    } else {
        bytes
    }
}

/// Whether an interface name can be cut to 20 bytes: it is at most 20 bytes
/// long, or its 20th byte ends a character.
pub open spec fn truncatable(bytes: Seq<u8>) -> bool {
    bytes.len() <= 20 || is_char_boundary(bytes, 20)
}

/// The interface name as stored, for a name that can be cut: the characters of
/// its first 20 bytes.
pub open spec fn stored_interface_name(name: Seq<char>) -> Seq<char> {
    decode_utf8(truncated_name(encode_utf8(name)))
}

/// A module placed on the 10 x 10 grid.
pub open spec fn on_grid(module: (usize, usize, u8)) -> bool {
    module.0 < 10 && module.1 < 10
}

/// The modules placed on the grid, in order.
pub open spec fn grid_modules(modules: Seq<(usize, usize, u8)>) -> Seq<(usize, usize, u8)>
    decreases modules.len(),
{
    if modules.len() == 0 {
        Seq::empty()
    } else {
        let kept = grid_modules(modules.drop_last());
        if on_grid(modules.last()) {
            kept.push(modules.last())
        } else {
            kept
        }
    }
}

/// The largest column of the modules (0 if there are none).
pub open spec fn max_column(modules: Seq<(usize, usize, u8)>) -> usize
    decreases modules.len(),
{
    if modules.len() == 0 {
        0
    } else {
        let m = max_column(modules.drop_last());
        if modules.last().0 > m {
            modules.last().0
        } else {
            m
        }
    }
}

/// The largest row of the modules (0 if there are none).
pub open spec fn max_row(modules: Seq<(usize, usize, u8)>) -> usize
    decreases modules.len(),
{
    if modules.len() == 0 {
        0
    } else {
        let m = max_row(modules.drop_last());
        if modules.last().1 > m {
            modules.last().1
        } else {
            m
        }
    }
}

/// The voxel dimensions of a layout whose last column and row are given.
pub open spec fn layout_dim(max_column: usize, max_row: usize) -> (usize, usize, usize) {
    (((max_column + 1) * 5) as usize, ((max_row + 1) * 5) as usize, 10)
}

/// Settings brought to the current content family list: settings of an
/// earlier version have their selection mapped and all four families enabled.
pub open spec fn migrated_view(state: AppStateView) -> AppStateView {
    if state.content_version < 1 {
        AppStateView {
            content_version: 1,
            selected_content_index: migrated_index(state.selected_content_index),
            enabled_content_indices: all_indices(4),
            ..state
        }
    } else {
        state
    }
}

/// The settings loaded from read settings: starting from the defaults, the
/// selection (if it exists), the enabled families (as
/// `set_enabled_content_indices` keeps them), the flip, the interface name (cut
/// to 20 bytes), the modules placed on the grid with the image size they span
/// (the default module if none is on the grid) and the web server port are
/// taken over, after the read settings are migrated.
pub open spec fn loaded_view(read: AppStateView) -> AppStateView {
    let migrated = migrated_view(read);
    let selected = if migrated.selected_content_index < 4 {
        migrated.selected_content_index
    } else {
        0
    };
    let kept = kept_indices(migrated.enabled_content_indices, 4);
    let grid = grid_modules(migrated.modules);
    AppStateView {
        enabled_content_indices: kept,
        selected_content_index: selection_after_enabling(kept, selected),
        flip_vertical: migrated.flip_vertical,
        ethernet_interface: stored_interface_name(migrated.ethernet_interface),
        modules: if grid.len() > 0 {
            grid
        } else {
            default_view().modules
        },
        dim: if grid.len() > 0 {
            layout_dim(max_column(grid), max_row(grid))
        } else {
            default_view().dim
        },
        webserver_port: migrated.webserver_port,
        ..default_view()
    }
}

/// The default settings: all four content families enabled, the first one
/// selected, interface `eth0`, one module at (0, 0) with address 1, the web
/// server on port 8080, a 5 x 5 x 10 voxel image, and no status yet.
pub open spec fn default_view() -> AppStateView {
    AppStateView {
        content_version: 1,
        enabled_content_indices: seq![0u32, 1u32, 2u32, 3u32],
        selected_content_index: 0,
        flip_vertical: false,
        ethernet_interface: "eth0"@,
        modules: seq![(0usize, 0usize, 1u8)],
        webserver_port: 8080,
        available_content: content_names(),
        dim: (5, 5, 10),
        status: Status::Unknown,
        audio_status: Status::Unknown,
        hardware_reset_requested: false,
    }
}

impl AppState {
    /// The default settings.
    pub fn new() -> (state: Self)
        ensures
            state@ == default_view(),
    {
        let mut enabled: Vec<u32> = Vec::new();
        enabled.push(0);
        enabled.push(1);
        enabled.push(2);
        enabled.push(3);
        let mut modules: Vec<(usize, usize, u8)> = Vec::new();
        modules.push((0, 0, MODULE_DEFAULT_ADDRESS));
        let state = AppState {
            content_version: 1,
            enabled_content_indices: enabled,
            selected_content_index: 0,
            flip_vertical: false,
            ethernet_interface: "eth0".to_owned(),
            modules,
            webserver_port: 8080,
            available_content: get_all_content_names(),
            dim: (MODULE_X_RES, MODULE_Y_RES, MODULE_Z_RES),
            status: Status::Unknown,
            audio_status: Status::Unknown,
            hardware_reset_requested: false,
        };
        proof {
            assert(state@.enabled_content_indices =~= seq![0u32, 1u32, 2u32, 3u32]);
            assert(state@.modules =~= seq![(0usize, 0usize, 1u8)]);
        }
        state
    }

    /// Settings as read from the settings file: the stored fields, with no
    /// content list, a zero image size and unknown status.
    pub fn from_saved(
        content_version: u32,
        enabled_content_indices: Vec<u32>,
        selected_content_index: usize,
        flip_vertical: bool,
        ethernet_interface: String,
        modules: Vec<(usize, usize, u8)>,
        webserver_port: u16,
    ) -> (state: Self)
        ensures
            state@ == (AppStateView {
                content_version,
                enabled_content_indices: enabled_content_indices@,
                selected_content_index,
                flip_vertical,
                ethernet_interface: ethernet_interface@,
                modules: modules@,
                webserver_port,
                available_content: Seq::empty(),
                dim: (0, 0, 0),
                status: Status::Unknown,
                audio_status: Status::Unknown,
                hardware_reset_requested: false,
            }),
    {
        let state = AppState {
            content_version,
            enabled_content_indices,
            selected_content_index,
            flip_vertical,
            ethernet_interface,
            modules,
            webserver_port,
            available_content: Vec::new(),
            dim: (0, 0, 0),
            status: Status::Unknown,
            audio_status: Status::Unknown,
            hardware_reset_requested: false,
        };
        proof {
            assert(state@.available_content =~= Seq::<Seq<char>>::empty());
        }
        state
    }

    /// The version of the content family list the settings refer to.
    pub fn content_version(&self) -> (version: u32)
        ensures
            version == self@.content_version,
    {
        self.content_version
    }

    /// Brings settings stored for the earlier content family list to the
    /// current one (version 1): the selection is mapped to the corresponding
    /// family, and all four families are enabled. Returns whether anything
    /// changed.
    pub fn migrate_content(&mut self) -> (migrated: bool)
        ensures
            migrated == (old(self)@.content_version < 1),
            final(self)@ == migrated_view(old(self)@),
    {
        if self.content_version >= 1 {
            return false;
        }
        self.selected_content_index = match self.selected_content_index {
            2 | 5 => 3,
            3 => 1,
            4 => 2,
            _ => 0,
        };
        let count = get_all_content_names().len() as u32;
        let mut enabled: Vec<u32> = Vec::new();
        let mut i: u32 = 0;
        while i < count
            invariant
                count == 4,
                0 <= i <= count,
                enabled@ == all_indices(i as nat),
            decreases count - i,
        {
            enabled.push(i);
            proof {
                assert(enabled@ =~= all_indices((i + 1) as nat));
            }
            i = i + 1;
        }
        self.enabled_content_indices = enabled;
        self.content_version = 1;
        true
    }

    /// The settings loaded from settings read from the settings file, and
    /// whether the read settings had to be migrated (and are to be saved again).
    pub fn load_parsed(read: AppState) -> (loaded: (AppState, bool))
        requires
            truncatable(encode_utf8(read@.ethernet_interface)),
            encode_utf8(read@.ethernet_interface).len() <= usize::MAX,
        ensures
            loaded.0@ == loaded_view(read@),
            loaded.1 == (read@.content_version < 1),
    {
        let mut read = read;
        let migrated = read.migrate_content();
        let AppState {
            enabled_content_indices,
            selected_content_index,
            flip_vertical,
            ethernet_interface,
            modules,
            webserver_port,
            ..
        } = read;
        let mut settings = AppState::new();
        settings.set_selected_content_index(selected_content_index);
        settings.set_enabled_content_indices(enabled_content_indices);
        settings.set_flip_vertical(flip_vertical);
        settings.set_ethernet_interface(ethernet_interface.as_str());
        settings.apply_module_layout(&modules);
        settings.set_webserver_port(webserver_port);
        (settings, migrated)
    }

    /// Takes over the modules placed on the grid and the image size they span,
    /// unless none is on the grid.
    fn apply_module_layout(&mut self, modules: &Vec<(usize, usize, u8)>)
        ensures
            ({
                let grid = grid_modules(modules@);
                final(self)@ == (AppStateView {
                    modules: if grid.len() > 0 {
                        grid
                    } else {
                        old(self)@.modules
                    },
                    dim: if grid.len() > 0 {
                        layout_dim(max_column(grid), max_row(grid))
                    } else {
                        old(self)@.dim
                    },
                    ..old(self)@
                })
            }),
    {
        let mut max_x: usize = 0;
        let mut max_y: usize = 0;
        let mut kept: Vec<(usize, usize, u8)> = Vec::new();
        let mut i: usize = 0;
        while i < modules.len()
            invariant
                0 <= i <= modules@.len(),
                kept@ == grid_modules(modules@.subrange(0, i as int)),
                max_x == max_column(kept@),
                max_y == max_row(kept@),
                max_x < 10,
                max_y < 10,
            decreases modules@.len() - i,
        {
            let module = modules[i];
            proof {
                let t = modules@.subrange(0, i + 1);
                assert(t.drop_last() == modules@.subrange(0, i as int));
            }
            if module.0 < MODULE_GRID_MAX && module.1 < MODULE_GRID_MAX {
                let ghost before = kept@;
                kept.push(module);
                proof {
                    assert(kept@.drop_last() == before);
                }
                if module.0 > max_x {
                    max_x = module.0;
                }
                if module.1 > max_y {
                    max_y = module.1;
                }
            }
            i = i + 1;
        }
        proof {
            assert(modules@.subrange(0, modules@.len() as int) == modules@);
        }
        if kept.len() > 0 {
            self.modules = kept;
            self.dim = ((max_x + 1) * MODULE_X_RES, (max_y + 1) * MODULE_Y_RES, MODULE_Z_RES);
        }
    }

    /// The enabled content families, in cycling order.
    pub fn enabled_content_indices(&self) -> (indices: &Vec<u32>)
        ensures
            indices@ == self@.enabled_content_indices,
    {
        &self.enabled_content_indices
    }

    /// Enables the families of `indices` that exist, in order, each once; if
    /// exactly one is enabled, it is also selected.
    pub fn set_enabled_content_indices(&mut self, indices: Vec<u32>)
        ensures
            ({
                let kept = kept_indices(indices@, old(self)@.available_content.len());
                final(self)@ == (AppStateView {
                    enabled_content_indices: kept,
                    selected_content_index: selection_after_enabling(
                        kept,
                        old(self)@.selected_content_index,
                    ),
                    ..old(self)@
                })
            }),
            final(self)@.enabled_content_indices.len() == 1 ==> final(self)@.selected_content_index
                == final(self)@.enabled_content_indices[0],
            final(self)@.enabled_content_indices.len() != 1 ==> final(self)@.selected_content_index
                == old(self)@.selected_content_index,
    {
        let limit = self.available_content.len();
        let mut kept: Vec<u32> = Vec::new();
        let mut i: usize = 0;
        while i < indices.len()
            invariant
                0 <= i <= indices@.len(),
                limit == old(self)@.available_content.len(),
                kept@ == kept_indices(indices@.subrange(0, i as int), limit as nat),
            decreases indices@.len() - i,
        {
            let index = indices[i];
            proof {
                let t = indices@.subrange(0, i + 1);
                assert(t.drop_last() == indices@.subrange(0, i as int));
            }
            if (index as usize) < limit && !contains_index(&kept, index) {
                kept.push(index);
            }
            i = i + 1;
        }
        proof {
            assert(indices@.subrange(0, indices@.len() as int) == indices@);
        }
        if kept.len() == 1 {
            self.selected_content_index = kept[0] as usize;
        }
        self.enabled_content_indices = kept;
    }

    /// The selected content family.
    pub fn selected_content_index(&self) -> (index: usize)
        ensures
            index == self@.selected_content_index,
    {
        self.selected_content_index
    }

    /// Selects the family `index` if it exists; otherwise nothing changes.
    pub fn set_selected_content_index(&mut self, index: usize)
        ensures
            index < old(self)@.available_content.len() ==> final(self)@ == (AppStateView {
                selected_content_index: index,
                ..old(self)@
            }),
            index >= old(self)@.available_content.len() ==> final(self)@ == old(self)@,
    {
        if index < self.available_content.len() {
            self.selected_content_index = index;
        }
    }

    /// Whether the image is flipped vertically.
    pub fn is_flip_vertical(&self) -> (flip: bool)
        ensures
            flip == self@.flip_vertical,
    {
        self.flip_vertical
    }

    /// Sets the vertical flip.
    pub fn set_flip_vertical(&mut self, flip_vertical: bool)
        ensures
            final(self)@ == (AppStateView { flip_vertical, ..old(self)@ }),
    {
        self.flip_vertical = flip_vertical;
    }

    /// The name of the Ethernet interface the modules are attached to.
    pub fn ethernet_interface(&self) -> (name: &str)
        ensures
            name@ == self@.ethernet_interface,
    {
        self.ethernet_interface.as_str()
    }

    /// Sets the interface name, cut to its first 20 bytes.
    pub fn set_ethernet_interface(&mut self, ethernet_interface: &str)
        requires
            truncatable(ethernet_interface.spec_bytes()),
            ethernet_interface.spec_bytes().len() <= usize::MAX,
        ensures
            final(self)@ == (AppStateView {
                ethernet_interface: stored_interface_name(ethernet_interface@),
                ..old(self)@
            }),
            encode_utf8(final(self)@.ethernet_interface) == truncated_name(
                ethernet_interface.spec_bytes(),
            ),
    {
        let ghost bytes = ethernet_interface.spec_bytes();
        let name = if ethernet_interface.len() > MAX_INTERFACE_NAME_LEN {
            let (head, _) = ethernet_interface.split_at(MAX_INTERFACE_NAME_LEN);
            let name = head.to_owned();
            assert(head.spec_bytes() == encode_utf8(head@));
            assert(encode_utf8(name@) == truncated_name(bytes));
            name
        } else {
            let name = ethernet_interface.to_owned();
            assert(encode_utf8(name@) == truncated_name(bytes));
            name
        };
        proof {
            encode_utf8_decode_utf8(name@);
            assert(bytes == encode_utf8(ethernet_interface@));
            assert(stored_interface_name(ethernet_interface@) == name@);
        }
        self.ethernet_interface = name;
    }

    /// The modules as `(column, row, jumper address)`.
    pub fn modules(&self) -> (modules: &Vec<(usize, usize, u8)>)
        ensures
            modules@ == self@.modules,
    {
        &self.modules
    }

    /// The jumper address of the first module.
    pub fn module0_address(&self) -> (address: u8)
        requires
            self@.modules.len() > 0,
        ensures
            address == self@.modules[0].2,
    {
        self.modules[0].2
    }

    /// Sets the jumper address of the first module.
    pub fn set_module0_address(&mut self, module0_address: u8)
        requires
            old(self)@.modules.len() > 0,
        ensures
            final(self)@ == (AppStateView {
                modules: old(self)@.modules.update(
                    0,
                    (old(self)@.modules[0].0, old(self)@.modules[0].1, module0_address),
                ),
                ..old(self)@
            }),
    {
        let first = self.modules[0];
        self.modules.set(0, (first.0, first.1, module0_address));
    }

    /// The port of the web server.
    pub fn webserver_port(&self) -> (port: u16)
        ensures
            port == self@.webserver_port,
    {
        self.webserver_port
    }

    /// Sets the port of the web server.
    pub fn set_webserver_port(&mut self, webserver_port: u16)
        ensures
            final(self)@ == (AppStateView { webserver_port, ..old(self)@ }),
    {
        self.webserver_port = webserver_port;
    }

    /// The names of the content families that can be enabled and selected.
    pub fn available_content(&self) -> (names: &Vec<String>)
        ensures
            string_views(names@) == self@.available_content,
    {
        &self.available_content
    }

    /// The voxel dimensions of the module layout.
    pub fn dim(&self) -> (dim: (usize, usize, usize))
        ensures
            dim == self@.dim,
    {
        self.dim
    }

    /// The display status.
    pub fn status(&self) -> (status: &Status)
        ensures
            *status == self@.status,
    {
        &self.status
    }

    /// Sets the display status.
    pub fn set_status(&mut self, status: Status)
        ensures
            final(self)@ == (AppStateView { status, ..old(self)@ }),
    {
        self.status = status;
    }

    /// The audio status.
    pub fn audio_status(&self) -> (status: &Status)
        ensures
            *status == self@.audio_status,
    {
        &self.audio_status
    }

    /// Sets the audio status.
    pub fn set_audio_status(&mut self, status: Status)
        ensures
            final(self)@ == (AppStateView { audio_status: status, ..old(self)@ }),
    {
        self.audio_status = status;
    }

    /// Asks the hardware driver to reset the modules.
    pub fn request_hardware_reset(&mut self)
        ensures
            final(self)@ == (AppStateView { hardware_reset_requested: true, ..old(self)@ }),
    {
        self.hardware_reset_requested = true;
    }

    /// Whether a hardware reset was asked for since the last call; the request
    /// is consumed.
    pub fn take_hardware_reset_request(&mut self) -> (requested: bool)
        ensures
            requested == old(self)@.hardware_reset_requested,
            final(self)@ == (AppStateView { hardware_reset_requested: false, ..old(self)@ }),
    {
        let requested = self.hardware_reset_requested;
        self.hardware_reset_requested = false;
        requested
    }
}

impl Default for AppState {
    /// The default settings.
    fn default() -> (state: Self)
        ensures
            state@ == default_view(),
    {
        AppState::new()
    }
}

fn contains_index(v: &Vec<u32>, x: u32) -> (found: bool)
    ensures
        found == v@.contains(x),
{
    let mut i: usize = 0;
    while i < v.len()
        invariant
            0 <= i <= v@.len(),
            forall|k: int| 0 <= k < i ==> v@[k] != x,
        decreases v@.len() - i,
    {
        if v[i] == x {
            assert(v@[i as int] == x);
            return true;
        }
        i = i + 1;
    }
    false
}

} // verus!
