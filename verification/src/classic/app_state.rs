//! The settings of the first-generation controller (but for its continuous
//! controls): unlike the current settings, enabled and selected content are
//! taken as given, and the status is a flag with a message.

use vstd::prelude::*;
use vstd::string::*;
use vstd::utf8::*;

use crate::app_state::{
    grid_modules, layout_dim, max_column, max_row, on_grid, stored_interface_name, truncatable,
    truncated_name, MAX_INTERFACE_NAME_LEN, MODULE_DEFAULT_ADDRESS, MODULE_GRID_MAX, MODULE_X_RES,
    MODULE_Y_RES, MODULE_Z_RES,
};
use crate::classic::content::{classic_content_names, get_all_content_names};
use crate::content::string_views;
use crate::persistence::{lemma_grid_modules, lemma_stored_name};

verus! {

/// The abstract first-generation settings and status.
pub struct ClassicStateView {
    pub enabled_content_indices: Seq<u32>,
    pub selected_content_index: usize,
    pub flip_vertical: bool,
    pub ethernet_interface: Seq<char>,
    pub modules: Seq<(usize, usize, u8)>,
    pub webserver_port: u16,
    pub available_content: Seq<Seq<char>>,
    pub dim: (usize, usize, usize),
    pub status: (bool, Seq<char>),
}

/// The first-generation settings (but for the continuous controls) and status.
pub struct AppState {
    enabled_content_indices: Vec<u32>,
    selected_content_index: usize,
    flip_vertical: bool,
    ethernet_interface: String,
    modules: Vec<(usize, usize, u8)>,
    webserver_port: u16,
    available_content: Vec<String>,
    dim: (usize, usize, usize),
    status: (bool, String),
}

impl View for AppState {
    type V = ClassicStateView;

    closed spec fn view(&self) -> ClassicStateView {
        ClassicStateView {
            enabled_content_indices: self.enabled_content_indices@,
            selected_content_index: self.selected_content_index,
            flip_vertical: self.flip_vertical,
            ethernet_interface: self.ethernet_interface@,
            modules: self.modules@,
            webserver_port: self.webserver_port,
            available_content: string_views(self.available_content@),
            dim: self.dim,
            status: (self.status.0, self.status.1@),
        }
    }
}

/// The default first-generation settings: Fill and Ramp enabled, Fill
/// selected, interface `eth0`, one module at (0, 0) with address 1, port 8080,
/// a 5 x 5 x 10 image, and the status "Nova is starting up." (not fine).
pub open spec fn classic_default_view() -> ClassicStateView {
    ClassicStateView {
        enabled_content_indices: seq![0u32, 1u32],
        selected_content_index: 0,
        flip_vertical: false,
        ethernet_interface: "eth0"@,
        modules: seq![(0usize, 0usize, 1u8)],
        webserver_port: 8080,
        available_content: classic_content_names(),
        dim: (5, 5, 10),
        status: (false, "Nova is starting up."@),
    }
}

/// The first-generation settings loaded from read settings: starting from the
/// defaults, the selection, the enabled content, the flip, the interface name
/// (cut to 20 bytes), the modules on the grid with the image size they span
/// (the default module if none is on the grid) and the port are taken over.
pub open spec fn classic_loaded_view(read: ClassicStateView) -> ClassicStateView {
    let grid = grid_modules(read.modules);
    ClassicStateView {
        enabled_content_indices: read.enabled_content_indices,
        selected_content_index: read.selected_content_index,
        flip_vertical: read.flip_vertical,
        ethernet_interface: stored_interface_name(read.ethernet_interface),
        modules: if grid.len() > 0 {
            grid
        } else {
            classic_default_view().modules
        },
        dim: if grid.len() > 0 {
            layout_dim(max_column(grid), max_row(grid))
        } else {
            classic_default_view().dim
        },
        webserver_port: read.webserver_port,
        ..classic_default_view()
    }
}

/// What the first-generation settings file holds of the settings, as read
/// back: the stored fields, no content list, a zero image size and an empty,
/// not-fine status.
pub open spec fn classic_saved_view(s: ClassicStateView) -> ClassicStateView {
    ClassicStateView {
        available_content: Seq::empty(),
        dim: (0, 0, 0),
        status: (false, Seq::empty()),
        ..s
    }
}

/// Consistent first-generation settings: the content list, an interface name
/// of at most 20 bytes, at least one module and all modules on the grid, and
/// an image size that spans the modules.
pub open spec fn classic_consistent(s: ClassicStateView) -> bool {
    &&& s.available_content == classic_content_names()
    &&& encode_utf8(s.ethernet_interface).len() <= 20
    &&& s.modules.len() > 0
    &&& (forall|i: int| 0 <= i < s.modules.len() ==> on_grid(#[trigger] s.modules[i]))
    &&& s.dim == layout_dim(max_column(s.modules), max_row(s.modules))
}

/// Loading keeps the stored choices: whatever settings were read, the loaded
/// first-generation settings have the read selection, enabled content, flip and
/// port.
pub proof fn lemma_classic_load_keeps_stored_choices(read: ClassicStateView)
    ensures
        classic_loaded_view(read).selected_content_index == read.selected_content_index,
        classic_loaded_view(read).enabled_content_indices == read.enabled_content_indices,
        classic_loaded_view(read).flip_vertical == read.flip_vertical,
        classic_loaded_view(read).webserver_port == read.webserver_port,
{
}

/// Saved first-generation settings load back: consistent settings, written to
/// the settings file and loaded from it, are the same settings (their
/// selection, enabled content, flip, interface name, modules, port, content
/// list and image size), with the status of a fresh start.
pub proof fn lemma_classic_saved_settings_load_back(s: ClassicStateView)
    requires
        classic_consistent(s),
    ensures
        truncatable(encode_utf8(classic_saved_view(s).ethernet_interface)),
        classic_loaded_view(classic_saved_view(s)) == (ClassicStateView {
            status: classic_default_view().status,
            ..s
        }),
{
    let saved = classic_saved_view(s);
    lemma_grid_modules(s.modules);
    lemma_stored_name(s.ethernet_interface);
    let loaded = classic_loaded_view(saved);
    assert(grid_modules(s.modules) == s.modules);
    assert(loaded.modules == s.modules);
    assert(loaded.dim == s.dim);
    assert(loaded.ethernet_interface == s.ethernet_interface);
    assert(loaded.available_content == s.available_content);
}

/// The default first-generation settings are consistent.
pub proof fn lemma_classic_default_is_consistent()
    ensures
        classic_consistent(classic_default_view()),
{
    let d = classic_default_view();
    reveal_strlit("eth0");
    assert(encode_utf8(d.ethernet_interface).len() == 4) by {
        assert(is_ascii_chars(d.ethernet_interface));
        is_ascii_chars_encode_utf8(d.ethernet_interface);
    }
    assert(on_grid(d.modules[0]));
    assert(d.modules.drop_last().len() == 0);
    reveal_with_fuel(max_column, 2);
    reveal_with_fuel(max_row, 2);
    assert(max_column(d.modules) == 0);
    assert(max_row(d.modules) == 0);
    assert(d.dim == layout_dim(0, 0));
}

impl AppState {
    /// The default first-generation settings.
    pub fn new() -> (state: Self)
        ensures
            state@ == classic_default_view(),
    {
        let mut enabled: Vec<u32> = Vec::new();
        enabled.push(0);
        enabled.push(1);
        let mut modules: Vec<(usize, usize, u8)> = Vec::new();
        modules.push((0, 0, MODULE_DEFAULT_ADDRESS));
        let state = AppState {
            enabled_content_indices: enabled,
            selected_content_index: 0,
            flip_vertical: false,
            ethernet_interface: "eth0".to_owned(),
            modules,
            webserver_port: 8080,
            available_content: get_all_content_names(),
            dim: (MODULE_X_RES, MODULE_Y_RES, MODULE_Z_RES),
            status: (false, "Nova is starting up.".to_owned()),
        };
        proof {
            assert(state@.enabled_content_indices =~= seq![0u32, 1u32]);
            assert(state@.modules =~= seq![(0usize, 0usize, 1u8)]);
        }
        state
    }

    /// Settings as read from the settings file: the stored fields, no content
    /// list, a zero image size and an empty status.
    pub fn from_saved(
        enabled_content_indices: Vec<u32>,
        selected_content_index: usize,
        flip_vertical: bool,
        ethernet_interface: String,
        modules: Vec<(usize, usize, u8)>,
        webserver_port: u16,
    ) -> (state: Self)
        ensures
            state@ == (ClassicStateView {
                enabled_content_indices: enabled_content_indices@,
                selected_content_index,
                flip_vertical,
                ethernet_interface: ethernet_interface@,
                modules: modules@,
                webserver_port,
                available_content: Seq::empty(),
                dim: (0, 0, 0),
                status: (false, Seq::empty()),
            }),
    {
        let state = AppState {
            enabled_content_indices,
            selected_content_index,
            flip_vertical,
            ethernet_interface,
            modules,
            webserver_port,
            available_content: Vec::new(),
            dim: (0, 0, 0),
            status: (false, String::new()),
        };
        proof {
            assert(state@.available_content =~= Seq::<Seq<char>>::empty());
        }
        state
    }

    /// The settings loaded from settings read from the settings file.
    pub fn load_parsed(read: AppState) -> (loaded: AppState)
        requires
            truncatable(encode_utf8(read@.ethernet_interface)),
            encode_utf8(read@.ethernet_interface).len() <= usize::MAX,
        ensures
            loaded@ == classic_loaded_view(read@),
    {
        let AppState {
            enabled_content_indices,
            selected_content_index,
            flip_vertical,
            ethernet_interface,
            modules,
            webserver_port,
            ..
        } = read;
        let mut settings = AppState::new();
        settings.set_selected_content_index(selected_content_index);
        settings.set_enabled_content_indices(enabled_content_indices);
        settings.set_flip_vertical(flip_vertical);
        settings.set_ethernet_interface(ethernet_interface.as_str());
        settings.apply_module_layout(&modules);
        settings.set_webserver_port(webserver_port);
        settings
    }

    fn apply_module_layout(&mut self, modules: &Vec<(usize, usize, u8)>)
        ensures
            ({
                let grid = grid_modules(modules@);
                final(self)@ == (ClassicStateView {
                    modules: if grid.len() > 0 {
                        grid
                    } else {
                        old(self)@.modules
                    },
                    dim: if grid.len() > 0 {
                        layout_dim(max_column(grid), max_row(grid))
                    } else {
                        old(self)@.dim
                    },
                    ..old(self)@
                })
            }),
    {
        let mut max_x: usize = 0;
        let mut max_y: usize = 0;
        let mut kept: Vec<(usize, usize, u8)> = Vec::new();
        let mut i: usize = 0;
        while i < modules.len()
            invariant
                0 <= i <= modules@.len(),
                kept@ == grid_modules(modules@.subrange(0, i as int)),
                max_x == max_column(kept@),
                max_y == max_row(kept@),
                max_x < 10,
                max_y < 10,
            decreases modules@.len() - i,
        {
            let module = modules[i];
            proof {
                let t = modules@.subrange(0, i + 1);
                assert(t.drop_last() == modules@.subrange(0, i as int));
            }
            if module.0 < MODULE_GRID_MAX && module.1 < MODULE_GRID_MAX {
                let ghost before = kept@;
                kept.push(module);
                proof {
                    assert(kept@.drop_last() == before);
                }
                if module.0 > max_x {
                    max_x = module.0;
                }
                if module.1 > max_y {
                    max_y = module.1;
                }
            }
            i = i + 1;
        }
        proof {
            assert(modules@.subrange(0, modules@.len() as int) == modules@);
        }
        if kept.len() > 0 {
            self.modules = kept;
            self.dim = ((max_x + 1) * MODULE_X_RES, (max_y + 1) * MODULE_Y_RES, MODULE_Z_RES);
        }
    }

    /// The enabled content.
    pub fn enabled_content_indices(&self) -> (indices: &Vec<u32>)
        ensures
            indices@ == self@.enabled_content_indices,
    {
        &self.enabled_content_indices
    }

    /// Enables the given content, as given.
    pub fn set_enabled_content_indices(&mut self, indices: Vec<u32>)
        ensures
            final(self)@ == (ClassicStateView { enabled_content_indices: indices@, ..old(self)@ }),
    {
        self.enabled_content_indices = indices;
    }

    /// The selected content.
    pub fn selected_content_index(&self) -> (index: usize)
        ensures
            index == self@.selected_content_index,
    {
        self.selected_content_index
    }

    /// Selects the given content, as given.
    pub fn set_selected_content_index(&mut self, index: usize)
        ensures
            final(self)@ == (ClassicStateView { selected_content_index: index, ..old(self)@ }),
    {
        self.selected_content_index = index;
    }

    /// Whether the image is flipped vertically.
    pub fn flip_vertical(&self) -> (flip: bool)
        ensures
            flip == self@.flip_vertical,
    {
        self.flip_vertical
    }

    /// Sets the vertical flip.
    pub fn set_flip_vertical(&mut self, flip_vertical: bool)
        ensures
            final(self)@ == (ClassicStateView { flip_vertical, ..old(self)@ }),
    {
        self.flip_vertical = flip_vertical;
    }

    /// The name of the Ethernet interface.
    pub fn ethernet_interface(&self) -> (name: &str)
        ensures
            name@ == self@.ethernet_interface,
    {
        self.ethernet_interface.as_str()
    }

    /// Sets the interface name, cut to its first 20 bytes.
    pub fn set_ethernet_interface(&mut self, ethernet_interface: &str)
        requires
            truncatable(ethernet_interface.spec_bytes()),
            ethernet_interface.spec_bytes().len() <= usize::MAX,
        ensures
            final(self)@ == (ClassicStateView {
                ethernet_interface: stored_interface_name(ethernet_interface@),
                ..old(self)@
            }),
    {
        let ghost bytes = ethernet_interface.spec_bytes();
        let name = if ethernet_interface.len() > MAX_INTERFACE_NAME_LEN {
            let (head, _) = ethernet_interface.split_at(MAX_INTERFACE_NAME_LEN);
            let name = head.to_owned();
            assert(head.spec_bytes() == encode_utf8(head@));
            assert(encode_utf8(name@) == truncated_name(bytes));
            name
        } else {
            let name = ethernet_interface.to_owned();
            assert(encode_utf8(name@) == truncated_name(bytes));
            name
        };
        proof {
            encode_utf8_decode_utf8(name@);
            assert(bytes == encode_utf8(ethernet_interface@));
        }
        self.ethernet_interface = name;
    }

    /// The modules of the layout: column, row and jumper address.
    pub fn modules(&self) -> (modules: &Vec<(usize, usize, u8)>)
        ensures
            modules@ == self@.modules,
    {
        &self.modules
    }

    /// The jumper address of the first module.
    pub fn module0_address(&self) -> (address: u8)
        requires
            self@.modules.len() > 0,
        ensures
            address == self@.modules[0].2,
    {
        self.modules[0].2
    }

    /// Sets the jumper address of the first module.
    pub fn set_module0_address(&mut self, module0_address: u8)
        requires
            old(self)@.modules.len() > 0,
        ensures
            final(self)@ == (ClassicStateView {
                modules: old(self)@.modules.update(
                    0,
                    (old(self)@.modules[0].0, old(self)@.modules[0].1, module0_address),
                ),
                ..old(self)@
            }),
    {
        let first = self.modules[0];
        self.modules.set(0, (first.0, first.1, module0_address));
    }

    /// The port of the web server.
    pub fn webserver_port(&self) -> (port: u16)
        ensures
            port == self@.webserver_port,
    {
        self.webserver_port
    }

    /// Sets the port of the web server.
    pub fn set_webserver_port(&mut self, webserver_port: u16)
        ensures
            final(self)@ == (ClassicStateView { webserver_port, ..old(self)@ }),
    {
        self.webserver_port = webserver_port;
    }

    /// The names of the content.
    pub fn available_content(&self) -> (names: &Vec<String>)
        ensures
            string_views(names@) == self@.available_content,
    {
        &self.available_content
    }

    /// The voxel dimensions of the module layout.
    pub fn dim(&self) -> (dim: (usize, usize, usize))
        ensures
            dim == self@.dim,
    {
        self.dim
    }

    /// The status: whether all is fine, and a message.
    pub fn status(&self) -> (status: (bool, &str))
        ensures
            status.0 == self@.status.0,
            status.1@ == self@.status.1,
    {
        (self.status.0, self.status.1.as_str())
    }

    /// Sets the status.
    pub fn set_status(&mut self, status: (bool, &str))
        ensures
            final(self)@ == (ClassicStateView { status: (status.0, status.1@), ..old(self)@ }),
    {
        self.status = (status.0, status.1.to_owned());
    }
}

impl Default for AppState {
    /// The default first-generation settings.
    fn default() -> (state: Self)
        ensures
            state@ == classic_default_view(),
    {
        AppState::new()
    }
}

} // verus!
