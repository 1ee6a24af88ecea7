//! What the settings keep across operations and restarts: every operation
//! leaves the settings consistent, and consistent settings that are saved load
//! back unchanged (but for the status, which is not saved).

use vstd::prelude::*;
use vstd::string::*;
use vstd::utf8::*;

use crate::app_state::{
    grid_modules, kept_indices, layout_dim, loaded_view, max_column, max_row, migrated_view, on_grid,
    default_view, selection_after_enabling, stored_interface_name, truncatable, truncated_name, AppStateView,
    Status,
};
use crate::content::content_names;

verus! {

/// Consistent settings: the current content list, an existing family
/// selected, each enabled family existing and enabled once, an interface name
/// of at most 20 bytes, at least one module and all modules on the grid, and
/// an image size that spans the modules.
pub open spec fn consistent(s: AppStateView) -> bool {
    &&& s.content_version == 1
    &&& s.available_content == content_names()
    &&& s.selected_content_index < 4
    &&& s.enabled_content_indices.no_duplicates()
    &&& (forall|i: int|
        0 <= i < s.enabled_content_indices.len() ==> #[trigger] s.enabled_content_indices[i] < 4)
    &&& encode_utf8(s.ethernet_interface).len() <= 20
    &&& s.modules.len() > 0
    &&& (forall|i: int| 0 <= i < s.modules.len() ==> on_grid(#[trigger] s.modules[i]))
    &&& s.dim == layout_dim(max_column(s.modules), max_row(s.modules))
}

/// What the settings file holds of the settings, as read back: the stored
/// fields, no content list, a zero image size and unknown status.
pub open spec fn saved_view(s: AppStateView) -> AppStateView {
    AppStateView {
        available_content: Seq::empty(),
        dim: (0, 0, 0),
        status: Status::Unknown,
        audio_status: Status::Unknown,
        hardware_reset_requested: false,
        ..s
    }
}

/// The settings after a restart: the status is unknown again and no reset is pending.
pub open spec fn restarted_view(s: AppStateView) -> AppStateView {
    AppStateView {
        status: Status::Unknown,
        audio_status: Status::Unknown,
        hardware_reset_requested: false,
        ..s
    }
}

proof fn lemma_kept_indices_props(input: Seq<u32>, limit: nat)
    ensures
        kept_indices(input, limit).no_duplicates(),
        forall|i: int|
            0 <= i < kept_indices(input, limit).len() ==> #[trigger] kept_indices(input, limit)[i]
                < limit,
        forall|x: u32|
            kept_indices(input, limit).contains(x) <==> (input.contains(x) && x < limit),
    decreases input.len(),
{
    if input.len() > 0 {
        let rest = input.drop_last();
        lemma_kept_indices_props(rest, limit);
        let kept = kept_indices(rest, limit);
        let x = input.last();
        assert forall|y: u32| input.contains(y) <==> (rest.contains(y) || y == x) by {
            if input.contains(y) {
                let k = choose|k: int| 0 <= k < input.len() && input[k] == y;
                if k < rest.len() {
                    assert(rest[k] == y);
                }
            }
            if rest.contains(y) {
                let k = choose|k: int| 0 <= k < rest.len() && rest[k] == y;
                assert(input[k] == y);
            }
            if y == x {
                assert(input[input.len() - 1] == y);
            }
        }
        if x < limit && !kept.contains(x) {
            let pushed = kept.push(x);
            assert forall|y: u32| pushed.contains(y) <==> (kept.contains(y) || y == x) by {
                if pushed.contains(y) {
                    let k = choose|k: int| 0 <= k < pushed.len() && pushed[k] == y;
                    if k < kept.len() {
                        assert(kept[k] == y);
                    }
                }
                if kept.contains(y) {
                    let k = choose|k: int| 0 <= k < kept.len() && kept[k] == y;
                    assert(pushed[k] == y);
                }
                if y == x {
                    assert(pushed[pushed.len() - 1] == y);
                }
            }
            assert forall|i: int, j: int|
                0 <= i < pushed.len() && 0 <= j < pushed.len() && i != j implies pushed[i]
                != pushed[j] by {
                if i < kept.len() && j < kept.len() {
                } else if i < kept.len() {
                    assert(kept.contains(pushed[i]));
                } else if j < kept.len() {
                    assert(kept.contains(pushed[j]));
                }
            }
        }
    }
}

proof fn lemma_kept_indices_fixed(s: Seq<u32>, limit: nat)
    requires
        s.no_duplicates(),
        forall|i: int| 0 <= i < s.len() ==> #[trigger] s[i] < limit,
    ensures
        kept_indices(s, limit) == s,
    decreases s.len(),
{
    if s.len() > 0 {
        let rest = s.drop_last();
        assert(rest.no_duplicates());
        lemma_kept_indices_fixed(rest, limit);
        let x = s.last();
        if rest.contains(x) {
            let k = choose|k: int| 0 <= k < rest.len() && rest[k] == x;
            assert(s[k] == s[s.len() - 1]);
        }
        assert(rest.push(x) == s);
    }
}

/// Enabling content families keeps each family that exists once, in the order
/// of the request, and nothing else; enabling the kept list again changes
/// nothing.
pub proof fn lemma_enabled_indices_are_valid(input: Seq<u32>, limit: nat)
    ensures
        kept_indices(input, limit).no_duplicates(),
        forall|i: int|
            0 <= i < kept_indices(input, limit).len() ==> #[trigger] kept_indices(input, limit)[i]
                < limit,
        forall|x: u32|
            kept_indices(input, limit).contains(x) <==> (input.contains(x) && x < limit),
        kept_indices(kept_indices(input, limit), limit) == kept_indices(input, limit),
{
    lemma_kept_indices_props(input, limit);
    lemma_kept_indices_fixed(kept_indices(input, limit), limit);
}

/// Migration happens at most once: migrated settings are of the current
/// version, and migrating them again changes nothing.
pub proof fn lemma_migration_is_idempotent(s: AppStateView)
    ensures
        migrated_view(s).content_version >= 1,
        migrated_view(migrated_view(s)) == migrated_view(s),
{
}

pub(crate) proof fn lemma_grid_modules(modules: Seq<(usize, usize, u8)>)
    ensures
        forall|i: int|
            0 <= i < grid_modules(modules).len() ==> on_grid(#[trigger] grid_modules(modules)[i]),
        (forall|i: int| 0 <= i < modules.len() ==> on_grid(#[trigger] modules[i])) ==> grid_modules(
            modules,
        ) == modules,
    decreases modules.len(),
{
    if modules.len() > 0 {
        let rest = modules.drop_last();
        lemma_grid_modules(rest);
        let kept = grid_modules(rest);
        if on_grid(modules.last()) {
            let pushed = kept.push(modules.last());
            assert forall|i: int| 0 <= i < pushed.len() implies on_grid(#[trigger] pushed[i]) by {
                if i < kept.len() {
                    assert(pushed[i] == kept[i]);
                }
            }
        }
        if forall|i: int| 0 <= i < modules.len() ==> on_grid(#[trigger] modules[i]) {
            assert forall|i: int| 0 <= i < rest.len() implies on_grid(#[trigger] rest[i]) by {
                assert(rest[i] == modules[i]);
            }
            assert(on_grid(modules[modules.len() - 1]));
            assert(rest.push(modules.last()) == modules);
        }
    }
}

pub(crate) proof fn lemma_max_on_grid(modules: Seq<(usize, usize, u8)>)
    requires
        forall|i: int| 0 <= i < modules.len() ==> on_grid(#[trigger] modules[i]),
    ensures
        max_column(modules) < 10,
        max_row(modules) < 10,
    decreases modules.len(),
{
    if modules.len() > 0 {
        let rest = modules.drop_last();
        assert forall|i: int| 0 <= i < rest.len() implies on_grid(#[trigger] rest[i]) by {
            assert(rest[i] == modules[i]);
        }
        lemma_max_on_grid(rest);
        assert(on_grid(modules[modules.len() - 1]));
    }
}

proof fn lemma_max_ignores_address(a: Seq<(usize, usize, u8)>, b: Seq<(usize, usize, u8)>)
    requires
        a.len() == b.len(),
        forall|i: int| 0 <= i < a.len() ==> a[i].0 == b[i].0 && a[i].1 == b[i].1,
    ensures
        max_column(a) == max_column(b),
        max_row(a) == max_row(b),
    decreases a.len(),
{
    if a.len() > 0 {
        lemma_max_ignores_address(a.drop_last(), b.drop_last());
    }
}

pub(crate) proof fn lemma_stored_name(name: Seq<char>)
    requires
        truncatable(encode_utf8(name)),
    ensures
        encode_utf8(stored_interface_name(name)) == truncated_name(encode_utf8(name)),
        encode_utf8(stored_interface_name(name)).len() <= 20,
        encode_utf8(name).len() <= 20 ==> stored_interface_name(name) == name,
{
    let bytes = encode_utf8(name);
    encode_utf8_valid_utf8(name);
    encode_utf8_decode_utf8(name);
    if bytes.len() > 20 {
        valid_utf8_split(bytes, 20);
    }
    decode_utf8_encode_utf8(truncated_name(bytes));
}

/// The default settings are consistent.
pub proof fn lemma_default_is_consistent()
    ensures
        consistent(default_view()),
{
    let d = default_view();
    reveal_strlit("eth0");
    assert(encode_utf8(d.ethernet_interface).len() == 4) by {
        assert(is_ascii_chars(d.ethernet_interface));
        is_ascii_chars_encode_utf8(d.ethernet_interface);
    }
    assert(d.enabled_content_indices.no_duplicates());
    assert(on_grid(d.modules[0]));
    assert(d.modules.drop_last().len() == 0);
    reveal_with_fuel(max_column, 2);
    reveal_with_fuel(max_row, 2);
    assert(max_column(d.modules) == 0);
    assert(max_row(d.modules) == 0);
    assert(d.dim == layout_dim(0, 0));
    assert(d.available_content == content_names());
    assert(d.selected_content_index < 4);
    assert(forall|i: int|
        0 <= i < d.enabled_content_indices.len() ==> #[trigger] d.enabled_content_indices[i] < 4);
}

/// Settings loaded from whatever was read are consistent.
pub proof fn lemma_loaded_settings_are_consistent(read: AppStateView)
    requires
        truncatable(encode_utf8(migrated_view(read).ethernet_interface)),
    ensures
        consistent(loaded_view(read)),
{
    lemma_default_is_consistent();
    let m = migrated_view(read);
    lemma_kept_indices_props(m.enabled_content_indices, 4);
    lemma_grid_modules(m.modules);
    lemma_stored_name(m.ethernet_interface);
    let kept = kept_indices(m.enabled_content_indices, 4);
    if kept.len() == 1 {
        assert(kept[0] < 4);
    }
}

/// Every operation on consistent settings leaves them consistent: enabling
/// families, selecting an existing family, flipping, renaming the interface
/// (cut to 20 bytes), readdressing the first module, changing the port or a
/// status, requesting or taking a reset, and migrating.
pub proof fn lemma_operations_keep_consistency(
    s: AppStateView,
    indices: Seq<u32>,
    index: usize,
    flip_vertical: bool,
    name: Seq<char>,
    address: u8,
    port: u16,
    status: Status,
    requested: bool,
)
    requires
        consistent(s),
    ensures
        consistent(
            ({
                let kept = kept_indices(indices, s.available_content.len());
                AppStateView {
                    enabled_content_indices: kept,
                    selected_content_index: selection_after_enabling(
                        kept,
                        s.selected_content_index,
                    ),
                    ..s
                }
            }),
        ),
        index < s.available_content.len() ==> consistent(
            (AppStateView { selected_content_index: index, ..s }),
        ),
        consistent((AppStateView { flip_vertical, ..s })),
        truncatable(encode_utf8(name)) ==> consistent(
            (AppStateView { ethernet_interface: stored_interface_name(name), ..s }),
        ),
        consistent(
            (AppStateView {
                modules: s.modules.update(0, (s.modules[0].0, s.modules[0].1, address)),
                ..s
            }),
        ),
        consistent((AppStateView { webserver_port: port, ..s })),
        consistent((AppStateView { status, ..s })),
        consistent((AppStateView { audio_status: status, ..s })),
        consistent((AppStateView { hardware_reset_requested: requested, ..s })),
        migrated_view(s) == s,
{
    lemma_kept_indices_props(indices, 4);
    let kept = kept_indices(indices, 4);
    if kept.len() == 1 {
        assert(kept[0] < 4);
    }
    if truncatable(encode_utf8(name)) {
        lemma_stored_name(name);
    }
    let updated = s.modules.update(0, (s.modules[0].0, s.modules[0].1, address));
    lemma_max_ignores_address(s.modules, updated);
    assert forall|i: int| 0 <= i < updated.len() implies on_grid(#[trigger] updated[i]) by {
        assert(on_grid(s.modules[i]));
    }
}

/// Saved settings load back: consistent settings, written to the settings file
/// and loaded from it, are the same settings, with the status unknown and no
/// reset pending. (Not for settings with a single enabled family and another
/// one selected: loading selects the single enabled family.)
pub proof fn lemma_saved_settings_load_back(s: AppStateView)
    requires
        consistent(s),
        !(s.enabled_content_indices.len() == 1 && s.selected_content_index
            != s.enabled_content_indices[0] as usize),
    ensures
        truncatable(encode_utf8(saved_view(s).ethernet_interface)),
        loaded_view(saved_view(s)) == restarted_view(s),
{
    lemma_default_is_consistent();
    let saved = saved_view(s);
    assert(migrated_view(saved) == saved);
    lemma_kept_indices_fixed(s.enabled_content_indices, 4);
    lemma_grid_modules(s.modules);
    lemma_stored_name(s.ethernet_interface);
    let loaded = loaded_view(saved);
    assert(loaded.enabled_content_indices == s.enabled_content_indices);
    assert(loaded.selected_content_index == s.selected_content_index);
    assert(loaded.modules == s.modules);
    assert(loaded.dim == s.dim);
    assert(loaded.ethernet_interface == s.ethernet_interface);
    assert(loaded == restarted_view(s));
}

} // verus!
