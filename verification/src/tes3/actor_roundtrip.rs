//! What the fields written for an actor read back as.

use vstd::prelude::*;
use vstd::utf8::encode_utf8;

use crate::bytes::{le_bytes, le_value, lemma_le_bytes_len, lemma_le_value_of_bytes, pow256};
use crate::plugin::FieldModel;
use crate::strings::{lemma_padded_string_roundtrip, no_nul, zeros};
use crate::tags::{AIDT, AI_A, AI_E, AI_F, AI_T, AI_W, CNDT, DNAM, DODT, FNAM, MODL, NPCO, NPCS, SCRI};
use crate::tes3::actor::{
    actor_step, actor_step_fn, ai_settings_bytes, ai_settings_from, destination_bytes,
    destination_fields, destination_from, destinations_fields, fits, has_item, insert_item,
    item_added, item_field, items_unique, inventory_fields, package_fields, packages_fields,
    named_string, padded, scalar_field, scalar_fields, spells_fields, state_step, state_step_fn,
    with_destination_cell, zstring_writable,
    ActorModel, ActorStateModel, AiSettings, DestinationModel, SERVICE_FLAGS_MASK,
};
use crate::tes3::field::zstring_of;
use crate::tes3::form::{fold_fields, word};
use crate::tes3::package::{package_from_field, u16_at, with_cell_name, PackageModel};
use crate::tes3::player::padded_string_at;
use crate::tes3::reference::lemma_word_of;
use crate::tes3::roundtrip::{lemma_fold_append, lemma_fold_one, lemma_fold_two, lemma_zstring_roundtrip};

verus! {

/// A string can be written in 32 zero-padded bytes and read back: it fits and holds no zero
/// byte.
pub open spec fn id_writable(s: Seq<char>) -> bool {
    fits(s, 32) && no_nul(encode_utf8(s))
}

/// A package can be written and read back: its IDs and cell name can, and a wander package has
/// its 8 idle chances.
pub open spec fn package_readable(p: PackageModel) -> bool {
    match p {
        PackageModel::Activate(s) => id_writable(s),
        PackageModel::Escort { id, cell, .. } => id_writable(id) && match cell {
            Some(c) => no_nul(encode_utf8(c)),
            None => true,
        },
        PackageModel::Follow { id, cell, .. } => id_writable(id) && match cell {
            Some(c) => no_nul(encode_utf8(c)),
            None => true,
        },
        PackageModel::Travel { .. } => true,
        PackageModel::Wander { idles, .. } => idles.len() == 8,
    }
}

/// A package without its cell name.
pub open spec fn without_cell(p: PackageModel) -> PackageModel {
    match p {
        PackageModel::Escort { x, y, z, duration, id, .. } => PackageModel::Escort {
            x,
            y,
            z,
            duration,
            id,
            cell: None,
        },
        PackageModel::Follow { x, y, z, duration, id, .. } => PackageModel::Follow {
            x,
            y,
            z,
            duration,
            id,
            cell: None,
        },
        _ => p,
    }
}

/// A string padded to 32 bytes at `off` reads back as itself.
proof fn lemma_padded_at(d: Seq<u8>, off: int, s: Seq<char>)
    requires
        id_writable(s),
        0 <= off,
        off + 32 <= d.len(),
        d.subrange(off, off + 32) == padded(s, 32),
    ensures
        padded_string_at(d, off, 32) == Some(s),
{
    lemma_padded_string_roundtrip(s, (32 - encode_utf8(s).len()) as nat);
}

/// The `u16` written as two little-endian bytes reads back.
proof fn lemma_u16_of(d: Seq<u8>, off: int, v: u16)
    requires
        0 <= off,
        off + 2 <= d.len(),
        d.subrange(off, off + 2) == le_bytes(v as nat, 2),
    ensures
        u16_at(d, off) == v,
{
    reveal_with_fuel(pow256, 3);
    lemma_le_value_of_bytes(v as nat, 2);
}

/// The package's own field reads back as the package without its cell name.
proof fn lemma_package_head(p: PackageModel)
    requires
        package_readable(p),
    ensures
        package_fields(p).len() >= 1,
        package_from_field(package_fields(p)[0]) == Some(without_cell(p)),
{
    let h = package_fields(p)[0];
    let d = h.data;
    match p {
        PackageModel::Activate(s) => {
            lemma_le_bytes_len(0, 0);
            assert(d.subrange(0, 32) =~= padded(s, 32));
            lemma_padded_at(d, 0, s);
        },
        PackageModel::Escort { x, y, z, duration, id, cell } => {
            lemma_le_bytes_len(x as nat, 4);
            lemma_le_bytes_len(y as nat, 4);
            lemma_le_bytes_len(z as nat, 4);
            lemma_le_bytes_len(duration as nat, 2);
            assert(d.subrange(0, 4) =~= le_bytes(x as nat, 4));
            assert(d.subrange(4, 8) =~= le_bytes(y as nat, 4));
            assert(d.subrange(8, 12) =~= le_bytes(z as nat, 4));
            assert(d.subrange(12, 14) =~= le_bytes(duration as nat, 2));
            assert(d.subrange(14, 46) =~= padded(id, 32));
            lemma_word_of(d, 0, x);
            lemma_word_of(d, 1, y);
            lemma_word_of(d, 2, z);
            lemma_u16_of(d, 12, duration);
            lemma_padded_at(d, 14, id);
        },
        PackageModel::Follow { x, y, z, duration, id, cell } => {
            lemma_le_bytes_len(x as nat, 4);
            lemma_le_bytes_len(y as nat, 4);
            lemma_le_bytes_len(z as nat, 4);
            lemma_le_bytes_len(duration as nat, 2);
            assert(d.subrange(0, 4) =~= le_bytes(x as nat, 4));
            assert(d.subrange(4, 8) =~= le_bytes(y as nat, 4));
            assert(d.subrange(8, 12) =~= le_bytes(z as nat, 4));
            assert(d.subrange(12, 14) =~= le_bytes(duration as nat, 2));
            assert(d.subrange(14, 46) =~= padded(id, 32));
            lemma_word_of(d, 0, x);
            lemma_word_of(d, 1, y);
            lemma_word_of(d, 2, z);
            lemma_u16_of(d, 12, duration);
            lemma_padded_at(d, 14, id);
        },
        PackageModel::Travel { x, y, z } => {
            lemma_le_bytes_len(x as nat, 4);
            lemma_le_bytes_len(y as nat, 4);
            lemma_le_bytes_len(z as nat, 4);
            assert(d.subrange(0, 4) =~= le_bytes(x as nat, 4));
            assert(d.subrange(4, 8) =~= le_bytes(y as nat, 4));
            assert(d.subrange(8, 12) =~= le_bytes(z as nat, 4));
            lemma_word_of(d, 0, x);
            lemma_word_of(d, 1, y);
            lemma_word_of(d, 2, z);
        },
        PackageModel::Wander { distance, duration, time_of_day, idles } => {
            lemma_le_bytes_len(distance as nat, 2);
            lemma_le_bytes_len(duration as nat, 2);
            assert(d.subrange(0, 2) =~= le_bytes(distance as nat, 2));
            assert(d.subrange(2, 4) =~= le_bytes(duration as nat, 2));
            assert(d.subrange(5, 13) =~= idles);
            lemma_u16_of(d, 0, distance);
            lemma_u16_of(d, 2, duration);
        },
    }
}

/// Reading the fields written for one package adds it to the state's packages.
pub proof fn lemma_package_roundtrip(m: ActorStateModel, p: PackageModel)
    requires
        package_readable(p),
    ensures
        fold_fields(m, state_step_fn(), package_fields(p)) == Some(
            ActorStateModel { packages: m.packages.push(p), ..m },
        ),
{
    lemma_package_head(p);
    let h = package_fields(p)[0];
    let step = state_step_fn();
    let m1 = ActorStateModel { packages: m.packages.push(without_cell(p)), ..m };
    assert(step(m, h) == Some(m1));
    match p {
        PackageModel::Escort { cell: Some(c), .. } => {
            lemma_zstring_roundtrip(c);
            let g = FieldModel { name: CNDT@, data: zstring_of(c) };
            assert(package_fields(p) =~= seq![h, g]);
            assert(m1.packages.last() == without_cell(p));
            assert(with_cell_name(without_cell(p), zstring_of(c)) == Some(p));
            assert(m1.packages.update(m1.packages.len() - 1, p) =~= m.packages.push(p));
            lemma_fold_two(m, step, h, g);
        },
        PackageModel::Follow { cell: Some(c), .. } => {
            lemma_zstring_roundtrip(c);
            let g = FieldModel { name: CNDT@, data: zstring_of(c) };
            assert(package_fields(p) =~= seq![h, g]);
            assert(m1.packages.last() == without_cell(p));
            assert(with_cell_name(without_cell(p), zstring_of(c)) == Some(p));
            assert(m1.packages.update(m1.packages.len() - 1, p) =~= m.packages.push(p));
            lemma_fold_two(m, step, h, g);
        },
        _ => {
            assert(package_fields(p) =~= seq![h]);
            assert(without_cell(p) == p);
            lemma_fold_one(m, step, h);
        },
    }
}

/// Reading back the fields that `write_packages` writes for a list of packages adds those
/// packages, in order, to an actor's state, whatever it held before.
pub proof fn lemma_packages_roundtrip(m: ActorStateModel, ps: Seq<PackageModel>)
    requires
        forall|i: int| 0 <= i < ps.len() ==> package_readable(#[trigger] ps[i]),
    ensures
        fold_fields(m, state_step_fn(), packages_fields(ps)) == Some(
            ActorStateModel { packages: m.packages + ps, ..m },
        ),
    decreases ps.len(),
{
    reveal(packages_fields);
    if ps.len() == 0 {
        assert(m.packages + ps =~= m.packages);
        assert(fold_fields(m, state_step_fn(), Seq::<FieldModel>::empty()) == Some(m));
    } else {
        let init = ps.drop_last();
        lemma_packages_roundtrip(m, init);
        lemma_fold_append(m, state_step_fn(), packages_fields(init), package_fields(ps.last()));
        let m1 = ActorStateModel { packages: m.packages + init, ..m };
        assert(package_readable(ps[ps.len() - 1]));
        lemma_package_roundtrip(m1, ps.last());
        assert(m1.packages.push(ps.last()) =~= m.packages + ps);
    }
}

/// Reading the `NPCO` field written for an inventory entry gives that entry.
proof fn lemma_item_roundtrip(m: ActorStateModel, e: (Seq<char>, u32))
    requires
        id_writable(e.0),
    ensures
        state_step(m, item_field(e)) == Some(
            ActorStateModel { inventory: item_added(m, e.0, e.1), ..m },
        ),
{
    let d = item_field(e).data;
    lemma_le_bytes_len(e.1 as nat, 4);
    assert(d.subrange(0, 4) =~= le_bytes(e.1 as nat, 4));
    assert(d.subrange(4, 36) =~= padded(e.0, 32));
    lemma_word_of(d, 0, e.1);
    lemma_padded_at(d, 4, e.0);
}

/// Reading back the `NPCO` fields that `write_inventory` writes for an inventory into a state
/// with an empty inventory gives that inventory, provided each ID fits and holds no zero byte
/// and, where the inventory is keyed by ID, no ID appears twice.
pub proof fn lemma_inventory_roundtrip(m: ActorStateModel, inv: Seq<(Seq<char>, u32)>)
    requires
        m.inventory.len() == 0,
        forall|i: int| 0 <= i < inv.len() ==> id_writable(#[trigger] inv[i].0),
        m.keyed_inventory ==> items_unique(inv),
    ensures
        fold_fields(m, state_step_fn(), inventory_fields(inv)) == Some(
            ActorStateModel { inventory: inv, ..m },
        ),
    decreases inv.len(),
{
    if inv.len() == 0 {
        assert(inventory_fields(inv) =~= Seq::<FieldModel>::empty());
        assert(m.inventory =~= inv);
    } else {
        let init = inv.drop_last();
        let e = inv.last();
        if m.keyed_inventory {
            assert forall|i: int, j: int| 0 <= i < j < init.len() implies #[trigger] init[i].0
                != #[trigger] init[j].0 by {
                assert(inv[i].0 != inv[j].0);
            }
        }
        lemma_inventory_roundtrip(m, init);
        assert(inventory_fields(inv) =~= inventory_fields(init) + seq![item_field(e)]);
        lemma_fold_append(m, state_step_fn(), inventory_fields(init), seq![item_field(e)]);
        let m1 = ActorStateModel { inventory: init, ..m };
        assert(id_writable(inv[inv.len() - 1].0));
        lemma_item_roundtrip(m1, e);
        lemma_fold_one(m1, state_step_fn(), item_field(e));
        if m.keyed_inventory {
            assert(!has_item(init, e.0)) by {
                if has_item(init, e.0) {
                    let k = choose|k: int| 0 <= k < init.len() && #[trigger] init[k].0 == e.0;
                    assert(inv[k].0 != inv[inv.len() - 1].0);
                }
            }
        }
        assert(init.push(e) =~= inv);
    }
}

/// The names of the fields that go to an actor's state.
pub open spec fn is_state_name(n: Seq<u8>) -> bool {
    n == NPCO@ || n == AI_A@ || n == AI_E@ || n == AI_F@ || n == AI_T@ || n == AI_W@ || n == CNDT@
}

/// No field that goes to an actor's state has a name that the actor reads itself.
proof fn lemma_state_name(n: Seq<u8>)
    requires
        is_state_name(n),
    ensures
        n != MODL@ && n != FNAM@ && n != SCRI@ && n != NPCS@ && n != AIDT@ && n != DODT@ && n
            != DNAM@,
{
    assert(NPCO@[0] != MODL@[0]);
    assert(NPCO@[0] != FNAM@[0]);
    assert(NPCO@[0] != SCRI@[0]);
    assert(NPCO@[3] != NPCS@[3]);
    assert(NPCO@[0] != AIDT@[0]);
    assert(NPCO@[0] != DODT@[0]);
    assert(NPCO@[0] != DNAM@[0]);
    assert(AI_A@[0] != MODL@[0]);
    assert(AI_A@[0] != FNAM@[0]);
    assert(AI_A@[0] != SCRI@[0]);
    assert(AI_A@[0] != NPCS@[0]);
    assert(AI_A@[2] != AIDT@[2]);
    assert(AI_A@[0] != DODT@[0]);
    assert(AI_A@[0] != DNAM@[0]);
    assert(AI_E@[0] != MODL@[0]);
    assert(AI_E@[0] != FNAM@[0]);
    assert(AI_E@[0] != SCRI@[0]);
    assert(AI_E@[0] != NPCS@[0]);
    assert(AI_E@[2] != AIDT@[2]);
    assert(AI_E@[0] != DODT@[0]);
    assert(AI_E@[0] != DNAM@[0]);
    assert(AI_F@[0] != MODL@[0]);
    assert(AI_F@[0] != FNAM@[0]);
    assert(AI_F@[0] != SCRI@[0]);
    assert(AI_F@[0] != NPCS@[0]);
    assert(AI_F@[2] != AIDT@[2]);
    assert(AI_F@[0] != DODT@[0]);
    assert(AI_F@[0] != DNAM@[0]);
    assert(AI_T@[0] != MODL@[0]);
    assert(AI_T@[0] != FNAM@[0]);
    assert(AI_T@[0] != SCRI@[0]);
    assert(AI_T@[0] != NPCS@[0]);
    assert(AI_T@[2] != AIDT@[2]);
    assert(AI_T@[0] != DODT@[0]);
    assert(AI_T@[0] != DNAM@[0]);
    assert(AI_W@[0] != MODL@[0]);
    assert(AI_W@[0] != FNAM@[0]);
    assert(AI_W@[0] != SCRI@[0]);
    assert(AI_W@[0] != NPCS@[0]);
    assert(AI_W@[2] != AIDT@[2]);
    assert(AI_W@[0] != DODT@[0]);
    assert(AI_W@[0] != DNAM@[0]);
    assert(CNDT@[0] != MODL@[0]);
    assert(CNDT@[0] != FNAM@[0]);
    assert(CNDT@[0] != SCRI@[0]);
    assert(CNDT@[0] != NPCS@[0]);
    assert(CNDT@[0] != AIDT@[0]);
    assert(CNDT@[0] != DODT@[0]);
    assert(CNDT@[0] != DNAM@[0]);
}

/// Reading fields that all go to an actor's state reads them into the state.
pub proof fn lemma_state_fields_lift(a: ActorModel, fs: Seq<FieldModel>)
    requires
        forall|i: int| 0 <= i < fs.len() ==> is_state_name(#[trigger] fs[i].name),
    ensures
        fold_fields(a, actor_step_fn(), fs) == match fold_fields(a.state, state_step_fn(), fs) {
            Some(st) => Some(ActorModel { state: st, ..a }),
            None => None,
        },
    decreases fs.len(),
{
    if fs.len() > 0 {
        lemma_state_fields_lift(a, fs.drop_last());
        assert(is_state_name(fs[fs.len() - 1].name));
        lemma_state_name(fs.last().name);
        if let Some(st) = fold_fields(a.state, state_step_fn(), fs.drop_last()) {
            let m = ActorModel { state: st, ..a };
            assert(actor_step(m, fs.last()) == match state_step(st, fs.last()) {
                Some(st2) => Some(ActorModel { state: st2, ..a }),
                None => None,
            });
        }
    } else {
        assert(fold_fields(a, actor_step_fn(), fs) == Some(a));
    }
}

/// The fields written for packages all go to an actor's state.
proof fn lemma_packages_fields_names(ps: Seq<PackageModel>)
    ensures
        forall|i: int| 0 <= i < packages_fields(ps).len() ==> is_state_name(#[trigger] packages_fields(ps)[i].name),
    decreases ps.len(),
{
    reveal(packages_fields);
    if ps.len() > 0 {
        lemma_packages_fields_names(ps.drop_last());
        let a = packages_fields(ps.drop_last());
        let b = package_fields(ps.last());
        assert forall|i: int| 0 <= i < packages_fields(ps).len() implies is_state_name(#[trigger] packages_fields(ps)[i].name) by {
            if i >= a.len() {
                assert(packages_fields(ps)[i] == b[i - a.len()]);
            } else {
                assert(packages_fields(ps)[i] == a[i]);
            }
        }
    }
}

/// Reading back the fields that `write_packages` writes into an actor adds the packages to its
/// state and changes nothing else.
pub proof fn lemma_actor_packages_roundtrip(a: ActorModel, ps: Seq<PackageModel>)
    requires
        forall|i: int| 0 <= i < ps.len() ==> package_readable(#[trigger] ps[i]),
    ensures
        fold_fields(a, actor_step_fn(), packages_fields(ps)) == Some(
            ActorModel { state: ActorStateModel { packages: a.state.packages + ps, ..a.state }, ..a },
        ),
{
    lemma_packages_fields_names(ps);
    lemma_state_fields_lift(a, packages_fields(ps));
    lemma_packages_roundtrip(a.state, ps);
}

/// Reading back the fields that `write_inventory` writes into an actor with an empty inventory
/// gives it that inventory and changes nothing else.
pub proof fn lemma_actor_inventory_roundtrip(a: ActorModel, inv: Seq<(Seq<char>, u32)>)
    requires
        a.state.inventory.len() == 0,
        forall|i: int| 0 <= i < inv.len() ==> id_writable(#[trigger] inv[i].0),
        a.state.keyed_inventory ==> items_unique(inv),
    ensures
        fold_fields(a, actor_step_fn(), inventory_fields(inv)) == Some(
            ActorModel { state: ActorStateModel { inventory: inv, ..a.state }, ..a },
        ),
{
    assert forall|i: int| 0 <= i < inventory_fields(inv).len() implies is_state_name(#[trigger] inventory_fields(inv)[i].name) by {
        assert(inventory_fields(inv)[i] == item_field(inv[i]));
    }
    lemma_state_fields_lift(a, inventory_fields(inv));
    lemma_inventory_roundtrip(a.state, inv);
}

/// Reading back the `NPCS` fields that `write_spells` writes adds the spells to an actor.
pub proof fn lemma_spells_roundtrip(a: ActorModel, sp: Seq<Seq<char>>)
    requires
        forall|i: int| 0 <= i < sp.len() ==> id_writable(#[trigger] sp[i]),
    ensures
        fold_fields(a, actor_step_fn(), spells_fields(sp)) == Some(
            ActorModel { spells: a.spells + sp, ..a },
        ),
    decreases sp.len(),
{
    if sp.len() == 0 {
        assert(spells_fields(sp) =~= Seq::<FieldModel>::empty());
        assert(a.spells + sp =~= a.spells);
        assert(fold_fields(a, actor_step_fn(), Seq::<FieldModel>::empty()) == Some(a));
    } else {
        let init = sp.drop_last();
        let s = sp.last();
        assert(id_writable(sp[sp.len() - 1]));
        lemma_spells_roundtrip(a, init);
        let f = FieldModel { name: NPCS@, data: padded(s, 32) };
        assert(spells_fields(sp) =~= spells_fields(init) + seq![f]);
        lemma_fold_append(a, actor_step_fn(), spells_fields(init), seq![f]);
        let a1 = ActorModel { spells: a.spells + init, ..a };
        lemma_fold_one(a1, actor_step_fn(), f);
        assert(f.data.subrange(0, 32) =~= padded(s, 32));
        lemma_padded_at(f.data, 0, s);
        assert(NPCS@[0] != MODL@[0]);
        assert(NPCS@[0] != FNAM@[0]);
        assert(NPCS@[0] != SCRI@[0]);
        assert(a1.spells.push(s) =~= a.spells + sp);
    }
}

/// A destination's `DODT` data reads back as the destination without its cell name.
proof fn lemma_destination_bytes(d: DestinationModel)
    ensures
        destination_bytes(d).len() == 24,
        destination_from(destination_bytes(d)) == (DestinationModel { cell_name: None, ..d }),
{
    let b = destination_bytes(d);
    lemma_le_bytes_len(d.position.0 as nat, 4);
    lemma_le_bytes_len(d.position.1 as nat, 4);
    lemma_le_bytes_len(d.position.2 as nat, 4);
    lemma_le_bytes_len(d.rotation.0 as nat, 4);
    lemma_le_bytes_len(d.rotation.1 as nat, 4);
    lemma_le_bytes_len(d.rotation.2 as nat, 4);
    assert(b.subrange(0, 4) =~= le_bytes(d.position.0 as nat, 4));
    assert(b.subrange(4, 8) =~= le_bytes(d.position.1 as nat, 4));
    assert(b.subrange(8, 12) =~= le_bytes(d.position.2 as nat, 4));
    assert(b.subrange(12, 16) =~= le_bytes(d.rotation.0 as nat, 4));
    assert(b.subrange(16, 20) =~= le_bytes(d.rotation.1 as nat, 4));
    assert(b.subrange(20, 24) =~= le_bytes(d.rotation.2 as nat, 4));
    lemma_word_of(b, 0, d.position.0);
    lemma_word_of(b, 1, d.position.1);
    lemma_word_of(b, 2, d.position.2);
    lemma_word_of(b, 3, d.rotation.0);
    lemma_word_of(b, 4, d.rotation.1);
    lemma_word_of(b, 5, d.rotation.2);
}

/// Reading the fields written for one destination adds it to an actor.
proof fn lemma_destination_roundtrip(a: ActorModel, d: DestinationModel)
    requires
        d.cell_name matches Some(c) ==> no_nul(encode_utf8(c)),
    ensures
        fold_fields(a, actor_step_fn(), destination_fields(d)) == Some(
            ActorModel { destinations: a.destinations.push(d), ..a },
        ),
{
    lemma_destination_bytes(d);
    let h = FieldModel { name: DODT@, data: destination_bytes(d) };
    let d0 = DestinationModel { cell_name: None, ..d };
    let a1 = ActorModel { destinations: a.destinations.push(d0), ..a };
    assert(DODT@[0] != MODL@[0]);
    assert(DODT@[0] != FNAM@[0]);
    assert(DODT@[0] != SCRI@[0]);
    assert(DODT@[0] != NPCS@[0]);
    assert(DODT@[0] != AIDT@[0]);
    assert(actor_step(a, h) == Some(a1));
    match d.cell_name {
        Some(c) => {
            lemma_zstring_roundtrip(c);
            let g = FieldModel { name: DNAM@, data: zstring_of(c) };
            assert(destination_fields(d) =~= seq![h, g]);
            assert(DNAM@[0] != MODL@[0]);
            assert(DNAM@[0] != FNAM@[0]);
            assert(DNAM@[0] != SCRI@[0]);
            assert(DNAM@[0] != NPCS@[0]);
            assert(DNAM@[0] != AIDT@[0]);
            assert(DNAM@[1] != DODT@[1]);
            assert(a1.destinations.last() == d0);
            assert(with_destination_cell(d0, zstring_of(c)) == Some(d));
            assert(a1.destinations.update(a1.destinations.len() - 1, d) =~= a.destinations.push(d));
            lemma_fold_two(a, actor_step_fn(), h, g);
        },
        None => {
            assert(destination_fields(d) =~= seq![h]);
            assert(d0 == d);
            lemma_fold_one(a, actor_step_fn(), h);
        },
    }
}

/// Reading back the fields that `write_destinations` writes adds the destinations to an actor.
pub proof fn lemma_destinations_roundtrip(a: ActorModel, ds: Seq<DestinationModel>)
    requires
        forall|i: int| 0 <= i < ds.len() ==> ((#[trigger] ds[i]).cell_name matches Some(c) ==> no_nul(
            encode_utf8(c),
        )),
    ensures
        fold_fields(a, actor_step_fn(), destinations_fields(ds)) == Some(
            ActorModel { destinations: a.destinations + ds, ..a },
        ),
    decreases ds.len(),
{
    reveal(destinations_fields);
    if ds.len() == 0 {
        assert(a.destinations + ds =~= a.destinations);
        assert(fold_fields(a, actor_step_fn(), Seq::<FieldModel>::empty()) == Some(a));
    } else {
        let init = ds.drop_last();
        lemma_destinations_roundtrip(a, init);
        lemma_fold_append(a, actor_step_fn(), destinations_fields(init), destination_fields(ds.last()));
        let a1 = ActorModel { destinations: a.destinations + init, ..a };
        assert(ds[ds.len() - 1] == ds.last());
        lemma_destination_roundtrip(a1, ds.last());
        assert(a1.destinations.push(ds.last()) =~= a.destinations + ds);
    }
}

/// AI settings whose service flags are all meaningful read back from their bytes.
pub proof fn lemma_ai_settings_roundtrip(s: AiSettings)
    requires
        s.services & !SERVICE_FLAGS_MASK == 0,
    ensures
        ai_settings_bytes(s).len() == 12,
        ai_settings_from(ai_settings_bytes(s)) == s,
{
    let b = ai_settings_bytes(s);
    lemma_le_bytes_len(s.hello as nat, 2);
    lemma_le_bytes_len(s.services as nat, 4);
    assert(b.subrange(0, 2) =~= le_bytes(s.hello as nat, 2));
    assert(b.subrange(8, 12) =~= le_bytes(s.services as nat, 4));
    lemma_u16_of(b, 0, s.hello);
    reveal_with_fuel(pow256, 5);
    lemma_le_value_of_bytes(s.services as nat, 4);
    let v = s.services;
    assert(v & !0x3ffffu32 == 0u32 ==> v & 0x3ffffu32 == v) by (bit_vector);
}


/// Reading back the fields written for one scalar field name sets what the name stands for.
proof fn lemma_scalar_field_roundtrip(a: ActorModel, b: ActorModel, name: Seq<u8>)
    requires
        name == MODL@ || name == FNAM@ || name == SCRI@ || name == AIDT@,
        scalar_field(a, name) is Some,
        name == AIDT@ ==> a.ai_settings.services & !SERVICE_FLAGS_MASK == 0,
        name != AIDT@ ==> named_string(b, name) is None,
    ensures
        fold_fields(b, actor_step_fn(), scalar_field(a, name).unwrap()) == Some(
            if name == MODL@ {
                ActorModel { model: a.model, ..b }
            } else if name == FNAM@ {
                ActorModel { name: a.name, ..b }
            } else if name == SCRI@ {
                ActorModel { script: a.script, ..b }
            } else {
                ActorModel { ai_settings: a.ai_settings, ..b }
            },
        ),
{
    assert(MODL@[0] != FNAM@[0]);
    assert(MODL@[0] != SCRI@[0]);
    assert(MODL@[0] != AIDT@[0]);
    assert(FNAM@[0] != SCRI@[0]);
    assert(FNAM@[0] != AIDT@[0]);
    assert(SCRI@[0] != AIDT@[0]);
    assert(AIDT@[0] != NPCS@[0]);
    let fs = scalar_field(a, name).unwrap();
    if name == AIDT@ {
        lemma_ai_settings_roundtrip(a.ai_settings);
        let f = FieldModel { name, data: ai_settings_bytes(a.ai_settings) };
        assert(fs =~= seq![f]);
        lemma_fold_one(b, actor_step_fn(), f);
    } else {
        match named_string(a, name) {
            Some(v) => {
                lemma_zstring_roundtrip(v);
                let f = FieldModel { name, data: zstring_of(v) };
                assert(fs =~= seq![f]);
                lemma_fold_one(b, actor_step_fn(), f);
            },
            None => {
                assert(fs =~= Seq::<FieldModel>::empty());
                assert(fold_fields(b, actor_step_fn(), fs) == Some(b));
            },
        }
    }
}

/// Reading back what `write_scalar_fields` writes for `MODL`, `FNAM`, `SCRI` and `AIDT` into
/// an actor with no model, name or script gives it the model, name, script and AI settings of
/// the written actor, when its strings could be written and its service flags are all
/// meaningful.
pub proof fn lemma_scalar_fields_roundtrip(a: ActorModel, b: ActorModel)
    requires
        scalar_fields(a, seq![MODL@, FNAM@, SCRI@, AIDT@]) is Some,
        a.ai_settings.services & !SERVICE_FLAGS_MASK == 0,
        b.model is None,
        b.name is None,
        b.script is None,
    ensures
        fold_fields(b, actor_step_fn(), scalar_fields(a, seq![MODL@, FNAM@, SCRI@, AIDT@]).unwrap())
            == Some(
            ActorModel {
                model: a.model,
                name: a.name,
                script: a.script,
                ai_settings: a.ai_settings,
                ..b
            },
        ),
{
    let names = seq![MODL@, FNAM@, SCRI@, AIDT@];
    reveal_with_fuel(scalar_fields, 5);
    assert(names.drop_last() =~= seq![MODL@, FNAM@, SCRI@]);
    assert(names.drop_last().drop_last() =~= seq![MODL@, FNAM@]);
    assert(names.drop_last().drop_last().drop_last() =~= seq![MODL@]);
    assert(names.drop_last().drop_last().drop_last().drop_last() =~= Seq::<Seq<u8>>::empty());
    let f1 = scalar_field(a, MODL@).unwrap();
    let f2 = scalar_field(a, FNAM@).unwrap();
    let f3 = scalar_field(a, SCRI@).unwrap();
    let f4 = scalar_field(a, AIDT@).unwrap();
    assert(scalar_fields(a, seq![MODL@]) == Some(Seq::<FieldModel>::empty() + f1));
    assert(Seq::<FieldModel>::empty() + f1 =~= f1);
    assert(scalar_fields(a, names).unwrap() == f1 + f2 + f3 + f4);
    let b1 = ActorModel { model: a.model, ..b };
    let b2 = ActorModel { name: a.name, ..b1 };
    let b3 = ActorModel { script: a.script, ..b2 };
    let b4 = ActorModel { ai_settings: a.ai_settings, ..b3 };
    lemma_scalar_field_roundtrip(a, b, MODL@);
    lemma_scalar_field_roundtrip(a, b1, FNAM@);
    lemma_scalar_field_roundtrip(a, b2, SCRI@);
    lemma_scalar_field_roundtrip(a, b3, AIDT@);
    lemma_fold_append(b, actor_step_fn(), f1, f2);
    lemma_fold_append(b, actor_step_fn(), f1 + f2, f3);
    lemma_fold_append(b, actor_step_fn(), f1 + f2 + f3, f4);
}

} // verus!
