//! Changes to NPCs (and the player) in Morrowind saves.

use vstd::prelude::*;

use crate::bytes::{read_u16_at, read_u32_at};
use crate::error::{decode_failed, TesError};
use crate::plugin::{FieldModel, RecordStatus};
use crate::tags::{
    slice_is_tag, AI_A, AI_E, AI_F, AI_T, AI_W, CNDT, NAME, NPCC, NPCO, NPDT, SCRI, SLCS, SLFD,
    SLLD, SLSD, WIDX, XCHG, XHLT, XIDX, XSOL,
};
use crate::tes3::field::Tes3Field;
use crate::tes3::form::{check_record_type, field_zstring, word, word_at, zstring_value};
use crate::tes3::package::{package_from_field, u16_at, with_cell_name, Package, PackageModel};
use crate::tes3::player::{padded_string_at, padded_string_exec};
use crate::tes3::record::Tes3Record;

verus! {

/// NPC disposition and reputation
#[derive(Debug, Copy, Clone, PartialEq, Eq, Structural)]
pub struct Disposition {
    pub disposition: u8,
    pub unknown1: u8,
    pub reputation: u8,
    pub unknown2: u8,
    pub index: i32,
}

/// Script state attached to an item; the float variables are the bits of `f32`s
#[derive(Debug)]
pub struct Script {
    pub name: String,
    pub shorts: Vec<i16>,
    pub longs: Vec<i32>,
    pub floats: Vec<u32>,
}

/// The abstract content of an item's script state.
pub struct ScriptModel {
    pub name: Seq<char>,
    pub shorts: Seq<i16>,
    pub longs: Seq<i32>,
    pub floats: Seq<u32>,
}

impl View for Script {
    type V = ScriptModel;

    closed spec fn view(&self) -> ScriptModel {
        ScriptModel {
            name: self.name@,
            shorts: self.shorts@,
            longs: self.longs@,
            floats: self.floats@,
        }
    }
}

/// An item in the NPC's inventory; the enchantment charge is the bits of an `f32`
#[derive(Debug)]
pub struct InventoryItem {
    pub id: String,
    pub count: u32,
    pub is_equipped: bool,
    pub soul: Option<String>,
    pub enchantment_charge: Option<u32>,
    pub remaining_durability: Option<u32>,
    pub script: Option<Script>,
}

/// The abstract content of an inventory item.
pub struct InventoryItemModel {
    pub id: Seq<char>,
    pub count: u32,
    pub is_equipped: bool,
    pub soul: Option<Seq<char>>,
    pub enchantment_charge: Option<u32>,
    pub remaining_durability: Option<u32>,
    pub script: Option<ScriptModel>,
}

impl View for InventoryItem {
    type V = InventoryItemModel;

    closed spec fn view(&self) -> InventoryItemModel {
        InventoryItemModel {
            id: self.id@,
            count: self.count,
            is_equipped: self.is_equipped,
            soul: match self.soul {
                Some(s) => Some(s@),
                None => None,
            },
            enchantment_charge: self.enchantment_charge,
            remaining_durability: self.remaining_durability,
            script: match self.script {
                Some(s) => Some(s@),
                None => None,
            },
        }
    }
}

/// An item is pristine: not equipped, and with no soul, charge, durability or script state.
pub open spec fn pristine(i: InventoryItemModel) -> bool {
    !i.is_equipped && i.soul is None && i.enchantment_charge is None
        && i.remaining_durability is None && i.script is None
}

impl Script {
    fn duplicate(&self) -> (r: Script)
        ensures
            r@ == self@,
    {
        Script {
            name: self.name.clone(),
            shorts: vstd::slice::slice_to_vec(self.shorts.as_slice()),
            longs: vstd::slice::slice_to_vec(self.longs.as_slice()),
            floats: vstd::slice::slice_to_vec(self.floats.as_slice()),
        }
    }
}

impl InventoryItem {
    /// Whether the item is pristine: not equipped, and with no soul, charge, durability or
    /// script state
    pub fn is_pristine(&self) -> (r: bool)
        ensures
            r == pristine(self@),
    {
        !self.is_equipped && self.soul.is_none() && self.enchantment_charge.is_none()
            && self.remaining_durability.is_none() && self.script.is_none()
    }

    fn duplicate(&self) -> (r: InventoryItem)
        ensures
            r@ == self@,
    {
        InventoryItem {
            id: self.id.clone(),
            count: self.count,
            is_equipped: self.is_equipped,
            soul: match &self.soul {
                Some(s) => Some(s.clone()),
                None => None,
            },
            enchantment_charge: self.enchantment_charge,
            remaining_durability: self.remaining_durability,
            script: match &self.script {
                Some(s) => Some(s.duplicate()),
                None => None,
            },
        }
    }
}

/// The abstract content of an NPC change.
pub struct NpcChangeModel {
    pub id: Seq<char>,
    pub disposition: Disposition,
    pub inventory: Seq<InventoryItemModel>,
    pub packages: Seq<PackageModel>,
}

/// What reading an NPC change keeps between fields: the change so far, where the last stack
/// of items starts, the script variable counts last announced, and where each stack starts.
pub struct NpccState {
    pub m: NpcChangeModel,
    pub stack_start: usize,
    pub num_shorts: i32,
    pub num_longs: i32,
    pub num_floats: i32,
    pub base_indexes: Seq<usize>,
}

/// What a step of reading gives: the next state, a decoding failure, or a state that the
/// reader does not handle (an index out of range or a count that would go below zero).
pub enum NpccOutcome {
    Next(NpccState),
    Fail,
    Unhandled,
}

/// The reading state before any field is read.
pub open spec fn npcc_init() -> NpccState {
    NpccState {
        m: NpcChangeModel {
            id: Seq::empty(),
            disposition: Disposition { disposition: 0, unknown1: 0, reputation: 0, unknown2: 0, index: 0 },
            inventory: Seq::empty(),
            packages: Seq::empty(),
        },
        stack_start: 0,
        num_shorts: 0,
        num_longs: 0,
        num_floats: 0,
        base_indexes: Seq::empty(),
    }
}

/// The state with the last item changed by `f`, if there is a last item.
pub open spec fn with_last_item(st: NpccState, f: spec_fn(InventoryItemModel) -> Option<InventoryItemModel>) -> NpccOutcome {
    let inv = st.m.inventory;
    if inv.len() == 0 {
        NpccOutcome::Fail
    } else {
        match f(inv.last()) {
            Some(i) => NpccOutcome::Next(
                NpccState { m: NpcChangeModel { inventory: inv.drop_last().push(i), ..st.m }, ..st },
            ),
            None => NpccOutcome::Fail,
        }
    }
}

/// `n` script values of `size` bytes at the start of `d` (none if `n` is not positive), if
/// `d` holds them.
pub open spec fn values_fit(d: Seq<u8>, n: i32, size: int) -> bool {
    n <= 0 || d.len() >= size * n
}

/// The number of values that a count announces.
pub open spec fn value_count(n: i32) -> nat {
    if n <= 0 { 0 } else { n as nat }
}

/// Reading one field of an `NPCC` record.
pub open spec fn npcc_step(st: NpccState, f: FieldModel) -> NpccOutcome {
    let d = f.data;
    let m = st.m;
    let inv = m.inventory;
    if f.name == NAME@ {
        match zstring_value(d) {
            Some(v) => NpccOutcome::Next(NpccState { m: NpcChangeModel { id: v, ..m }, ..st }),
            None => NpccOutcome::Fail,
        }
    } else if f.name == NPDT@ {
        if d.len() < 8 {
            NpccOutcome::Fail
        } else {
            NpccOutcome::Next(
                NpccState {
                    m: NpcChangeModel {
                        disposition: Disposition {
                            disposition: d[0],
                            unknown1: d[1],
                            reputation: d[2],
                            unknown2: d[3],
                            index: word(d, 1) as i32,
                        },
                        ..m
                    },
                    ..st
                },
            )
        }
    } else if f.name == NPCO@ {
        if d.len() < 36 {
            NpccOutcome::Fail
        } else {
            match padded_string_at(d, 4, 32) {
                Some(id) => if inv.len() >= usize::MAX {
                    NpccOutcome::Unhandled
                } else {
                    NpccOutcome::Next(
                        NpccState {
                            m: NpcChangeModel {
                                inventory: inv.push(
                                    InventoryItemModel {
                                        id,
                                        count: word(d, 0),
                                        is_equipped: false,
                                        soul: None,
                                        enchantment_charge: None,
                                        remaining_durability: None,
                                        script: None,
                                    },
                                ),
                                ..m
                            },
                            stack_start: inv.len() as usize,
                            base_indexes: st.base_indexes.push(inv.len() as usize),
                            ..st
                        },
                    )
                },
                None => NpccOutcome::Fail,
            }
        }
    } else if f.name == XIDX@ {
        if st.stack_start >= inv.len() || inv[st.stack_start as int].count == 0 {
            NpccOutcome::Unhandled
        } else {
            let first = inv[st.stack_start as int];
            let dec = InventoryItemModel { count: (first.count - 1) as u32, ..first };
            NpccOutcome::Next(
                NpccState {
                    m: NpcChangeModel {
                        inventory: inv.update(st.stack_start as int, dec).push(
                            InventoryItemModel { count: 1, ..dec },
                        ),
                        ..m
                    },
                    ..st
                },
            )
        }
    } else if f.name == SCRI@ {
        match zstring_value(d) {
            None => NpccOutcome::Fail,
            Some(n) => match with_last_item(
                st,
                |i: InventoryItemModel|
                    Some(
                        InventoryItemModel {
                            script: Some(
                                ScriptModel {
                                    name: n,
                                    shorts: Seq::empty(),
                                    longs: Seq::empty(),
                                    floats: Seq::empty(),
                                },
                            ),
                            ..i
                        },
                    ),
            ) {
                NpccOutcome::Next(s) => NpccOutcome::Next(
                    NpccState { num_shorts: 0, num_longs: 0, num_floats: 0, ..s },
                ),
                other => other,
            },
        }
    } else if f.name == SLCS@ {
        if d.len() < 12 {
            NpccOutcome::Fail
        } else {
            NpccOutcome::Next(
                NpccState {
                    num_shorts: word(d, 0) as i32,
                    num_longs: word(d, 1) as i32,
                    num_floats: word(d, 2) as i32,
                    ..st
                },
            )
        }
    } else if f.name == SLSD@ {
        with_last_item(
            st,
            |i: InventoryItemModel|
                match i.script {
                    Some(s) => if values_fit(d, st.num_shorts, 2) {
                        Some(
                            InventoryItemModel {
                                script: Some(
                                    ScriptModel {
                                        shorts: s.shorts + Seq::new(
                                            value_count(st.num_shorts),
                                            |k: int| u16_at(d, 2 * k) as i16,
                                        ),
                                        ..s
                                    },
                                ),
                                ..i
                            },
                        )
                    } else {
                        None
                    },
                    None => None,
                },
        )
    } else if f.name == SLLD@ {
        with_last_item(
            st,
            |i: InventoryItemModel|
                match i.script {
                    Some(s) => if values_fit(d, st.num_longs, 4) {
                        Some(
                            InventoryItemModel {
                                script: Some(
                                    ScriptModel {
                                        longs: s.longs + Seq::new(
                                            value_count(st.num_longs),
                                            |k: int| word(d, k) as i32,
                                        ),
                                        ..s
                                    },
                                ),
                                ..i
                            },
                        )
                    } else {
                        None
                    },
                    None => None,
                },
        )
    } else if f.name == SLFD@ {
        with_last_item(
            st,
            |i: InventoryItemModel|
                match i.script {
                    Some(s) => if values_fit(d, st.num_floats, 4) {
                        Some(
                            InventoryItemModel {
                                script: Some(
                                    ScriptModel {
                                        floats: s.floats + Seq::new(
                                            value_count(st.num_floats),
                                            |k: int| word(d, k),
                                        ),
                                        ..s
                                    },
                                ),
                                ..i
                            },
                        )
                    } else {
                        None
                    },
                    None => None,
                },
        )
    } else if f.name == XSOL@ {
        with_last_item(
            st,
            |i: InventoryItemModel|
                match zstring_value(d) {
                    Some(v) => Some(InventoryItemModel { soul: Some(v), ..i }),
                    None => None,
                },
        )
    } else if f.name == XCHG@ {
        with_last_item(
            st,
            |i: InventoryItemModel|
                if d.len() == 4 {
                    Some(InventoryItemModel { enchantment_charge: Some(word(d, 0)), ..i })
                } else {
                    None
                },
        )
    } else if f.name == XHLT@ {
        with_last_item(
            st,
            |i: InventoryItemModel|
                if d.len() == 4 {
                    Some(InventoryItemModel { remaining_durability: Some(word(d, 0)), ..i })
                } else {
                    None
                },
        )
    } else if f.name == AI_A@ || f.name == AI_E@ || f.name == AI_F@ || f.name == AI_T@ || f.name
        == AI_W@ {
        match package_from_field(f) {
            Some(p) => NpccOutcome::Next(
                NpccState { m: NpcChangeModel { packages: m.packages.push(p), ..m }, ..st },
            ),
            None => NpccOutcome::Fail,
        }
    } else if f.name == CNDT@ {
        if m.packages.len() == 0 {
            NpccOutcome::Fail
        } else {
            match with_cell_name(m.packages.last(), d) {
                Some(p) => NpccOutcome::Next(
                    NpccState {
                        m: NpcChangeModel { packages: m.packages.drop_last().push(p), ..m },
                        ..st
                    },
                ),
                None => NpccOutcome::Fail,
            }
        }
    } else if f.name == WIDX@ {
        if d.len() < 8 {
            NpccOutcome::Fail
        } else {
            let index = word(d, 0) as int;
            let slot = word(d, 1) as int;
            if index >= st.base_indexes.len() {
                NpccOutcome::Unhandled
            } else {
                let target = st.base_indexes[index] + slot + 1;
                if target >= inv.len() {
                    NpccOutcome::Unhandled
                } else {
                    NpccOutcome::Next(
                        NpccState {
                            m: NpcChangeModel {
                                inventory: inv.update(
                                    target,
                                    InventoryItemModel { is_equipped: true, ..inv[target] },
                                ),
                                ..m
                            },
                            ..st
                        },
                    )
                }
            }
        }
    } else {
        NpccOutcome::Fail
    }
}

/// Reading the fields in turn; a failure or an unhandled state ends the reading.
pub open spec fn npcc_fold(fields: Seq<FieldModel>) -> NpccOutcome
    decreases fields.len(),
{
    if fields.len() == 0 {
        NpccOutcome::Next(npcc_init())
    } else {
        match npcc_fold(fields.drop_last()) {
            NpccOutcome::Next(st) => npcc_step(st, fields.last()),
            other => other,
        }
    }
}

/// The NPC change read from a record's fields: the inventory keeps only the items whose count
/// is above zero.
pub open spec fn npc_change_from_fields(fields: Seq<FieldModel>) -> Option<NpcChangeModel> {
    match npcc_fold(fields) {
        NpccOutcome::Next(st) => Some(
            NpcChangeModel {
                inventory: st.m.inventory.filter(|i: InventoryItemModel| i.count > 0),
                ..st.m
            },
        ),
        _ => None,
    }
}

/// A field that describes the last item read while there is no item yet: a script, script
/// data, soul, charge or health field.
pub open spec fn orphan_item_field(st: NpccState, f: FieldModel) -> bool {
    &&& st.m.inventory.len() == 0
    &&& (f.name == SCRI@ || f.name == SLSD@ || f.name == SLLD@ || f.name == SLFD@ || f.name
        == XSOL@ || f.name == XCHG@ || f.name == XHLT@)
}

/// The field at position `i` is read after all before it were read, and describes an item
/// while there is none.
pub open spec fn orphan_at(fields: Seq<FieldModel>, i: int) -> bool {
    0 <= i < fields.len() && match npcc_fold(fields.take(i)) {
        NpccOutcome::Next(st) => orphan_item_field(st, fields[i]),
        _ => false,
    }
}

/// The record's fields are read without reaching a state the reader does not handle.
pub open spec fn npcc_handled(fields: Seq<FieldModel>) -> bool {
    !(npcc_fold(fields) is Unhandled)
}

/// Once reading has failed or reached an unhandled state, more fields do not change that.
pub proof fn lemma_npcc_fold_stops(fields: Seq<FieldModel>, i: int)
    requires
        0 <= i <= fields.len(),
        !(npcc_fold(fields.take(i)) is Next),
    ensures
        npcc_fold(fields) == npcc_fold(fields.take(i)),
    decreases fields.len() - i,
{
    if i < fields.len() {
        assert(fields.take(i + 1).drop_last() =~= fields.take(i));
        lemma_npcc_fold_stops(fields, i + 1);
    } else {
        assert(fields.take(i) =~= fields);
    }
}

/// Once reading fails at position `i`, no later field is read, so no later field is an orphan.
pub proof fn lemma_orphan_first(fields: Seq<FieldModel>, i: int)
    requires
        0 <= i < fields.len(),
        !(npcc_fold(fields.take(i + 1)) is Next),
    ensures
        forall|j: int| i < j < fields.len() ==> !#[trigger] orphan_at(fields, j),
{
    assert forall|j: int| i < j < fields.len() implies !#[trigger] orphan_at(fields, j) by {
        let pre = fields.take(j);
        assert(pre.take(i + 1) =~= fields.take(i + 1));
        lemma_npcc_fold_stops(pre, i + 1);
    }
}

/// A read that gets through every field met no orphan.
pub proof fn lemma_no_orphan_after_success(fields: Seq<FieldModel>)
    requires
        npcc_fold(fields) is Next,
    ensures
        forall|j: int| 0 <= j < fields.len() ==> !#[trigger] orphan_at(fields, j),
{
    assert forall|j: int| 0 <= j < fields.len() implies !#[trigger] orphan_at(fields, j) by {
        if orphan_at(fields, j) {
            lemma_npcc_fold_step(fields, j);
            lemma_orphan_step_fails(fields, j);
            lemma_npcc_fold_stops(fields, j + 1);
        }
    }
}

/// Reading an orphan fails.
proof fn lemma_orphan_step_fails(fields: Seq<FieldModel>, j: int)
    requires
        orphan_at(fields, j),
    ensures
        !(npcc_fold(fields.take(j + 1)) is Next),
{
    lemma_npcc_fold_step(fields, j);
}

/// One more field is one more step.
pub proof fn lemma_npcc_fold_step(fields: Seq<FieldModel>, i: int)
    requires
        0 <= i < fields.len(),
    ensures
        npcc_fold(fields.take(i + 1)) == match npcc_fold(fields.take(i)) {
            NpccOutcome::Next(st) => npcc_step(st, fields[i]),
            other => other,
        },
{
    assert(fields.take(i + 1).drop_last() =~= fields.take(i));
}

/// Changes to an NPC (or the PC) in a save game
#[derive(Debug)]
pub struct NpcChange {
    id: String,
    disposition: Disposition,
    inventory: Vec<InventoryItem>,
    packages: Vec<Package>,
}

impl View for NpcChange {
    type V = NpcChangeModel;

    closed spec fn view(&self) -> NpcChangeModel {
        NpcChangeModel {
            id: self.id@,
            disposition: self.disposition,
            inventory: self.inventory@.map_values(|i: InventoryItem| i@),
            packages: self.packages@.map_values(|p: Package| p@),
        }
    }
}

struct NpccReader {
    nc: NpcChange,
    stack_start: usize,
    num_shorts: i32,
    num_longs: i32,
    num_floats: i32,
    base_indexes: Vec<usize>,
}

impl View for NpccReader {
    type V = NpccState;

    closed spec fn view(&self) -> NpccState {
        NpccState {
            m: self.nc@,
            stack_start: self.stack_start,
            num_shorts: self.num_shorts,
            num_longs: self.num_longs,
            num_floats: self.num_floats,
            base_indexes: self.base_indexes@,
        }
    }
}

impl NpccReader {
    /// Takes the last item off the inventory.
    fn pop_item(&mut self) -> (r: Result<InventoryItem, TesError>)
        ensures
            r is Ok <==> old(self)@.m.inventory.len() > 0,
            r matches Err(e) ==> e is DecodeFailed,
            r matches Ok(i) ==> i@ == old(self)@.m.inventory.last() && final(self)@ == (NpccState {
                m: NpcChangeModel { inventory: old(self)@.m.inventory.drop_last(), ..old(self)@.m },
                ..old(self)@
            }),
    {
        match self.nc.inventory.pop() {
            Some(i) => {
                assert(self@.m.inventory =~= old(self)@.m.inventory.drop_last());
                Ok(i)
            },
            None => Err(decode_failed("Orphaned field in NPCC record")),
        }
    }

    /// Puts an item back on the inventory.
    fn push_item(&mut self, item: InventoryItem)
        ensures
            final(self)@ == (NpccState {
                m: NpcChangeModel { inventory: old(self)@.m.inventory.push(item@), ..old(self)@.m },
                ..old(self)@
            }),
    {
        let ghost v = item@;
        self.nc.inventory.push(item);
        assert(self@.m.inventory =~= old(self)@.m.inventory.push(v));
    }

    /// Whether reading the field reaches a state the reader does not handle.
    fn step_unhandled(&self, field: &Tes3Field) -> (r: bool)
        ensures
            r == (npcc_step(self@, field@) is Unhandled),
    {
        let name = field.name();
        let d = field.get();
        let ilen = self.nc.inventory.len();
        if slice_is_tag(name, &NPCO) {
            if d.len() < 36 || ilen < usize::MAX {
                return false;
            }
            padded_string_exec(d, 4, 32).is_ok()
        } else if slice_is_tag(name, &XIDX) {
            if self.stack_start >= ilen {
                return true;
            }
            assert(self@.m.inventory[self.stack_start as int] == self.nc.inventory@[self.stack_start as int]@);
            self.nc.inventory[self.stack_start].count == 0
        } else if slice_is_tag(name, &WIDX) {
            if d.len() < 8 {
                return false;
            }
            let index = word_at(d, 0) as usize;
            let slot = word_at(d, 1) as usize;
            if index >= self.base_indexes.len() {
                return true;
            }
            let base = self.base_indexes[index];
            if base >= ilen || slot >= ilen - base {
                return true;
            }
            base + slot + 1 >= ilen
        } else {
            false
        }
    }

    fn apply_field(&mut self, field: &Tes3Field) -> (r: Result<(), TesError>)
        requires
            !(npcc_step(old(self)@, field@) is Unhandled),
        ensures
            r is Ok <==> npcc_step(old(self)@, field@) is Next,
            r is Ok ==> npcc_step(old(self)@, field@) == NpccOutcome::Next(final(self)@),
            orphan_item_field(old(self)@, field@) ==> (r matches Err(e) && e is DecodeFailed),
    {
        let name = field.name();
        let d = field.get();
        let ghost st = self@;
        if slice_is_tag(name, &NAME) {
            self.nc.id = field_zstring(field)?;
        } else if slice_is_tag(name, &NPDT) {
            if d.len() < 8 {
                return Err(TesError::UnexpectedEof);
            }
            self.nc.disposition = Disposition {
                disposition: d[0],
                unknown1: d[1],
                reputation: d[2],
                unknown2: d[3],
                index: #[verifier::truncate] (word_at(d, 1) as i32),
            };
        } else if slice_is_tag(name, &NPCO) {
            if d.len() < 36 {
                return Err(TesError::UnexpectedEof);
            }
            let id = padded_string_exec(d, 4, 32)?;
            let item = InventoryItem {
                id,
                count: word_at(d, 0),
                is_equipped: false,
                soul: None,
                enchantment_charge: None,
                remaining_durability: None,
                script: None,
            };
            let len = self.nc.inventory.len();
            self.stack_start = len;
            self.base_indexes.push(len);
            self.push_item(item);
        } else if slice_is_tag(name, &XIDX) {
            let start = self.stack_start;
            let mut first = self.nc.inventory[start].duplicate();
            proof {
                assert(first@ == st.m.inventory[start as int]);
            }
            first.count = first.count - 1;
            let mut new_item = first.duplicate();
            new_item.count = 1;
            let ghost dec = first@;
            let ghost added = new_item@;
            self.nc.inventory.set(start, first);
            self.nc.inventory.push(new_item);
            assert(self@.m.inventory =~= st.m.inventory.update(start as int, dec).push(added));
        } else if slice_is_tag(name, &SCRI) {
            let n = field_zstring(field)?;
            let mut item = self.pop_item()?;
            item.script = Some(Script { name: n, shorts: Vec::new(), longs: Vec::new(), floats: Vec::new() });
            proof {
                assert(item@.script->0.shorts =~= Seq::<i16>::empty());
                assert(item@.script->0.longs =~= Seq::<i32>::empty());
                assert(item@.script->0.floats =~= Seq::<u32>::empty());
            }
            self.push_item(item);
            self.num_shorts = 0;
            self.num_longs = 0;
            self.num_floats = 0;
        } else if slice_is_tag(name, &SLCS) {
            if d.len() < 12 {
                return Err(TesError::UnexpectedEof);
            }
            self.num_shorts = #[verifier::truncate] (word_at(d, 0) as i32);
            self.num_longs = #[verifier::truncate] (word_at(d, 1) as i32);
            self.num_floats = #[verifier::truncate] (word_at(d, 2) as i32);
        } else if slice_is_tag(name, &SLSD) || slice_is_tag(name, &SLLD) || slice_is_tag(name, &SLFD) {
            let mut item = self.pop_item()?;
            let mut script = match item.script.take() {
                Some(sc) => sc,
                None => {
                    return Err(decode_failed("Orphaned script data in NPCC record"));
                },
            };
            let ghost sb = script@;
            if slice_is_tag(name, &SLSD) {
                let n = self.num_shorts;
                if n > 0 {
                    let count = n as usize;
                    if d.len() / 2 < count {
                        return Err(TesError::UnexpectedEof);
                    }
                    let mut k: usize = 0;
                    while k < count
                        invariant
                            k <= count,
                            count == value_count(n),
                            2 * count <= d@.len(),
                            script@ == (ScriptModel {
                                shorts: sb.shorts + Seq::new(k as nat, |j: int| u16_at(d@, 2 * j) as i16),
                                ..sb
                            }),
                        decreases count - k,
                    {
                        let v = #[verifier::truncate] (read_u16_at(d, 2 * k).unwrap() as i16);
                        script.shorts.push(v);
                        assert(script@.shorts =~= sb.shorts + Seq::new((k + 1) as nat, |j: int| u16_at(d@, 2 * j) as i16));
                        k = k + 1;
                    }
                } else {
                    assert(sb.shorts + Seq::new(value_count(n), |j: int| u16_at(d@, 2 * j) as i16) =~= sb.shorts);
                }
            } else if slice_is_tag(name, &SLLD) {
                let n = self.num_longs;
                if n > 0 {
                    let count = n as usize;
                    if d.len() / 4 < count {
                        return Err(TesError::UnexpectedEof);
                    }
                    let mut k: usize = 0;
                    while k < count
                        invariant
                            k <= count,
                            count == value_count(n),
                            4 * count <= d@.len(),
                            script@ == (ScriptModel {
                                longs: sb.longs + Seq::new(k as nat, |j: int| word(d@, j) as i32),
                                ..sb
                            }),
                        decreases count - k,
                    {
                        let v = #[verifier::truncate] (word_at(d, k) as i32);
                        script.longs.push(v);
                        assert(script@.longs =~= sb.longs + Seq::new((k + 1) as nat, |j: int| word(d@, j) as i32));
                        k = k + 1;
                    }
                } else {
                    assert(sb.longs + Seq::new(value_count(n), |j: int| word(d@, j) as i32) =~= sb.longs);
                }
            } else {
                let n = self.num_floats;
                if n > 0 {
                    let count = n as usize;
                    if d.len() / 4 < count {
                        return Err(TesError::UnexpectedEof);
                    }
                    let mut k: usize = 0;
                    while k < count
                        invariant
                            k <= count,
                            count == value_count(n),
                            4 * count <= d@.len(),
                            script@ == (ScriptModel {
                                floats: sb.floats + Seq::new(k as nat, |j: int| word(d@, j)),
                                ..sb
                            }),
                        decreases count - k,
                    {
                        script.floats.push(word_at(d, k));
                        assert(script@.floats =~= sb.floats + Seq::new((k + 1) as nat, |j: int| word(d@, j)));
                        k = k + 1;
                    }
                } else {
                    assert(sb.floats + Seq::new(value_count(n), |j: int| word(d@, j)) =~= sb.floats);
                }
            }
            item.script = Some(script);
            self.push_item(item);
        } else if slice_is_tag(name, &XSOL) {
            let mut item = self.pop_item()?;
            item.soul = Some(field_zstring(field)?);
            self.push_item(item);
        } else if slice_is_tag(name, &XCHG) || slice_is_tag(name, &XHLT) {
            let mut item = self.pop_item()?;
            if d.len() != 4 {
                return Err(decode_failed("unexpected data size for a number"));
            }
            if slice_is_tag(name, &XCHG) {
                item.enchantment_charge = Some(word_at(d, 0));
            } else {
                item.remaining_durability = Some(word_at(d, 0));
            }
            self.push_item(item);
        } else if slice_is_tag(name, &AI_A) || slice_is_tag(name, &AI_E) || slice_is_tag(name, &AI_F)
            || slice_is_tag(name, &AI_T) || slice_is_tag(name, &AI_W) {
            let p = Package::read(field)?;
            let ghost pv = p@;
            self.nc.packages.push(p);
            assert(self@.m.packages =~= st.m.packages.push(pv));
        } else if slice_is_tag(name, &CNDT) {
            let mut p = match self.nc.packages.pop() {
                Some(p) => p,
                None => {
                    return Err(decode_failed("Orphaned CNDT field"));
                },
            };
            proof {
                assert(p@ == st.m.packages.last());
            }
            p.read_cell_name(field)?;
            let ghost pv = p@;
            self.nc.packages.push(p);
            assert(self@.m.packages =~= st.m.packages.drop_last().push(pv));
        } else if slice_is_tag(name, &WIDX) {
            if d.len() < 8 {
                return Err(TesError::UnexpectedEof);
            }
            let index = word_at(d, 0) as usize;
            let slot = word_at(d, 1) as usize;
            let ilen = self.nc.inventory.len();
            proof {
                assert(field@.name == WIDX@);
                assert(st.m.inventory.len() == self.nc.inventory@.len());
                assert(!(npcc_step(st, field@) is Unhandled));
                assert((index as int) < st.base_indexes.len());
                assert(st.base_indexes[index as int] + slot + 1 < st.m.inventory.len());
                assert(st.base_indexes == self.base_indexes@);
            }
            let target = self.base_indexes[index] + slot + 1;
            let mut it = self.nc.inventory[target].duplicate();
            proof {
                assert(it@ == st.m.inventory[target as int]);
            }
            it.is_equipped = true;
            let ghost iv = it@;
            self.nc.inventory.set(target, it);
            assert(self@.m.inventory =~= st.m.inventory.update(target as int, iv));
        } else {
            return Err(decode_failed("Unexpected field in NPCC record"));
        }
        Ok(())
    }
}

impl NpcChange {
    /// Gets the inventory
    pub fn iter_inventory(&self) -> (r: &[InventoryItem])
        ensures
            r@.map_values(|i: InventoryItem| i@) == self@.inventory,
    {
        self.inventory.as_slice()
    }

    /// Gets the NPC's ID
    pub fn id(&self) -> (r: &str)
        ensures
            r@ == self@.id,
    {
        self.id.as_str()
    }

    /// Whether [`NpcChange::read`] handles the record's fields: reading them does not take an
    /// item off an empty stack or out of an empty inventory, or name an equipped item that is
    /// not there, before any failure
    pub fn can_read(record: &Tes3Record) -> (r: bool)
        requires
            record@.status == RecordStatus::Finalized,
        ensures
            r == npcc_handled(record@.fields),
    {
        let fields = record.fields();
        let ghost view = record@.fields;
        let mut reader = NpccReader {
            nc: NpcChange {
                id: String::new(),
                disposition: Disposition { disposition: 0, unknown1: 0, reputation: 0, unknown2: 0, index: 0 },
                inventory: Vec::new(),
                packages: Vec::new(),
            },
            stack_start: 0,
            num_shorts: 0,
            num_longs: 0,
            num_floats: 0,
            base_indexes: Vec::new(),
        };
        proof {
            assert(view.take(0) =~= Seq::<FieldModel>::empty());
            assert(reader@.m.id =~= npcc_init().m.id);
            assert(reader@.m.inventory =~= npcc_init().m.inventory);
            assert(reader@.m.packages =~= npcc_init().m.packages);
            assert(reader@.base_indexes =~= npcc_init().base_indexes);
        }
        let mut i: usize = 0;
        while i < fields.len()
            invariant
                fields@.map_values(|f: Tes3Field| f@) == view,
                view == record@.fields,
                i <= fields@.len(),
                npcc_fold(view.take(i as int)) == NpccOutcome::Next(reader@),
                forall|j: int| 0 <= j < i ==> !#[trigger] orphan_at(view, j),
            decreases fields@.len() - i,
        {
            let field = &fields[i];
            proof {
                assert(view[i as int] == field@);
                lemma_npcc_fold_step(view, i as int);
            }
            if reader.step_unhandled(field) {
                proof {
                    lemma_npcc_fold_stops(view, i + 1);
                }
                return false;
            }
            match reader.apply_field(field) {
                Ok(()) => {},
                Err(_) => {
                    proof {
                        lemma_npcc_fold_stops(view, i + 1);
                    }
                    return true;
                },
            }
            i = i + 1;
        }
        proof {
            assert(view.take(i as int) =~= view);
        }
        true
    }

    /// Reads an NPC change from an `NPCC` record
    ///
    /// Items come in stacks: an `NPCO` field starts one with a count, and each `XIDX` field
    /// takes one item off that count into an item of its own, which the fields after it
    /// describe. Items whose count ends at zero are dropped. Fails if the record is not an
    /// `NPCC` record, a field of another type occurs, a field describes an item, script or
    /// package that is not there, or a field's data does not decode. The record must not reach
    /// a state the reader does not handle: an `XIDX` field with no item, or taking an item
    /// off an empty stack, or a `WIDX` field naming an item that is not there.
    pub fn read(record: &Tes3Record) -> (r: Result<NpcChange, TesError>)
        requires
            record@.status == RecordStatus::Finalized,
            npcc_handled(record@.fields),
        ensures
            r is Ok <==> record@.name == NPCC@ && npc_change_from_fields(record@.fields) is Some,
            r matches Ok(n) ==> n@ == npc_change_from_fields(record@.fields).unwrap(),
            record@.name != NPCC@ ==> (r matches Err(e) && e is DecodeFailed),
            (exists|i: int| orphan_at(record@.fields, i)) ==> (r matches Err(e) && e is DecodeFailed),
    {
        check_record_type(record.name(), &NPCC)?;
        let fields = record.fields();
        let ghost view = record@.fields;
        let mut reader = NpccReader {
            nc: NpcChange {
                id: String::new(),
                disposition: Disposition { disposition: 0, unknown1: 0, reputation: 0, unknown2: 0, index: 0 },
                inventory: Vec::new(),
                packages: Vec::new(),
            },
            stack_start: 0,
            num_shorts: 0,
            num_longs: 0,
            num_floats: 0,
            base_indexes: Vec::new(),
        };
        proof {
            assert(view.take(0) =~= Seq::<FieldModel>::empty());
            assert(reader@.m.id =~= npcc_init().m.id);
            assert(reader@.m.inventory =~= npcc_init().m.inventory);
            assert(reader@.m.packages =~= npcc_init().m.packages);
            assert(reader@.base_indexes =~= npcc_init().base_indexes);
        }
        let mut i: usize = 0;
        while i < fields.len()
            invariant
                fields@.map_values(|f: Tes3Field| f@) == view,
                view == record@.fields,
                record@.name == NPCC@,
                npcc_handled(view),
                i <= fields@.len(),
                npcc_fold(view.take(i as int)) == NpccOutcome::Next(reader@),
                forall|j: int| 0 <= j < i ==> !#[trigger] orphan_at(view, j),
            decreases fields@.len() - i,
        {
            let field = &fields[i];
            proof {
                assert(view[i as int] == field@);
                lemma_npcc_fold_step(view, i as int);
                if npcc_step(reader@, field@) is Unhandled {
                    lemma_npcc_fold_stops(view, i + 1);
                }
            }
            let ghost before = reader@;
            match reader.apply_field(field) {
                Ok(()) => {
                    proof {
                        assert(!orphan_item_field(before, field@));
                        assert forall|j: int| 0 <= j < i + 1 implies !#[trigger] orphan_at(view, j) by {
                            if j == i {
                                assert(!orphan_at(view, j));
                            }
                        }
                    }
                },
                Err(e) => {
                    proof {
                        lemma_npcc_fold_stops(view, i + 1);
                        lemma_orphan_first(view, i as int);
                        if exists|j: int| orphan_at(view, j) {
                            let j = choose|j: int| orphan_at(view, j);
                            assert(j == i);
                            assert(orphan_item_field(before, field@));
                        }
                    }
                    return Err(e);
                },
            }
            i = i + 1;
        }
        proof {
            assert(view.take(i as int) =~= view);
            lemma_no_orphan_after_success(view);
        }
        let ghost all = reader@.m.inventory;
        let mut kept: Vec<InventoryItem> = Vec::new();
        let mut k: usize = 0;
        while k < reader.nc.inventory.len()
            invariant
                k <= reader.nc.inventory@.len(),
                all == reader@.m.inventory,
                kept@.map_values(|x: InventoryItem| x@) == all.take(k as int).filter(|x: InventoryItemModel| x.count > 0),
            decreases reader.nc.inventory@.len() - k,
        {
            proof {
                reveal(Seq::filter);
                assert(all.take(k + 1).drop_last() =~= all.take(k as int));
                assert(all[k as int] == reader.nc.inventory@[k as int]@);
            }
            if reader.nc.inventory[k].count > 0 {
                let item = reader.nc.inventory[k].duplicate();
                let ghost iv = item@;
                let ghost before = kept@.map_values(|x: InventoryItem| x@);
                kept.push(item);
                assert(kept@.map_values(|x: InventoryItem| x@) =~= before.push(iv));
            }
            k = k + 1;
        }
        proof {
            assert(all.take(k as int) =~= all);
        }
        let NpccReader { nc, .. } = reader;
        Ok(NpcChange { id: nc.id, disposition: nc.disposition, inventory: kept, packages: nc.packages })
    }
}

} // verus!
