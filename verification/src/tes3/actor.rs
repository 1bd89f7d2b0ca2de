//! The state that NPCs and creatures share: inventory, AI packages, spells, AI settings and travel
//! destinations, read from and written to the fields of their records.

use vstd::prelude::*;
use vstd::utf8::encode_utf8;

use crate::bytes::{le_bytes, lemma_le_bytes_len, push_u16, push_u32, read_u16_at};
use crate::common::data_len_ok;
use crate::error::{decode_failed, TesError};
use crate::plugin::{FieldModel, RecordStatus};
use crate::strings::{make_str_vec, no_nul, str_eq, write_str, zeros};
use crate::tags::{
    same_tag, slice_is_tag, AIDT, AI_A, AI_E, AI_F, AI_T, AI_W, CNDT, DNAM, DODT, FNAM, MODL, NPCO, NPCS,
    SCRI,
};
use crate::tes3::field::{zstring_of, Tes3Field};
use crate::tes3::form::{field_zstring, word, word_at, zstring_value};
use crate::tes3::package::{package_from_field, u16_at, with_cell_name, Package, PackageModel};
use crate::tes3::player::{padded_string_at, padded_string_exec, u32_at, u32_at_exec};
use crate::tes3::record::{RecordModel, Tes3Record};

verus! {

/// Maximum length of certain strings on actor records
pub const ACTOR_STRING_LENGTH: usize = 32;

/// Mask of the service flag bits that mean something; the others hold junk
pub const SERVICE_FLAGS_MASK: u32 = 0x3ffff;

/// Actor's AI settings
#[derive(Debug, Clone, Copy, PartialEq, Eq, Structural)]
pub struct AiSettings {
    pub hello: u16,
    pub fight: u8,
    pub flee: u8,
    pub alarm: u8,
    pub ai_unknown1: u8,
    pub ai_unknown2: u8,
    pub ai_unknown3: u8,
    pub services: u32,
}

impl Default for AiSettings {
    fn default() -> (r: AiSettings)
        ensures
            r == (AiSettings {
                hello: 0,
                fight: 0,
                flee: 0,
                alarm: 0,
                ai_unknown1: 0,
                ai_unknown2: 0,
                ai_unknown3: 0,
                services: 0,
            }),
    {
        AiSettings {
            hello: 0,
            fight: 0,
            flee: 0,
            alarm: 0,
            ai_unknown1: 0,
            ai_unknown2: 0,
            ai_unknown3: 0,
            services: 0,
        }
    }
}

/// The AI settings held by the first 12 bytes of `AIDT` data; only the meaningful service flags
/// are kept.
pub open spec fn ai_settings_from(d: Seq<u8>) -> AiSettings {
    AiSettings {
        hello: u16_at(d, 0),
        fight: d[2],
        flee: d[3],
        alarm: d[4],
        ai_unknown1: d[5],
        ai_unknown2: d[6],
        ai_unknown3: d[7],
        services: u32_at(d, 8) & SERVICE_FLAGS_MASK,
    }
}

/// The 12 bytes of `AIDT` data that hold AI settings.
pub open spec fn ai_settings_bytes(a: AiSettings) -> Seq<u8> {
    le_bytes(a.hello as nat, 2) + seq![
        a.fight,
        a.flee,
        a.alarm,
        a.ai_unknown1,
        a.ai_unknown2,
        a.ai_unknown3,
    ] + le_bytes(a.services as nat, 4)
}

impl AiSettings {
    /// Decodes AI settings from `AIDT` data
    ///
    /// Fails with [`TesError::UnexpectedEof`] if the data is shorter than 12 bytes.
    pub fn from_bytes(data: &[u8]) -> (r: Result<AiSettings, TesError>)
        ensures
            r is Ok <==> data@.len() >= 12,
            r matches Ok(a) ==> a == ai_settings_from(data@),
            r matches Err(e) ==> e is UnexpectedEof,
    {
        if data.len() < 12 {
            return Err(TesError::UnexpectedEof);
        }
        Ok(
            AiSettings {
                hello: read_u16_at(data, 0).unwrap(),
                fight: data[2],
                flee: data[3],
                alarm: data[4],
                ai_unknown1: data[5],
                ai_unknown2: data[6],
                ai_unknown3: data[7],
                services: u32_at_exec(data, 8) & SERVICE_FLAGS_MASK,
            },
        )
    }

    /// Encodes AI settings as `AIDT` data
    pub fn to_bytes(&self) -> (r: Vec<u8>)
        ensures
            r@ == ai_settings_bytes(*self),
    {
        let mut buf: Vec<u8> = Vec::new();
        push_u16(&mut buf, self.hello);
        buf.push(self.fight);
        buf.push(self.flee);
        buf.push(self.alarm);
        buf.push(self.ai_unknown1);
        buf.push(self.ai_unknown2);
        buf.push(self.ai_unknown3);
        push_u32(&mut buf, self.services);
        assert(buf@ =~= ai_settings_bytes(*self));
        buf
    }
}

/// Actor's cell travel destination; the coordinates are the bits of `f32`s
#[derive(Debug)]
pub struct Destination {
    pub position: (u32, u32, u32),
    pub rotation: (u32, u32, u32),
    pub cell_name: Option<String>,
}

/// The abstract content of a travel destination.
pub struct DestinationModel {
    pub position: (u32, u32, u32),
    pub rotation: (u32, u32, u32),
    pub cell_name: Option<Seq<char>>,
}

impl View for Destination {
    type V = DestinationModel;

    open spec fn view(&self) -> DestinationModel {
        DestinationModel {
            position: self.position,
            rotation: self.rotation,
            cell_name: match self.cell_name {
                Some(c) => Some(c@),
                None => None,
            },
        }
    }
}

/// The destination held by the first 24 bytes of `DODT` data, with no cell name yet.
pub open spec fn destination_from(d: Seq<u8>) -> DestinationModel {
    DestinationModel {
        position: (word(d, 0), word(d, 1), word(d, 2)),
        rotation: (word(d, 3), word(d, 4), word(d, 5)),
        cell_name: None,
    }
}

/// The 24 bytes of `DODT` data that hold a destination's position and rotation.
pub open spec fn destination_bytes(d: DestinationModel) -> Seq<u8> {
    le_bytes(d.position.0 as nat, 4) + le_bytes(d.position.1 as nat, 4) + le_bytes(
        d.position.2 as nat,
        4,
    ) + le_bytes(d.rotation.0 as nat, 4) + le_bytes(d.rotation.1 as nat, 4) + le_bytes(
        d.rotation.2 as nat,
        4,
    )
}

impl Destination {
    /// Decodes a destination from `DODT` data
    ///
    /// Fails with [`TesError::UnexpectedEof`] if the data is shorter than 24 bytes.
    pub fn from_bytes(data: &[u8]) -> (r: Result<Destination, TesError>)
        ensures
            r is Ok <==> data@.len() >= 24,
            r matches Ok(d) ==> d@ == destination_from(data@),
            r matches Err(e) ==> e is UnexpectedEof,
    {
        if data.len() < 24 {
            return Err(TesError::UnexpectedEof);
        }
        Ok(
            Destination {
                position: (word_at(data, 0), word_at(data, 1), word_at(data, 2)),
                rotation: (word_at(data, 3), word_at(data, 4), word_at(data, 5)),
                cell_name: None,
            },
        )
    }

    /// Encodes a destination's position and rotation as `DODT` data
    pub fn to_bytes(&self) -> (r: Vec<u8>)
        ensures
            r@ == destination_bytes(self@),
    {
        let mut buf: Vec<u8> = Vec::new();
        push_u32(&mut buf, self.position.0);
        push_u32(&mut buf, self.position.1);
        push_u32(&mut buf, self.position.2);
        push_u32(&mut buf, self.rotation.0);
        push_u32(&mut buf, self.rotation.1);
        push_u32(&mut buf, self.rotation.2);
        assert(buf@ =~= destination_bytes(self@));
        buf
    }
}

/// Some entry of `inv` has the item ID `id`.
pub open spec fn has_item(inv: Seq<(Seq<char>, u32)>, id: Seq<char>) -> bool {
    exists|i: int| 0 <= i < inv.len() && #[trigger] inv[i].0 == id
}

/// No two entries of `inv` have the same item ID.
pub open spec fn items_unique(inv: Seq<(Seq<char>, u32)>) -> bool {
    forall|i: int, j: int| 0 <= i < j < inv.len() ==> #[trigger] inv[i].0 != #[trigger] inv[j].0
}

/// `inv` with the count of `id` set to `count`: the entry with that ID replaced in place, or a
/// new entry at the end.
pub open spec fn insert_item(inv: Seq<(Seq<char>, u32)>, id: Seq<char>, count: u32) -> Seq<
    (Seq<char>, u32),
> {
    if has_item(inv, id) {
        let i = choose|i: int| 0 <= i < inv.len() && #[trigger] inv[i].0 == id;
        inv.update(i, (id, count))
    } else {
        inv.push((id, count))
    }
}

/// The abstract content of an actor's modifiable state: the inventory as (item ID, count)
/// entries, whether an item ID names one entry only (as for NPCs) or an entry is added for each
/// item given (as for creatures), and the AI packages.
pub struct ActorStateModel {
    pub keyed_inventory: bool,
    pub inventory: Seq<(Seq<char>, u32)>,
    pub packages: Seq<PackageModel>,
}

/// The inventory after `count` of the item `id` is given.
pub open spec fn item_added(m: ActorStateModel, id: Seq<char>, count: u32) -> Seq<
    (Seq<char>, u32),
> {
    if m.keyed_inventory {
        insert_item(m.inventory, id, count)
    } else {
        m.inventory.push((id, count))
    }
}

/// Reading one field into an actor's state: `NPCO` gives an item (a count, then an ID padded to
/// 32 bytes), `AI_A`, `AI_E`, `AI_F`, `AI_T` and `AI_W` add a package, and `CNDT` names the cell of
/// the last package, which must be an escort or follow package without one.
pub open spec fn state_step(m: ActorStateModel, f: FieldModel) -> Option<ActorStateModel> {
    if f.name == NPCO@ {
        if f.data.len() < 36 {
            None
        } else {
            match padded_string_at(f.data, 4, 32) {
                Some(id) => Some(
                    ActorStateModel { inventory: item_added(m, id, word(f.data, 0)), ..m },
                ),
                None => None,
            }
        }
    } else if f.name == AI_A@ || f.name == AI_E@ || f.name == AI_F@ || f.name == AI_T@ || f.name
        == AI_W@ {
        match package_from_field(f) {
            Some(p) => Some(ActorStateModel { packages: m.packages.push(p), ..m }),
            None => None,
        }
    } else if f.name == CNDT@ {
        if m.packages.len() == 0 {
            None
        } else {
            match with_cell_name(m.packages.last(), f.data) {
                Some(p) => Some(
                    ActorStateModel {
                        packages: m.packages.update(m.packages.len() - 1, p),
                        ..m
                    },
                ),
                None => None,
            }
        }
    } else {
        None
    }
}

/// Adding fields twice adds them all.
pub proof fn lemma_with_fields_twice(r: RecordModel, a: Seq<FieldModel>, b: Seq<FieldModel>)
    ensures
        with_fields(with_fields(r, a), b) == with_fields(r, a + b),
{
    if a.len() == 0 {
        assert(a + b =~= b);
    }
    if b.len() == 0 {
        assert(a + b =~= a);
    }
    assert(r.fields + a + b =~= r.fields + (a + b));
}

/// The fields of the first `i + 1` packages are those of the first `i`, then those of the next.
pub proof fn lemma_packages_fields_take(ps: Seq<PackageModel>, i: int)
    requires
        0 <= i < ps.len(),
    ensures
        packages_fields(ps.take(i + 1)) == packages_fields(ps.take(i)) + package_fields(ps[i]),
{
    assert(ps.take(i + 1).drop_last() =~= ps.take(i));
    reveal(packages_fields);
}

/// Fields that begin with the fields of a record after more were added still begin with the
/// record's own.
pub proof fn lemma_fields_prefix(r: RecordModel, a: Seq<FieldModel>, fs: Seq<FieldModel>)
    requires
        fs.len() >= with_fields(r, a).fields.len(),
        fs.take(with_fields(r, a).fields.len() as int) == with_fields(r, a).fields,
    ensures
        fs.take(r.fields.len() as int) == r.fields,
{
    let w = with_fields(r, a).fields;
    assert forall|k: int| 0 <= k < r.fields.len() implies fs[k] == r.fields[k] by {
        assert(fs.take(w.len() as int)[k] == w[k]);
    }
    assert(fs.take(r.fields.len() as int) =~= r.fields);
}

/// Finds the entry of an inventory that has an item ID.
fn find_item(inv: &Vec<(String, u32)>, id: &str) -> (r: Option<usize>)
    ensures
        r is None <==> !has_item(inv@.map_values(|e: (String, u32)| (e.0@, e.1)), id@),
        r matches Some(i) ==> i < inv@.len() && inv@[i as int].0@ == id@,
{
    let ghost v = inv@.map_values(|e: (String, u32)| (e.0@, e.1));
    let mut i: usize = 0;
    while i < inv.len()
        invariant
            v == inv@.map_values(|e: (String, u32)| (e.0@, e.1)),
            i <= inv@.len(),
            forall|j: int| 0 <= j < i ==> #[trigger] v[j].0 != id@,
        decreases inv@.len() - i,
    {
        assert(v[i as int] == (inv@[i as int].0@, inv@[i as int].1));
        if str_eq(inv[i].0.as_str(), id) {
            assert(v[i as int].0 == id@);
            return Some(i);
        }
        i = i + 1;
    }
    None
}

/// A string laid out in `n` bytes, padded with zeros.
pub open spec fn padded(s: Seq<char>, n: nat) -> Seq<u8> {
    encode_utf8(s) + zeros((n - encode_utf8(s).len()) as nat)
}

/// A string fits in `n` bytes.
pub open spec fn fits(s: Seq<char>, n: nat) -> bool {
    encode_utf8(s).len() <= n
}

/// A record with fields added at the end; adding any field marks it changed.
pub open spec fn with_fields(r: RecordModel, fs: Seq<FieldModel>) -> RecordModel {
    if fs.len() == 0 {
        r
    } else {
        RecordModel { changed: true, fields: r.fields + fs, ..r }
    }
}

/// The `NPCO` field that holds an inventory entry: the count, then the ID padded to 32 bytes.
pub open spec fn item_field(e: (Seq<char>, u32)) -> FieldModel {
    FieldModel { name: NPCO@, data: le_bytes(e.1 as nat, 4) + padded(e.0, 32) }
}

/// The fields that hold an inventory, one per entry.
pub open spec fn inventory_fields(inv: Seq<(Seq<char>, u32)>) -> Seq<FieldModel> {
    inv.map_values(|e: (Seq<char>, u32)| item_field(e))
}

/// The `CNDT` field that names a package's cell, if it has one.
pub open spec fn cell_fields(cell: Option<Seq<char>>) -> Seq<FieldModel> {
    match cell {
        Some(c) => seq![FieldModel { name: CNDT@, data: zstring_of(c) }],
        None => Seq::empty(),
    }
}

/// The fields that hold an AI package: the package's own field, whose data ends in a flag byte
/// of 1 (and, for escort, follow and travel packages, a zero byte), then for an escort or follow
/// package the `CNDT` field of its cell, if it has one.
pub open spec fn package_fields(p: PackageModel) -> Seq<FieldModel> {
    match p {
        PackageModel::Activate(s) => seq![
            FieldModel { name: AI_A@, data: padded(s, 32) + seq![1u8] },
        ],
        PackageModel::Escort { x, y, z, duration, id, cell } => seq![
            FieldModel {
                name: AI_E@,
                data: le_bytes(x as nat, 4) + le_bytes(y as nat, 4) + le_bytes(z as nat, 4)
                    + le_bytes(duration as nat, 2) + padded(id, 32) + seq![1u8, 0u8],
            },
        ] + cell_fields(cell),
        PackageModel::Follow { x, y, z, duration, id, cell } => seq![
            FieldModel {
                name: AI_F@,
                data: le_bytes(x as nat, 4) + le_bytes(y as nat, 4) + le_bytes(z as nat, 4)
                    + le_bytes(duration as nat, 2) + padded(id, 32) + seq![1u8, 0u8],
            },
        ] + cell_fields(cell),
        PackageModel::Travel { x, y, z } => seq![
            FieldModel {
                name: AI_T@,
                data: le_bytes(x as nat, 4) + le_bytes(y as nat, 4) + le_bytes(z as nat, 4)
                    + seq![1u8, 0u8],
            },
        ],
        PackageModel::Wander { distance, duration, time_of_day, idles } => seq![
            FieldModel {
                name: AI_W@,
                data: le_bytes(distance as nat, 2) + le_bytes(duration as nat, 2) + seq![
                    time_of_day,
                ] + idles + seq![1u8],
            },
        ],
    }
}

/// The fields that hold a list of AI packages, in order.
#[verifier::opaque]
pub open spec fn packages_fields(ps: Seq<PackageModel>) -> Seq<FieldModel>
    decreases ps.len(),
{
    if ps.len() == 0 {
        Seq::empty()
    } else {
        packages_fields(ps.drop_last()) + package_fields(ps.last())
    }
}

/// A package's IDs fit the 32 bytes that hold them.
pub open spec fn package_ids_fit(p: PackageModel) -> bool {
    match p {
        PackageModel::Activate(s) => fits(s, 32),
        PackageModel::Escort { id, .. } => fits(id, 32),
        PackageModel::Follow { id, .. } => fits(id, 32),
        _ => true,
    }
}

/// An optional string can be written as a null-terminated field.
pub open spec fn zstring_writable(cell: Option<Seq<char>>) -> bool {
    match cell {
        Some(c) => no_nul(encode_utf8(c)) && data_len_ok(zstring_of(c).len()),
        None => true,
    }
}

/// A package's cell name, if it has one.
pub open spec fn package_cell(p: PackageModel) -> Option<Seq<char>> {
    match p {
        PackageModel::Escort { cell, .. } => cell,
        PackageModel::Follow { cell, .. } => cell,
        _ => None,
    }
}

/// [`state_step`] as a function value.
pub open spec fn state_step_fn() -> spec_fn(ActorStateModel, FieldModel) -> Option<ActorStateModel> {
    |m: ActorStateModel, f: FieldModel| state_step(m, f)
}

/// A creature or NPC's modifiable state
pub struct ActorState {
    keyed_inventory: bool,
    inventory: Vec<(String, u32)>,
    packages: Vec<Package>,
}

impl View for ActorState {
    type V = ActorStateModel;

    closed spec fn view(&self) -> ActorStateModel {
        ActorStateModel {
            keyed_inventory: self.keyed_inventory,
            inventory: self.inventory@.map_values(|e: (String, u32)| (e.0@, e.1)),
            packages: self.packages@.map_values(|p: Package| p@),
        }
    }
}

impl ActorState {
    /// The inventory names each item once where it is keyed by item ID.
    pub open spec fn wf(&self) -> bool {
        self@.keyed_inventory ==> items_unique(self@.inventory)
    }

    /// Creates an empty state; with `keyed_inventory`, giving an item that is already in the
    /// inventory replaces its count, as for NPCs, else it adds another entry, as for creatures
    pub fn new(keyed_inventory: bool) -> (r: ActorState)
        ensures
            r.wf(),
            r@ == (ActorStateModel {
                keyed_inventory,
                inventory: Seq::empty(),
                packages: Seq::empty(),
            }),
    {
        let r = ActorState { keyed_inventory, inventory: Vec::new(), packages: Vec::new() };
        assert(r@.inventory =~= Seq::<(Seq<char>, u32)>::empty());
        assert(r@.packages =~= Seq::<PackageModel>::empty());
        r
    }

    /// Gets this actor's AI packages
    pub fn iter_packages(&self) -> (r: &[Package])
        ensures
            r@.map_values(|p: Package| p@) == self@.packages,
    {
        self.packages.as_slice()
    }

    /// Adds an AI package to this actor
    pub fn add_package(&mut self, package: Package)
        requires
            old(self).wf(),
        ensures
            final(self).wf(),
            final(self)@ == (ActorStateModel {
                packages: old(self)@.packages.push(package@),
                ..old(self)@
            }),
    {
        let ghost p = package@;
        self.packages.push(package);
        assert(self@.packages =~= old(self)@.packages.push(p));
        assert(self@.inventory =~= old(self)@.inventory);
    }

    /// Gets this actor's inventory, as (item ID, count) entries
    pub fn iter_inventory(&self) -> (r: &[(String, u32)])
        ensures
            r@.map_values(|e: (String, u32)| (e.0@, e.1)) == self@.inventory,
    {
        self.inventory.as_slice()
    }

    /// Adds an item to this actor's inventory
    pub fn add_item(&mut self, item_id: String, count: u32)
        requires
            old(self).wf(),
        ensures
            final(self).wf(),
            final(self)@ == (ActorStateModel {
                inventory: item_added(old(self)@, item_id@, count),
                ..old(self)@
            }),
    {
        let ghost inv = self@.inventory;
        let ghost id = item_id@;
        if self.keyed_inventory {
            if let Some(i) = find_item(&self.inventory, item_id.as_str()) {
                proof {
                    assert(inv[i as int] == (self.inventory@[i as int].0@, self.inventory@[i as int].1));
                    assert(inv[i as int].0 == id);
                    let k = choose|k: int| 0 <= k < inv.len() && #[trigger] inv[k].0 == id;
                    assert(inv[k].0 == id);
                    assert(items_unique(inv));
                    if k < i as int {
                        assert(inv[k].0 != inv[i as int].0);
                    } else if k > i as int {
                        assert(inv[i as int].0 != inv[k].0);
                    }
                    assert(k == i as int);
                }
                self.inventory.set(i, (item_id, count));
                assert(self@.inventory =~= insert_item(inv, id, count));
                assert(self@.packages =~= old(self)@.packages);
                return ;
            }
        }
        self.inventory.push((item_id, count));
        assert(self@.inventory =~= inv.push((id, count)));
        assert(self@.packages =~= old(self)@.packages);
    }

    /// Reads an actor data field and populates this actor's state appropriately
    ///
    /// Fails, changing nothing, if the field is not an inventory, AI package or package cell
    /// field, if its data does not decode, or if a cell name has no package to go to.
    pub fn read_actor_state_field(&mut self, field: &Tes3Field) -> (r: Result<(), TesError>)
        requires
            old(self).wf(),
        ensures
            final(self).wf(),
            r is Ok <==> state_step(old(self)@, field@) is Some,
            r is Ok ==> final(self)@ == state_step(old(self)@, field@).unwrap(),
            r is Err ==> final(self)@ == old(self)@,
    {
        let name = field.name();
        if slice_is_tag(name, &NPCO) {
            let d = field.get();
            if d.len() < 36 {
                return Err(TesError::UnexpectedEof);
            }
            let count = word_at(d, 0);
            let id = padded_string_exec(d, 4, 32)?;
            self.add_item(id, count);
        } else if slice_is_tag(name, &AI_A) || slice_is_tag(name, &AI_E) || slice_is_tag(
            name,
            &AI_F,
        ) || slice_is_tag(name, &AI_T) || slice_is_tag(name, &AI_W) {
            let package = Package::read(field)?;
            self.add_package(package);
        } else if slice_is_tag(name, &CNDT) {
            let n = self.packages.len();
            if n == 0 {
                return Err(decode_failed("Orphaned CNDT field"));
            }
            let ghost before = self@;
            let mut package = self.packages.pop().unwrap();
            proof {
                assert(before.packages.last() == package@);
            }
            let result = package.read_cell_name(field);
            self.packages.push(package);
            proof {
                if result is Ok {
                    assert(self@.packages =~= before.packages.update(
                        before.packages.len() - 1,
                        with_cell_name(before.packages.last(), field@.data).unwrap(),
                    ));
                } else {
                    assert(self@.packages =~= before.packages);
                }
                assert(self@.inventory =~= before.inventory);
            }
            result?;
        } else {
            return Err(decode_failed("Unknown actor state field"));
        }
        Ok(())
    }

    /// Writes the actor's inventory to the provided record, one `NPCO` field per entry
    pub fn write_inventory(&self, record: &mut Tes3Record) -> (r: Result<(), TesError>)
        requires
            old(record).wf(),
            old(record)@.status == RecordStatus::Finalized,
            forall|i: int| 0 <= i < self@.inventory.len() ==> fits(#[trigger] self@.inventory[i].0, 32),
        ensures
            r is Ok,
            final(record).wf(),
            final(record)@ == with_fields(old(record)@, inventory_fields(self@.inventory)),
    {
        let ghost inv = self@.inventory;
        let mut i: usize = 0;
        while i < self.inventory.len()
            invariant
                inv == self@.inventory,
                forall|k: int| 0 <= k < inv.len() ==> fits(#[trigger] inv[k].0, 32),
                i <= inv.len(),
                record.wf(),
                record@.status == RecordStatus::Finalized,
                record@ == with_fields(old(record)@, inventory_fields(inv.take(i as int))),
            decreases inv.len() - i,
        {
            let entry = &self.inventory[i];
            assert(inv[i as int] == (entry.0@, entry.1));
            let id = entry.0.as_str();
            assert(fits(inv[i as int].0, 32));
            let mut buf: Vec<u8> = Vec::new();
            push_u32(&mut buf, entry.1);
            write_str::<32>(id, &mut buf);
            assert(buf@ =~= item_field(inv[i as int]).data);
            proof {
                lemma_le_bytes_len(entry.1 as nat, 4);
                assert(buf@.len() == 36);
            }
            let field = match Tes3Field::new(&NPCO, buf) {
                Ok(f) => f,
                Err(e) => {
                    return Err(e);
                },
            };
            record.add_field(field);
            assert(inventory_fields(inv.take(i + 1)) =~= inventory_fields(inv.take(i as int)).push(
                item_field(inv[i as int]),
            ));
            i = i + 1;
        }
        assert(inv.take(i as int) =~= inv);
        Ok(())
    }

    /// Writes the actor's AI packages to the provided record
    ///
    /// Fails if a cell name holds a null byte or is too long for a field; the fields of the
    /// packages before it have then been written.
    pub fn write_packages(&self, record: &mut Tes3Record) -> (r: Result<(), TesError>)
        requires
            old(record).wf(),
            old(record)@.status == RecordStatus::Finalized,
            forall|i: int| 0 <= i < self@.packages.len() ==> package_ids_fit(#[trigger] self@.packages[i]),
        ensures
            final(record).wf(),
            final(record)@.status == RecordStatus::Finalized,
            r is Ok <==> forall|i: int| 0 <= i < self@.packages.len() ==> zstring_writable(package_cell(#[trigger] self@.packages[i])),
            r is Ok ==> final(record)@ == with_fields(old(record)@, packages_fields(self@.packages)),
            final(record)@.fields.len() >= old(record)@.fields.len(),
            final(record)@.fields.take(old(record)@.fields.len() as int) == old(record)@.fields,
            final(record)@.name == old(record)@.name,
    {
        let ghost ps = self@.packages;
        let mut i: usize = 0;
        assert(packages_fields(ps.take(0)) =~= Seq::<FieldModel>::empty()) by {
            reveal(packages_fields);
        }
        while i < self.packages.len()
            invariant
                ps == self@.packages,
                forall|k: int| 0 <= k < ps.len() ==> package_ids_fit(#[trigger] ps[k]),
                forall|k: int| 0 <= k < i ==> zstring_writable(package_cell(#[trigger] ps[k])),
                i <= ps.len(),
                record.wf(),
                record@.status == RecordStatus::Finalized,
                record@ == with_fields(old(record)@, packages_fields(ps.take(i as int))),
            decreases ps.len() - i,
        {
            let package = &self.packages[i];
            assert(ps[i as int] == package@);
            let ghost before = record@;
            let ok = write_package(package, record);
            if !ok {
                proof {
                    lemma_fields_prefix(old(record)@, packages_fields(ps.take(i as int)), record@.fields);
                }
                return Err(decode_failed("Invalid package cell name"));
            }
            proof {
                lemma_packages_fields_take(ps, i as int);
                lemma_with_fields_twice(old(record)@, packages_fields(ps.take(i as int)), package_fields(ps[i as int]));
            }
            i = i + 1;
        }
        assert(ps.take(i as int) =~= ps);
        proof {
            if packages_fields(ps).len() == 0 {
                assert(record@.fields =~= old(record)@.fields);
            }
        }
        assert(record@.fields.take(old(record)@.fields.len() as int) =~= old(record)@.fields);
        Ok(())
    }
}

/// The name and data of a package's own field, and its cell name.
fn package_head(package: &Package) -> (r: ([u8; 4], Vec<u8>, Option<String>))
    requires
        package_ids_fit(package@),
    ensures
        r.0@ == package_fields(package@)[0].name,
        r.1@ == package_fields(package@)[0].data,
        r.1@.len() <= 48,
        package_cell(package@) == (match r.2 {
            Some(c) => Some(c@),
            None => None,
        }),
{
    let mut buf: Vec<u8> = Vec::new();
    match package {
        Package::Activate(activator) => {
            let a = activator.as_str();
            write_str::<32>(a, &mut buf);
            buf.push(1u8);
            assert(buf@ =~= package_fields(package@)[0].data);
            (AI_A, buf, None)
        },
        Package::Escort { x, y, z, duration, id, cell } => {
            let i = id.as_str();
            push_u32(&mut buf, *x);
            push_u32(&mut buf, *y);
            push_u32(&mut buf, *z);
            push_u16(&mut buf, *duration);
            write_str::<32>(i, &mut buf);
            buf.push(1u8);
            buf.push(0u8);
            proof {
                lemma_le_bytes_len(*x as nat, 4);
                lemma_le_bytes_len(*y as nat, 4);
                lemma_le_bytes_len(*z as nat, 4);
                lemma_le_bytes_len(*duration as nat, 2);
            }
            assert(buf@ =~= package_fields(package@)[0].data);
            (AI_E, buf, cell.clone())
        },
        Package::Follow { x, y, z, duration, id, cell } => {
            let i = id.as_str();
            push_u32(&mut buf, *x);
            push_u32(&mut buf, *y);
            push_u32(&mut buf, *z);
            push_u16(&mut buf, *duration);
            write_str::<32>(i, &mut buf);
            buf.push(1u8);
            buf.push(0u8);
            proof {
                lemma_le_bytes_len(*x as nat, 4);
                lemma_le_bytes_len(*y as nat, 4);
                lemma_le_bytes_len(*z as nat, 4);
                lemma_le_bytes_len(*duration as nat, 2);
            }
            assert(buf@ =~= package_fields(package@)[0].data);
            (AI_F, buf, cell.clone())
        },
        Package::Travel { x, y, z } => {
            push_u32(&mut buf, *x);
            push_u32(&mut buf, *y);
            push_u32(&mut buf, *z);
            buf.push(1u8);
            buf.push(0u8);
            proof {
                lemma_le_bytes_len(*x as nat, 4);
                lemma_le_bytes_len(*y as nat, 4);
                lemma_le_bytes_len(*z as nat, 4);
            }
            assert(buf@ =~= package_fields(package@)[0].data);
            (AI_T, buf, None)
        },
        Package::Wander { distance, duration, time_of_day, idles } => {
            push_u16(&mut buf, *distance);
            push_u16(&mut buf, *duration);
            buf.push(*time_of_day);
            let mut k: usize = 0;
            while k < 8
                invariant
                    0 <= k <= 8,
                    buf@ == le_bytes(*distance as nat, 2) + le_bytes(*duration as nat, 2) + seq![
                        *time_of_day,
                    ] + idles@.take(k as int),
                decreases 8 - k,
            {
                buf.push(idles[k]);
                assert(idles@.take(k + 1) =~= idles@.take(k as int).push(idles@[k as int]));
                k = k + 1;
            }
            assert(idles@.take(8) =~= idles@);
            buf.push(1u8);
            proof {
                lemma_le_bytes_len(*distance as nat, 2);
                lemma_le_bytes_len(*duration as nat, 2);
            }
            assert(buf@ =~= package_fields(package@)[0].data);
            (AI_W, buf, None)
        },
    }
}

/// Writes the fields of one AI package; false, after writing the package's own field, if its
/// cell name cannot be written.
fn write_package(package: &Package, record: &mut Tes3Record) -> (ok: bool)
    requires
        old(record).wf(),
        old(record)@.status == RecordStatus::Finalized,
        package_ids_fit(package@),
    ensures
        final(record).wf(),
        final(record)@.status == RecordStatus::Finalized,
        ok <==> zstring_writable(package_cell(package@)),
        ok ==> final(record)@ == with_fields(old(record)@, package_fields(package@)),
        final(record)@.fields.len() >= old(record)@.fields.len(),
        final(record)@.fields.take(old(record)@.fields.len() as int) == old(record)@.fields,
        final(record)@.name == old(record)@.name,
{
    let (name, buf, cell_name) = package_head(package);
    let ghost first = package_fields(package@)[0];
    let field = match Tes3Field::new(&name, buf) {
        Ok(f) => f,
        Err(_) => {
            return false;
        },
    };
    record.add_field(field);
    match cell_name {
        Some(c) => {
            match Tes3Field::new_zstring(&CNDT, c) {
                Ok(f) => {
                    record.add_field(f);
                    assert(package_fields(package@) =~= seq![first] + cell_fields(package_cell(package@)));
                    assert(record@.fields =~= old(record)@.fields + package_fields(package@));
                },
                Err(_) => {
                    assert(record@.fields.take(old(record)@.fields.len() as int) =~= old(record)@.fields);
                    return false;
                },
            }
        },
        None => {
            assert(package_fields(package@) =~= seq![first]);
            assert(record@.fields =~= old(record)@.fields + package_fields(package@));
        },
    }
    assert(record@.fields.take(old(record)@.fields.len() as int) =~= old(record)@.fields);
    true
}


/// The abstract content of a creature or NPC as held by the fields that all actors share.
pub struct ActorModel {
    pub name: Option<Seq<char>>,
    pub model: Option<Seq<char>>,
    pub script: Option<Seq<char>>,
    pub spells: Seq<Seq<char>>,
    pub ai_settings: AiSettings,
    pub destinations: Seq<DestinationModel>,
    pub state: ActorStateModel,
}

/// An actor with nothing read yet.
pub open spec fn empty_actor(keyed_inventory: bool) -> ActorModel {
    ActorModel {
        name: None,
        model: None,
        script: None,
        spells: Seq::empty(),
        ai_settings: AiSettings {
            hello: 0,
            fight: 0,
            flee: 0,
            alarm: 0,
            ai_unknown1: 0,
            ai_unknown2: 0,
            ai_unknown3: 0,
            services: 0,
        },
        destinations: Seq::empty(),
        state: ActorStateModel { keyed_inventory, inventory: Seq::empty(), packages: Seq::empty() },
    }
}

/// The destination with the cell name in `data`, if it has none yet and `data` holds a
/// null-terminated string.
pub open spec fn with_destination_cell(d: DestinationModel, data: Seq<u8>) -> Option<
    DestinationModel,
> {
    match (d.cell_name, zstring_value(data)) {
        (None, Some(c)) => Some(DestinationModel { cell_name: Some(c), ..d }),
        _ => None,
    }
}

/// Reading one field into an actor: `MODL`, `FNAM` and `SCRI` hold the model, name and script;
/// `NPCS` adds a spell ID padded to 32 bytes; `AIDT` holds the AI settings; `DODT` adds a travel
/// destination and `DNAM` names the cell of the last one, which must not have one yet; any other
/// field goes to the actor's state.
pub open spec fn actor_step(a: ActorModel, f: FieldModel) -> Option<ActorModel> {
    let d = f.data;
    if f.name == MODL@ {
        match zstring_value(d) {
            Some(v) => Some(ActorModel { model: Some(v), ..a }),
            None => None,
        }
    } else if f.name == FNAM@ {
        match zstring_value(d) {
            Some(v) => Some(ActorModel { name: Some(v), ..a }),
            None => None,
        }
    } else if f.name == SCRI@ {
        match zstring_value(d) {
            Some(v) => Some(ActorModel { script: Some(v), ..a }),
            None => None,
        }
    } else if f.name == NPCS@ {
        if d.len() < 32 {
            None
        } else {
            match padded_string_at(d, 0, 32) {
                Some(v) => Some(ActorModel { spells: a.spells.push(v), ..a }),
                None => None,
            }
        }
    } else if f.name == AIDT@ {
        if d.len() < 12 {
            None
        } else {
            Some(ActorModel { ai_settings: ai_settings_from(d), ..a })
        }
    } else if f.name == DODT@ {
        if d.len() < 24 {
            None
        } else {
            Some(ActorModel { destinations: a.destinations.push(destination_from(d)), ..a })
        }
    } else if f.name == DNAM@ {
        if a.destinations.len() == 0 {
            None
        } else {
            match with_destination_cell(a.destinations.last(), d) {
                Some(dest) => Some(
                    ActorModel {
                        destinations: a.destinations.update(a.destinations.len() - 1, dest),
                        ..a
                    },
                ),
                None => None,
            }
        }
    } else {
        match state_step(a.state, f) {
            Some(st) => Some(ActorModel { state: st, ..a }),
            None => None,
        }
    }
}

/// [`actor_step`] as a function value.
pub open spec fn actor_step_fn() -> spec_fn(ActorModel, FieldModel) -> Option<ActorModel> {
    |a: ActorModel, f: FieldModel| actor_step(a, f)
}

/// The view of an optional string.
pub open spec fn opt_view(o: Option<String>) -> Option<Seq<char>> {
    match o {
        Some(s) => Some(s@),
        None => None,
    }
}

/// Borrows an optional string as an optional `&str`.
fn opt_str(o: &Option<String>) -> (r: Option<&str>)
    ensures
        r is Some <==> o is Some,
        r matches Some(s) ==> s@ == o.unwrap()@,
{
    match o {
        Some(s) => Some(s.as_str()),
        None => None,
    }
}

/// The string an actor holds under a scalar field name.
pub open spec fn named_string(a: ActorModel, name: Seq<u8>) -> Option<Seq<char>> {
    if name == MODL@ {
        a.model
    } else if name == FNAM@ {
        a.name
    } else {
        a.script
    }
}

/// The fields written for one scalar field name: for `MODL`, `FNAM` and `SCRI` the
/// null-terminated model, name or script, if the actor has one, and for `AIDT` the AI settings;
/// `None` for another name or a string that cannot be written.
pub open spec fn scalar_field(a: ActorModel, name: Seq<u8>) -> Option<Seq<FieldModel>> {
    if name == MODL@ || name == FNAM@ || name == SCRI@ {
        match named_string(a, name) {
            Some(v) => if zstring_writable(Some(v)) {
                Some(seq![FieldModel { name, data: zstring_of(v) }])
            } else {
                None
            },
            None => Some(Seq::empty()),
        }
    } else if name == AIDT@ {
        Some(seq![FieldModel { name, data: ai_settings_bytes(a.ai_settings) }])
    } else {
        None
    }
}

/// The fields written for a list of scalar field names, in order; `None` if one of them cannot
/// be written.
#[verifier::opaque]
pub open spec fn scalar_fields(a: ActorModel, names: Seq<Seq<u8>>) -> Option<Seq<FieldModel>>
    decreases names.len(),
{
    if names.len() == 0 {
        Some(Seq::empty())
    } else {
        match (scalar_fields(a, names.drop_last()), scalar_field(a, names.last())) {
            (Some(x), Some(y)) => Some(x + y),
            _ => None,
        }
    }
}

/// One more name is one more step.
pub proof fn lemma_scalar_fields_take(a: ActorModel, names: Seq<Seq<u8>>, i: int)
    requires
        0 <= i < names.len(),
    ensures
        scalar_fields(a, names.take(i + 1)) == match (
            scalar_fields(a, names.take(i)),
            scalar_field(a, names[i]),
        ) {
            (Some(x), Some(y)) => Some(x + y),
            _ => None,
        },
{
    assert(names.take(i + 1).drop_last() =~= names.take(i));
    reveal(scalar_fields);
}

/// Once the first names cannot be written, the list cannot.
pub proof fn lemma_scalar_fields_none(a: ActorModel, names: Seq<Seq<u8>>, j: int)
    requires
        0 <= j <= names.len(),
        scalar_fields(a, names.take(j)) is None,
    ensures
        scalar_fields(a, names) is None,
    decreases names.len() - j,
{
    if j < names.len() {
        lemma_scalar_fields_take(a, names, j);
        lemma_scalar_fields_none(a, names, j + 1);
    } else {
        assert(names.take(j) =~= names);
    }
}

/// The `NPCS` fields that hold a list of spells.
pub open spec fn spells_fields(sp: Seq<Seq<char>>) -> Seq<FieldModel> {
    sp.map_values(|s: Seq<char>| FieldModel { name: NPCS@, data: padded(s, 32) })
}

/// The fields that hold a travel destination: `DODT`, then `DNAM` if it names a cell.
pub open spec fn destination_fields(d: DestinationModel) -> Seq<FieldModel> {
    seq![FieldModel { name: DODT@, data: destination_bytes(d) }] + match d.cell_name {
        Some(c) => seq![FieldModel { name: DNAM@, data: zstring_of(c) }],
        None => Seq::empty(),
    }
}

/// The fields that hold a list of travel destinations, in order.
#[verifier::opaque]
pub open spec fn destinations_fields(ds: Seq<DestinationModel>) -> Seq<FieldModel>
    decreases ds.len(),
{
    if ds.len() == 0 {
        Seq::empty()
    } else {
        destinations_fields(ds.drop_last()) + destination_fields(ds.last())
    }
}

/// The fields of the first `i + 1` destinations are those of the first `i`, then the next's.
pub proof fn lemma_destinations_fields_take(ds: Seq<DestinationModel>, i: int)
    requires
        0 <= i < ds.len(),
    ensures
        destinations_fields(ds.take(i + 1)) == destinations_fields(ds.take(i)) + destination_fields(
            ds[i],
        ),
{
    assert(ds.take(i + 1).drop_last() =~= ds.take(i));
    reveal(destinations_fields);
}

/// Adding fields never removes any.
pub proof fn lemma_with_fields_len(r: RecordModel, a: Seq<FieldModel>)
    ensures
        with_fields(r, a).fields.len() >= r.fields.len(),
{
}

/// A creature or NPC
pub struct Actor {
    name: Option<String>,
    model: Option<String>,
    script: Option<String>,
    spells: Vec<String>,
    ai_settings: AiSettings,
    destinations: Vec<Destination>,
    state: ActorState,
}

impl View for Actor {
    type V = ActorModel;

    closed spec fn view(&self) -> ActorModel {
        ActorModel {
            name: opt_view(self.name),
            model: opt_view(self.model),
            script: opt_view(self.script),
            spells: self.spells@.map_values(|s: String| s@),
            ai_settings: self.ai_settings,
            destinations: self.destinations@.map_values(|d: Destination| d@),
            state: self.state@,
        }
    }
}

impl Actor {
    /// The actor's state is well formed.
    pub open spec fn wf(&self) -> bool {
        self@.state.keyed_inventory ==> items_unique(self@.state.inventory)
    }

    /// Creates an actor with no fields read yet; see [`ActorState::new`] for `keyed_inventory`
    pub fn new(keyed_inventory: bool) -> (r: Actor)
        ensures
            r.wf(),
            r@ == empty_actor(keyed_inventory),
    {
        let r = Actor {
            name: None,
            model: None,
            script: None,
            spells: Vec::new(),
            ai_settings: AiSettings::default(),
            destinations: Vec::new(),
            state: ActorState::new(keyed_inventory),
        };
        assert(r@.spells =~= Seq::<Seq<char>>::empty());
        assert(r@.destinations =~= Seq::<DestinationModel>::empty());
        r
    }

    /// Gets this actor's name, if any
    pub fn name(&self) -> (r: Option<&str>)
        ensures
            r is Some <==> self@.name is Some,
            r matches Some(s) ==> s@ == self@.name.unwrap(),
    {
        opt_str(&self.name)
    }

    /// Sets this actor's name
    pub fn set_name(&mut self, name: Option<String>)
        requires
            old(self).wf(),
        ensures
            final(self).wf(),
            final(self)@ == (ActorModel { name: opt_view(name), ..old(self)@ }),
    {
        self.name = name;
    }

    /// Gets this actor's NIF model, if any
    pub fn model(&self) -> (r: Option<&str>)
        ensures
            r is Some <==> self@.model is Some,
            r matches Some(s) ==> s@ == self@.model.unwrap(),
    {
        opt_str(&self.model)
    }

    /// Sets this actor's NIF model
    pub fn set_model(&mut self, model: Option<String>)
        requires
            old(self).wf(),
        ensures
            final(self).wf(),
            final(self)@ == (ActorModel { model: opt_view(model), ..old(self)@ }),
    {
        self.model = model;
    }

    /// Gets this actor's script, if any
    pub fn script(&self) -> (r: Option<&str>)
        ensures
            r is Some <==> self@.script is Some,
            r matches Some(s) ==> s@ == self@.script.unwrap(),
    {
        opt_str(&self.script)
    }

    /// Sets this actor's script
    pub fn set_script(&mut self, script: Option<String>)
        requires
            old(self).wf(),
        ensures
            final(self).wf(),
            final(self)@ == (ActorModel { script: opt_view(script), ..old(self)@ }),
    {
        self.script = script;
    }

    /// Gets this actor's spells
    pub fn iter_spells(&self) -> (r: &[String])
        ensures
            r@.map_values(|s: String| s@) == self@.spells,
    {
        self.spells.as_slice()
    }

    /// Adds a spell to this actor
    pub fn add_spell(&mut self, spell_id: String)
        requires
            old(self).wf(),
        ensures
            final(self).wf(),
            final(self)@ == (ActorModel { spells: old(self)@.spells.push(spell_id@), ..old(self)@ }),
    {
        let ghost v = spell_id@;
        self.spells.push(spell_id);
        assert(self@.spells =~= old(self)@.spells.push(v));
        assert(self@.destinations =~= old(self)@.destinations);
    }

    /// Gets this actor's AI settings
    pub fn ai_settings(&self) -> (r: &AiSettings)
        ensures
            *r == self@.ai_settings,
    {
        &self.ai_settings
    }

    /// Sets this actor's AI settings
    pub fn set_ai_settings(&mut self, settings: AiSettings)
        requires
            old(self).wf(),
        ensures
            final(self).wf(),
            final(self)@ == (ActorModel { ai_settings: settings, ..old(self)@ }),
    {
        self.ai_settings = settings;
    }

    /// Gets this actor's travel destinations
    pub fn iter_destinations(&self) -> (r: &[Destination])
        ensures
            r@.map_values(|d: Destination| d@) == self@.destinations,
    {
        self.destinations.as_slice()
    }

    /// Adds a travel destination to this actor
    pub fn add_destination(&mut self, destination: Destination)
        requires
            old(self).wf(),
        ensures
            final(self).wf(),
            final(self)@ == (ActorModel {
                destinations: old(self)@.destinations.push(destination@),
                ..old(self)@
            }),
    {
        let ghost v = destination@;
        self.destinations.push(destination);
        assert(self@.destinations =~= old(self)@.destinations.push(v));
        assert(self@.spells =~= old(self)@.spells);
    }

    /// Gets this actor's modifiable state: its inventory and AI packages
    pub fn state(&self) -> (r: &ActorState)
        ensures
            r@ == self@.state,
            self.wf() ==> r.wf(),
    {
        &self.state
    }

    /// Adds an AI package to this actor
    pub fn add_package(&mut self, package: Package)
        requires
            old(self).wf(),
        ensures
            final(self).wf(),
            final(self)@ == (ActorModel {
                state: ActorStateModel {
                    packages: old(self)@.state.packages.push(package@),
                    ..old(self)@.state
                },
                ..old(self)@
            }),
    {
        self.state.add_package(package);
    }

    /// Adds an item to this actor's inventory
    pub fn add_item(&mut self, item_id: String, count: u32)
        requires
            old(self).wf(),
        ensures
            final(self).wf(),
            final(self)@ == (ActorModel {
                state: ActorStateModel {
                    inventory: item_added(old(self)@.state, item_id@, count),
                    ..old(self)@.state
                },
                ..old(self)@
            }),
    {
        self.state.add_item(item_id, count);
    }

    /// Names the cell of the last travel destination.
    fn read_destination_cell(&mut self, field: &Tes3Field) -> (r: Result<(), TesError>)
        requires
            old(self).wf(),
            old(self)@.destinations.len() > 0,
        ensures
            final(self).wf(),
            r is Ok <==> with_destination_cell(old(self)@.destinations.last(), field@.data) is Some,
            r is Ok ==> final(self)@ == (ActorModel {
                destinations: old(self)@.destinations.update(
                    old(self)@.destinations.len() - 1,
                    with_destination_cell(old(self)@.destinations.last(), field@.data).unwrap(),
                ),
                ..old(self)@
            }),
    {
        let n = self.destinations.len();
        let ghost before = self@;
        if self.destinations[n - 1].cell_name.is_some() {
            return Err(decode_failed("Orphaned DNAM field"));
        }
        let cell = field_zstring(field)?;
        let mut last = self.destinations.pop().unwrap();
        assert(before.destinations.last() == last@);
        last.cell_name = Some(cell);
        self.destinations.push(last);
        assert(self@.destinations =~= before.destinations.update(
            before.destinations.len() - 1,
            with_destination_cell(before.destinations.last(), field@.data).unwrap(),
        ));
        assert(self@.spells =~= before.spells);
        Ok(())
    }

    /// Reads an actor data field and populates this actor appropriately
    ///
    /// Fails if the field is not one that actors have, or if its data does not decode.
    pub fn read_actor_field(&mut self, field: &Tes3Field) -> (r: Result<(), TesError>)
        requires
            old(self).wf(),
        ensures
            final(self).wf(),
            r is Ok <==> actor_step(old(self)@, field@) is Some,
            r is Ok ==> final(self)@ == actor_step(old(self)@, field@).unwrap(),
    {
        let name = field.name();
        if slice_is_tag(name, &MODL) {
            self.model = Some(field_zstring(field)?);
        } else if slice_is_tag(name, &FNAM) {
            self.name = Some(field_zstring(field)?);
        } else if slice_is_tag(name, &SCRI) {
            self.script = Some(field_zstring(field)?);
        } else if slice_is_tag(name, &NPCS) {
            let d = field.get();
            if d.len() < 32 {
                return Err(decode_failed("Could not parse NPCS"));
            }
            let spell = padded_string_exec(d, 0, 32)?;
            self.add_spell(spell);
        } else if slice_is_tag(name, &AIDT) {
            self.ai_settings = AiSettings::from_bytes(field.get())?;
        } else if slice_is_tag(name, &DODT) {
            let destination = Destination::from_bytes(field.get())?;
            self.add_destination(destination);
        } else if slice_is_tag(name, &DNAM) {
            if self.destinations.len() == 0 {
                return Err(decode_failed("Orphaned DNAM field"));
            }
            self.read_destination_cell(field)?;
        } else {
            self.state.read_actor_state_field(field)?;
        }
        Ok(())
    }

    /// Writes zero or more actor data fields to the provided record: `MODL`, `FNAM` and `SCRI`
    /// where the actor has a model, name or script, and `AIDT`
    ///
    /// Fails with [`TesError::RequirementFailed`] at the first other name, or if a string to
    /// write holds a null byte or is too long for a field; the fields for the names before it
    /// have then been written.
    pub fn write_scalar_fields(&self, record: &mut Tes3Record, fields: &[&[u8; 4]]) -> (r: Result<
        (),
        TesError,
    >)
        requires
            old(record).wf(),
            old(record)@.status == RecordStatus::Finalized,
        ensures
            final(record).wf(),
            final(record)@.status == RecordStatus::Finalized,
            r is Ok <==> scalar_fields(self@, fields@.map_values(|n: &[u8; 4]| n@)) is Some,
            r is Ok ==> final(record)@ == with_fields(
                old(record)@,
                scalar_fields(self@, fields@.map_values(|n: &[u8; 4]| n@)).unwrap(),
            ),
            final(record)@.fields.len() >= old(record)@.fields.len(),
            final(record)@.fields.take(old(record)@.fields.len() as int) == old(record)@.fields,
    {
        let ghost names = fields@.map_values(|n: &[u8; 4]| n@);
        let mut i: usize = 0;
        assert(scalar_fields(self@, names.take(0)) == Some(Seq::<FieldModel>::empty())) by {
            reveal(scalar_fields);
        }
        while i < fields.len()
            invariant
                names == fields@.map_values(|n: &[u8; 4]| n@),
                i <= names.len(),
                record.wf(),
                record@.status == RecordStatus::Finalized,
                scalar_fields(self@, names.take(i as int)) is Some,
                record@ == with_fields(old(record)@, scalar_fields(self@, names.take(i as int)).unwrap()),
            decreases names.len() - i,
        {
            let ghost before = record@;
            let ghost done = scalar_fields(self@, names.take(i as int)).unwrap();
            assert(names[i as int] == fields[i as int]@);
            proof {
                lemma_scalar_fields_take(self@, names, i as int);
            }
            let ok = self.write_scalar_field(record, fields[i]);
            if !ok {
                proof {
                    assert(record@.fields.take(record@.fields.len() as int) =~= record@.fields);
                    lemma_fields_prefix(old(record)@, done, record@.fields);
                    lemma_with_fields_len(old(record)@, done);
                    lemma_scalar_fields_none(self@, names, i + 1);
                }
                return Err(TesError::RequirementFailed("Cannot write actor scalar field".to_owned()));
            }
            proof {
                lemma_with_fields_twice(old(record)@, done, scalar_field(self@, names[i as int]).unwrap());
            }
            i = i + 1;
        }
        assert(names.take(i as int) =~= names);
        proof {
            lemma_with_fields_len(old(record)@, scalar_fields(self@, names).unwrap());
            if scalar_fields(self@, names).unwrap().len() == 0 {
                assert(record@.fields =~= old(record)@.fields);
            }
        }
        assert(record@.fields.take(old(record)@.fields.len() as int) =~= old(record)@.fields);
        Ok(())
    }

    /// Writes the fields for one scalar field name; false, writing nothing, if it cannot.
    fn write_scalar_field(&self, record: &mut Tes3Record, name: &[u8; 4]) -> (ok: bool)
        requires
            old(record).wf(),
            old(record)@.status == RecordStatus::Finalized,
        ensures
            final(record).wf(),
            final(record)@.status == RecordStatus::Finalized,
            ok <==> scalar_field(self@, name@) is Some,
            ok ==> final(record)@ == with_fields(old(record)@, scalar_field(self@, name@).unwrap()),
            !ok ==> final(record)@ == old(record)@,
    {
        let value: &Option<String>;
        if same_tag(name, &MODL) {
            value = &self.model;
        } else if same_tag(name, &FNAM) {
            value = &self.name;
        } else if same_tag(name, &SCRI) {
            value = &self.script;
        } else if same_tag(name, &AIDT) {
            let buf = self.ai_settings.to_bytes();
            proof {
                lemma_le_bytes_len(self.ai_settings.hello as nat, 2);
                lemma_le_bytes_len(self.ai_settings.services as nat, 4);
            }
            let field = match Tes3Field::new(name, buf) {
                Ok(f) => f,
                Err(_) => {
                    return false;
                },
            };
            record.add_field(field);
            assert(record@.fields =~= old(record)@.fields + scalar_field(self@, name@).unwrap());
            return true;
        } else {
            return false;
        }
        assert(opt_view(*value) == named_string(self@, name@));
        match value {
            Some(v) => {
                match Tes3Field::new_zstring(name, v.clone()) {
                    Ok(f) => {
                        record.add_field(f);
                        assert(record@.fields =~= old(record)@.fields + scalar_field(self@, name@).unwrap());
                        true
                    },
                    Err(_) => false,
                }
            },
            None => {
                assert(scalar_field(self@, name@).unwrap() =~= Seq::<FieldModel>::empty());
                true
            },
        }
    }

    /// Writes the actor's spells to the provided record, one `NPCS` field per spell
    pub fn write_spells(&self, record: &mut Tes3Record) -> (r: Result<(), TesError>)
        requires
            old(record).wf(),
            old(record)@.status == RecordStatus::Finalized,
            forall|i: int| 0 <= i < self@.spells.len() ==> fits(#[trigger] self@.spells[i], 32),
        ensures
            r is Ok,
            final(record).wf(),
            final(record)@ == with_fields(old(record)@, spells_fields(self@.spells)),
    {
        let ghost sp = self@.spells;
        let mut i: usize = 0;
        while i < self.spells.len()
            invariant
                sp == self@.spells,
                forall|k: int| 0 <= k < sp.len() ==> fits(#[trigger] sp[k], 32),
                i <= sp.len(),
                record.wf(),
                record@.status == RecordStatus::Finalized,
                record@ == with_fields(old(record)@, spells_fields(sp.take(i as int))),
            decreases sp.len() - i,
        {
            let id = self.spells[i].as_str();
            assert(sp[i as int] == id@);
            assert(fits(sp[i as int], 32));
            let buf = make_str_vec(id, ACTOR_STRING_LENGTH);
            let field = match Tes3Field::new(&NPCS, buf) {
                Ok(f) => f,
                Err(e) => {
                    return Err(e);
                },
            };
            record.add_field(field);
            assert(spells_fields(sp.take(i + 1)) =~= spells_fields(sp.take(i as int)).push(
                FieldModel { name: NPCS@, data: padded(sp[i as int], 32) },
            ));
            i = i + 1;
        }
        assert(sp.take(i as int) =~= sp);
        Ok(())
    }

    /// Writes the actor's travel destinations to the provided record: a `DODT` field for each,
    /// followed by a `DNAM` field naming its cell, if it has one
    ///
    /// Fails if a cell name holds a null byte or is too long for a field; the fields of the
    /// destinations before it have then been written.
    pub fn write_destinations(&self, record: &mut Tes3Record) -> (r: Result<(), TesError>)
        requires
            old(record).wf(),
            old(record)@.status == RecordStatus::Finalized,
        ensures
            final(record).wf(),
            final(record)@.status == RecordStatus::Finalized,
            r is Ok <==> forall|i: int| 0 <= i < self@.destinations.len() ==> zstring_writable(#[trigger] self@.destinations[i].cell_name),
            r is Ok ==> final(record)@ == with_fields(old(record)@, destinations_fields(self@.destinations)),
            final(record)@.fields.len() >= old(record)@.fields.len(),
            final(record)@.fields.take(old(record)@.fields.len() as int) == old(record)@.fields,
    {
        let ghost ds = self@.destinations;
        let mut i: usize = 0;
        assert(destinations_fields(ds.take(0)) =~= Seq::<FieldModel>::empty()) by {
            reveal(destinations_fields);
        }
        while i < self.destinations.len()
            invariant
                ds == self@.destinations,
                forall|k: int| 0 <= k < i ==> zstring_writable(#[trigger] ds[k].cell_name),
                i <= ds.len(),
                record.wf(),
                record@.status == RecordStatus::Finalized,
                record@ == with_fields(old(record)@, destinations_fields(ds.take(i as int))),
            decreases ds.len() - i,
        {
            let destination = &self.destinations[i];
            assert(ds[i as int] == destination@);
            let ghost before = record@;
            let ok = write_destination(destination, record);
            if !ok {
                proof {
                    lemma_fields_prefix(old(record)@, destinations_fields(ds.take(i as int)), record@.fields);
                    lemma_with_fields_len(old(record)@, destinations_fields(ds.take(i as int)));
                }
                return Err(decode_failed("Invalid destination cell name"));
            }
            proof {
                lemma_destinations_fields_take(ds, i as int);
                lemma_with_fields_twice(old(record)@, destinations_fields(ds.take(i as int)), destination_fields(ds[i as int]));
            }
            i = i + 1;
        }
        assert(ds.take(i as int) =~= ds);
        proof {
            lemma_with_fields_len(old(record)@, destinations_fields(ds));
            if destinations_fields(ds).len() == 0 {
                assert(record@.fields =~= old(record)@.fields);
            }
        }
        assert(record@.fields.take(old(record)@.fields.len() as int) =~= old(record)@.fields);
        Ok(())
    }
}


/// Writes the fields of one travel destination; false, after writing its `DODT` field, if its
/// cell name cannot be written.
fn write_destination(destination: &Destination, record: &mut Tes3Record) -> (ok: bool)
    requires
        old(record).wf(),
        old(record)@.status == RecordStatus::Finalized,
    ensures
        final(record).wf(),
        final(record)@.status == RecordStatus::Finalized,
        ok <==> zstring_writable(destination@.cell_name),
        ok ==> final(record)@ == with_fields(old(record)@, destination_fields(destination@)),
        final(record)@.fields.len() >= old(record)@.fields.len(),
        final(record)@.fields.take(old(record)@.fields.len() as int) == old(record)@.fields,
{
    let buf = destination.to_bytes();
    proof {
        lemma_le_bytes_len(destination.position.0 as nat, 4);
        lemma_le_bytes_len(destination.position.1 as nat, 4);
        lemma_le_bytes_len(destination.position.2 as nat, 4);
        lemma_le_bytes_len(destination.rotation.0 as nat, 4);
        lemma_le_bytes_len(destination.rotation.1 as nat, 4);
        lemma_le_bytes_len(destination.rotation.2 as nat, 4);
    }
    let ghost first = FieldModel { name: DODT@, data: destination_bytes(destination@) };
    let field = match Tes3Field::new(&DODT, buf) {
        Ok(f) => f,
        Err(_) => {
            return false;
        },
    };
    record.add_field(field);
    match &destination.cell_name {
        Some(c) => {
            match Tes3Field::new_zstring(&DNAM, c.clone()) {
                Ok(f) => {
                    record.add_field(f);
                    assert(record@.fields =~= old(record)@.fields + destination_fields(destination@));
                },
                Err(_) => {
                    assert(record@.fields.take(old(record)@.fields.len() as int) =~= old(record)@.fields);
                    return false;
                },
            }
        },
        None => {
            assert(record@.fields =~= old(record)@.fields + destination_fields(destination@));
        },
    }
    assert(record@.fields.take(old(record)@.fields.len() as int) =~= old(record)@.fields);
    true
}

} // verus!
