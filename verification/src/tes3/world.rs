//! The full set of objects in the game world: plugins in load order, and perhaps a save.

use vstd::prelude::*;

use vstd::utf8::{decode_utf8, valid_utf8};

use crate::error::{decode_failed, limit_exceeded, TesError};
use crate::strings::str_from_utf8;
use crate::tes3::plugin::{
    id_has_types, id_type_repeats, last_with_id, last_with_type, Plugin, PluginModel,
};
use crate::plugin::RecordStatus;
use crate::tags::{same_tag, ALCH, MISC, WEAP};
use crate::tes3::form::fold_fields;
use crate::tes3::misc_item::{empty_misc_item, misc_item_step_fn, MiscItem};
use crate::tes3::potion::{empty_potion, potion_step_fn, Potion};
use crate::tes3::record::{RecordModel, Tes3Record};
use crate::tes3::weapon::{empty_weapon, weapon_step_fn, Weapon};

verus! {

/// The error of the INI parser, declared so that a function can return it.
#[verifier::external_type_specification]
#[verifier::external_body]
pub struct ExIniParseError(ini::ParseError);

/// The values of the properties in one section of an INI document, in document order: `None`
/// if the document does not parse, `Some(None)` if it has no such section. This is what
/// rust-ini's parser gives, a function of the text and the section name alone.
pub uninterp spec fn ini_section_values(text: Seq<char>, section: Seq<char>) -> Option<
    Option<Seq<Seq<char>>>,
>;

/// The values of one section of an INI document: calls rust-ini's `Ini::load_from_str`, then
/// `Ini::section` and `Properties::iter`, keeping the values in order.
///
/// The result is [`ini_section_values`] of the arguments; nothing more is claimed of it.
#[verifier::external_body]
fn section_values(text: &str, section: &str) -> (r: Result<Option<Vec<String>>, ini::ParseError>)
    ensures
        ini_section_values(text@, section@) == match r {
            Ok(Some(v)) => Some(Some(v@.map_values(|s: String| s@))),
            Ok(None) => Some(None),
            Err(_) => None,
        },
{
    let ini = ini::Ini::load_from_str(text)?;
    Ok(ini.section(Some(section)).map(|p| p.iter().map(|(_, v)| String::from(v)).collect()))
}

/// The bytes of a text file without the UTF-8 byte order mark it may start with.
pub open spec fn without_bom(s: Seq<u8>) -> Seq<u8> {
    if s.len() >= 3 && s[0] == 0xef && s[1] == 0xbb && s[2] == 0xbf {
        s.subrange(3, s.len() as int)
    } else {
        s
    }
}

/// The name of the section of `Morrowind.ini` that lists the plugins to load.
pub open spec fn game_files_section() -> Seq<char> {
    "Game Files"@
}

/// An item read from a record: a miscellaneous item, a potion or a weapon
pub enum LoadedItem {
    Misc(MiscItem),
    Potion(Potion),
    Weapon(Weapon),
}

/// What reading an item from a record gives: `None` if the record is not an item of a kind that
/// can be read, else whether the record decodes as that kind of item.
pub open spec fn item_readable(record: RecordModel) -> Option<bool> {
    if record.name == MISC@ {
        Some(fold_fields(empty_misc_item(), misc_item_step_fn(), record.fields) is Some)
    } else if record.name == ALCH@ {
        Some(fold_fields(empty_potion(), potion_step_fn(), record.fields) is Some)
    } else if record.name == WEAP@ {
        Some(fold_fields(empty_weapon(), weapon_step_fn(), record.fields) is Some)
    } else {
        None
    }
}

/// The item is the one the record holds.
pub open spec fn item_of_record(item: LoadedItem, record: RecordModel) -> bool {
    match item {
        LoadedItem::Misc(m) => record.name == MISC@ && m@ == fold_fields(
            empty_misc_item(),
            misc_item_step_fn(),
            record.fields,
        ).unwrap(),
        LoadedItem::Potion(p) => record.name == ALCH@ && p@ == fold_fields(
            empty_potion(),
            potion_step_fn(),
            record.fields,
        ).unwrap(),
        LoadedItem::Weapon(w) => record.name == WEAP@ && w@ == fold_fields(
            empty_weapon(),
            weapon_step_fn(),
            record.fields,
        ).unwrap(),
    }
}

/// The abstract content of a world: its plugins in load order, the save last if there is one.
pub struct WorldModel {
    pub plugins: Seq<PluginModel>,
    pub has_save: bool,
}

/// The active version of the record with an ID among plugins in load order: the one the last
/// plugin that has the ID holds; `None` if a plugin searched holds records of more than one type
/// with the ID.
pub open spec fn world_record(ps: Seq<PluginModel>, id: Seq<char>) -> Option<Option<RecordModel>>
    decreases ps.len(),
{
    if ps.len() == 0 {
        Some(None)
    } else {
        let p = ps.last();
        if id_has_types(p.records, id) {
            None
        } else {
            match last_with_id(p.records, id) {
                Some(j) => Some(Some(p.records[j])),
                None => world_record(ps.drop_last(), id),
            }
        }
    }
}

/// The active version of the record with an ID and a type among plugins in load order: the
/// one held by the last plugin that holds such a record; `None` if that plugin holds more than
/// one record with the ID and type.
pub open spec fn world_record_with_type(ps: Seq<PluginModel>, id: Seq<char>, name: Seq<u8>) -> Option<
    Option<RecordModel>,
>
    decreases ps.len(),
{
    if ps.len() == 0 {
        Some(None)
    } else {
        match last_with_type(ps.last().records, id, name) {
            Some(j) => if id_type_repeats(ps.last().records, id, name) {
                None
            } else {
                Some(Some(ps.last().records[j]))
            },
            None => world_record_with_type(ps.drop_last(), id, name),
        }
    }
}

/// Replacing an element and then viewing is viewing and then replacing the element's view.
proof fn lemma_map_update(s: Seq<Plugin>, i: int, x: Plugin)
    requires
        0 <= i < s.len(),
    ensures
        s.update(i, x).map_values(|p: Plugin| p@) == s.map_values(|p: Plugin| p@).update(i, x@),
{
    assert(s.update(i, x).map_values(|p: Plugin| p@) =~= s.map_values(|p: Plugin| p@).update(i, x@));
}

/// The full set of objects in the game world
///
/// The world manages the current load order of plugins and allows looking up records from the
/// appropriate plugin based on load order.
pub struct Tes3World {
    plugins: Vec<Plugin>,
    has_save: bool,
}

impl View for Tes3World {
    type V = WorldModel;

    closed spec fn view(&self) -> WorldModel {
        WorldModel { plugins: self.plugins@.map_values(|p: Plugin| p@), has_save: self.has_save }
    }
}

impl Tes3World {
    /// Every plugin is well formed, and there is one if there is a save.
    pub closed spec fn wf(&self) -> bool {
        &&& forall|i: int| 0 <= i < self.plugins@.len() ==> (#[trigger] self.plugins@[i]).wf()
        &&& self.has_save ==> self.plugins@.len() > 0
    }

    /// Makes the world of the given plugins, in load order
    pub fn load_from_plugins(plugins: Vec<Plugin>) -> (r: Tes3World)
        requires
            forall|i: int| 0 <= i < plugins@.len() ==> (#[trigger] plugins@[i]).wf(),
        ensures
            r.wf(),
            r@ == (WorldModel { plugins: plugins@.map_values(|p: Plugin| p@), has_save: false }),
    {
        Tes3World { plugins, has_save: false }
    }

    /// Lists the plugins to load, in load order, from the `Game Files` section of the bytes of
    /// `Morrowind.ini`
    ///
    /// Fails with [`TesError::DecodeFailed`] if the file is not UTF-8 text (after any byte order
    /// mark), does not parse as INI, or has no `Game Files` section.
    pub fn game_files(ini_bytes: &[u8]) -> (r: Result<Vec<String>, TesError>)
        ensures
            r is Ok <==> valid_utf8(without_bom(ini_bytes@)) && ini_section_values(
                decode_utf8(without_bom(ini_bytes@)),
                game_files_section(),
            ) matches Some(Some(_)),
            r matches Ok(v) ==> v@.map_values(|s: String| s@) == ini_section_values(
                decode_utf8(without_bom(ini_bytes@)),
                game_files_section(),
            ).unwrap().unwrap(),
            r matches Err(e) ==> e is DecodeFailed,
    {
        let len = ini_bytes.len();
        let text_bytes = if len >= 3 && ini_bytes[0] == 0xef && ini_bytes[1] == 0xbb && ini_bytes[2]
            == 0xbf {
            vstd::slice::slice_subrange(ini_bytes, 3, len)
        } else {
            ini_bytes
        };
        assert(text_bytes@ == without_bom(ini_bytes@));
        let text = match str_from_utf8(text_bytes) {
            Some(t) => t,
            None => {
                return Err(decode_failed("Morrowind.ini is not UTF-8 text"));
            },
        };
        let section = match section_values(text, "Game Files") {
            Ok(v) => v,
            Err(_) => {
                return Err(decode_failed("Morrowind.ini does not parse"));
            },
        };
        proof {
            reveal_strlit("Game Files");
        }
        Self::game_files_from_section(section)
    }

    /// Takes the list of plugins from the values of the `Game Files` section, if there is one
    ///
    /// Fails with [`TesError::DecodeFailed`] if there is none.
    pub fn game_files_from_section(section: Option<Vec<String>>) -> (r: Result<
        Vec<String>,
        TesError,
    >)
        ensures
            r is Ok <==> section is Some,
            r matches Ok(v) ==> v@ == section.unwrap()@,
            r matches Err(e) ==> e is DecodeFailed,
    {
        match section {
            Some(v) => Ok(v),
            None => Err(decode_failed("No Game Files section in Morrowind.ini")),
        }
    }

    /// Makes the world of a save and the plugins it depends on, in load order
    pub fn load_from_save(plugins: Vec<Plugin>, save: Plugin) -> (r: Tes3World)
        requires
            forall|i: int| 0 <= i < plugins@.len() ==> (#[trigger] plugins@[i]).wf(),
            save.wf(),
        ensures
            r.wf(),
            r@ == (WorldModel {
                plugins: plugins@.map_values(|p: Plugin| p@).push(save@),
                has_save: true,
            }),
    {
        let mut plugins = plugins;
        let ghost before = plugins@;
        let ghost s = save@;
        plugins.push(save);
        let r = Tes3World { plugins, has_save: true };
        assert(r@.plugins =~= before.map_values(|p: Plugin| p@).push(s));
        r
    }

    /// The loaded plugins in load order, the save (if any) last
    pub fn plugins(&self) -> (r: &[Plugin])
        ensures
            r@.map_values(|p: Plugin| p@) == self@.plugins,
    {
        self.plugins.as_slice()
    }

    /// Gets the currently loaded save, if there is one
    pub fn get_save(&self) -> (r: Option<&Plugin>)
        requires
            self.wf(),
        ensures
            r is Some <==> self@.has_save,
            r matches Some(p) ==> p@ == self@.plugins.last() && p.wf(),
    {
        if self.has_save {
            let n = self.plugins.len();
            Some(&self.plugins[n - 1])
        } else {
            None
        }
    }

    /// Gets the currently loaded save mutably, if there is one
    pub fn get_save_mut(&mut self) -> (r: Option<&mut Plugin>)
        requires
            old(self).wf(),
        ensures
            r is Some <==> old(self)@.has_save,
            r matches Some(p) ==> p@ == old(self)@.plugins.last() && p.wf(),
            r matches Some(p) ==> final(self)@ == (WorldModel {
                plugins: old(self)@.plugins.update(old(self)@.plugins.len() - 1, final(p)@),
                ..old(self)@
            }),
            r matches Some(p) ==> (final(p).wf() ==> final(self).wf()),
            r is None ==> final(self)@ == old(self)@ && final(self).wf(),
    {
        if self.has_save {
            let ghost before = self.plugins@;
            let n = self.plugins.len();
            let r = &mut self.plugins[n - 1];
            proof {
                lemma_map_update(before, n - 1, *final(r));
            }
            Some(r)
        } else {
            None
        }
    }

    /// Gets the active version of a record by ID: the one held by the last plugin in load order
    /// that has a record with that ID
    ///
    /// Returns `None` if there is no record with the given ID. Fails with
    /// [`TesError::LimitExceeded`] if a plugin searched has records of more than one type with
    /// the ID.
    pub fn get_record(&self, id: &str) -> (r: Result<Option<&Tes3Record>, TesError>)
        requires
            self.wf(),
        ensures
            r is Err <==> world_record(self@.plugins, id@) is None,
            r matches Err(e) ==> e is LimitExceeded,
            r matches Ok(found) ==> match world_record(self@.plugins, id@).unwrap() {
                None => found is None,
                Some(m) => found matches Some(rec) && rec@ == m,
            },
            r matches Ok(Some(rec)) ==> rec.wf() && rec@.status == RecordStatus::Finalized,
    {
        let ghost ps = self@.plugins;
        let mut i: usize = self.plugins.len();
        assert(ps.take(i as int) =~= ps);
        while i > 0
            invariant
                self.wf(),
                ps == self@.plugins,
                i <= ps.len(),
                world_record(ps, id@) == world_record(ps.take(i as int), id@),
            decreases i,
        {
            let plugin = &self.plugins[i - 1];
            let ghost p = ps[i - 1];
            assert(plugin@ == p);
            assert(ps.take(i as int).last() == p);
            assert(ps.take(i as int).drop_last() =~= ps.take(i - 1));
            match plugin.get_record(id)? {
                Some(record) => {
                    return Ok(Some(record));
                },
                None => {},
            }
            i = i - 1;
        }
        assert(ps.take(0).len() == 0);
        Ok(None)
    }

    /// Reads the item that a record holds: a miscellaneous item, a potion or a weapon
    ///
    /// Fails with [`TesError::RequirementFailed`] for a record of another type, and otherwise if
    /// the record does not decode as its kind of item.
    pub fn get_item_from_record(&self, record: &Tes3Record) -> (r: Result<LoadedItem, TesError>)
        requires
            record@.status == RecordStatus::Finalized,
        ensures
            item_readable(record@) is None ==> r matches Err(TesError::RequirementFailed(_)),
            item_readable(record@) matches Some(ok) ==> (r is Ok <==> ok),
            r matches Ok(item) ==> item_of_record(item, record@),
    {
        let name = record.name();
        if same_tag(name, &MISC) {
            Ok(LoadedItem::Misc(MiscItem::read(record)?))
        } else if same_tag(name, &ALCH) {
            Ok(LoadedItem::Potion(Potion::read(record)?))
        } else if same_tag(name, &WEAP) {
            Ok(LoadedItem::Weapon(Weapon::read(record)?))
        } else {
            Err(
                TesError::RequirementFailed(
                    "The given record is not an item or its type cannot be read".to_owned(),
                ),
            )
        }
    }

    /// Loads an item by ID if such an item exists: the active version of the record with that
    /// ID, read as its kind of item
    ///
    /// Fails as [`Tes3World::get_record`] and [`Tes3World::get_item_from_record`] do.
    pub fn get_item(&self, id: &str) -> (r: Result<Option<LoadedItem>, TesError>)
        requires
            self.wf(),
        ensures
            world_record(self@.plugins, id@) is None ==> r is Err,
            world_record(self@.plugins, id@) == Some(None::<RecordModel>) ==> r matches Ok(None),
            world_record(self@.plugins, id@) matches Some(Some(m)) ==> match item_readable(m) {
                None => r matches Err(TesError::RequirementFailed(_)),
                Some(ok) => (r is Ok <==> ok),
            },
            r matches Ok(Some(item)) ==> item_of_record(item, world_record(self@.plugins, id@).unwrap().unwrap()),
    {
        match self.get_record(id)? {
            Some(record) => Ok(Some(self.get_item_from_record(record)?)),
            None => Ok(None),
        }
    }

    /// Gets the active version of a record by ID and record type: the one held by the last
    /// plugin in load order that has such a record
    ///
    /// Returns `None` if there is no record with the given ID and type. Fails with
    /// [`TesError::LimitExceeded`] if that plugin holds more than one record with the ID and
    /// type.
    pub fn get_record_with_type(&self, id: &str, name: &[u8; 4]) -> (r: Result<Option<&Tes3Record>, TesError>)
        requires
            self.wf(),
        ensures
            r is Err <==> world_record_with_type(self@.plugins, id@, name@) is None,
            r matches Err(e) ==> e is LimitExceeded,
            r matches Ok(found) ==> match world_record_with_type(self@.plugins, id@, name@).unwrap() {
                None => found is None,
                Some(m) => found matches Some(rec) && rec@ == m,
            },
    {
        let ghost ps = self@.plugins;
        let mut i: usize = self.plugins.len();
        assert(ps.take(i as int) =~= ps);
        while i > 0
            invariant
                self.wf(),
                ps == self@.plugins,
                i <= ps.len(),
                world_record_with_type(ps, id@, name@) == world_record_with_type(
                    ps.take(i as int),
                    id@,
                    name@,
                ),
            decreases i,
        {
            let plugin = &self.plugins[i - 1];
            let ghost p = ps[i - 1];
            assert(plugin@ == p);
            assert(ps.take(i as int).last() == p);
            assert(ps.take(i as int).drop_last() =~= ps.take(i - 1));
            match plugin.get_record_with_type(id, name) {
                Some(record) => {
                    if plugin.repeats_with_type(id, name) {
                        return Err(limit_exceeded("More than one record with the given ID and type", 1, 2));
                    }
                    return Ok(Some(record));
                },
                None => {},
            }
            i = i - 1;
        }
        assert(ps.take(0).len() == 0);
        Ok(None)
    }
}

} // verus!
