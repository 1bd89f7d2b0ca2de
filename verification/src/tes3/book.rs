//! Books and scrolls, as held by `BOOK` records.

use vstd::prelude::*;

use crate::error::{decode_failed, TesError};
use crate::plugin::{FieldModel, RecordStatus};
use crate::tags::{slice_is_tag, BKDT, BOOK, ENAM, FNAM, ITEX, MODL, NAME, SCRI, TEXT};
use crate::tes3::enchantable::Enchantable;
use crate::tes3::field::Tes3Field;
use crate::tes3::form::{
    check_record_type, field_string, field_zstring, fold_fields, lemma_fold_none, lemma_fold_step,
    string_value, zstring_value,
};
use crate::tes3::magic::Skill;
use crate::tes3::package::opt_chars;
use crate::tes3::player::{u32_at, u32_at_exec};
use crate::tes3::record::Tes3Record;

verus! {

/// A book's stats, as held by its `BKDT` field; the weight is the bits of an `f32`
#[derive(Debug, Default, Copy, Clone, PartialEq, Eq, Structural)]
pub struct BookData {
    pub weight: u32,
    pub value: u32,
    pub is_scroll: bool,
    pub skill: Option<Skill>,
    pub enchantment_points: u32,
}

/// The `BKDT` data decodes: 17 bytes whose skill byte is 0xff (no skill) or a known skill.
pub open spec fn book_data_valid(d: Seq<u8>) -> bool {
    d.len() >= 17 && (d[12] == 0xff || Skill::from_index(d[12]) is Some)
}

/// The stats held by `BKDT` data: weight, value, a scroll flag (bit 0 of a `u32`), the skill
/// the book teaches (one byte, 0xff for none), and enchantment points.
pub open spec fn book_data_from(d: Seq<u8>) -> BookData {
    BookData {
        weight: u32_at(d, 0),
        value: u32_at(d, 4),
        is_scroll: u32_at(d, 8) & 1 != 0,
        skill: if d[12] == 0xff {
            None
        } else {
            Skill::from_index(d[12])
        },
        enchantment_points: u32_at(d, 13),
    }
}

impl BookData {
    /// Decodes a book's stats from `BKDT` data
    ///
    /// Fails if the data is shorter than 17 bytes or the skill is unknown.
    pub fn from_bytes(d: &[u8]) -> (r: Result<BookData, TesError>)
        ensures
            r is Ok <==> book_data_valid(d@),
            r matches Ok(b) ==> b == book_data_from(d@),
    {
        if d.len() < 17 {
            return Err(TesError::UnexpectedEof);
        }
        let skill = if d[12] == 0xff {
            None
        } else {
            match Skill::try_from_u8(d[12]) {
                Some(s) => Some(s),
                None => {
                    return Err(decode_failed("Invalid skill"));
                },
            }
        };
        Ok(
            BookData {
                weight: u32_at_exec(d, 0),
                value: u32_at_exec(d, 4),
                is_scroll: u32_at_exec(d, 8) & 1 != 0,
                skill,
                enchantment_points: u32_at_exec(d, 13),
            },
        )
    }
}

/// The abstract content of a book.
pub struct BookModel {
    pub id: Seq<char>,
    pub model: Seq<char>,
    pub name: Option<Seq<char>>,
    pub data: BookData,
    pub script: Option<Seq<char>>,
    pub icon: Option<Seq<char>>,
    pub text: Seq<char>,
    pub enchantment: Option<Seq<char>>,
}

/// The book before any field is read.
pub open spec fn empty_book() -> BookModel {
    BookModel {
        id: Seq::empty(),
        model: Seq::empty(),
        name: None,
        data: BookData { weight: 0, value: 0, is_scroll: false, skill: None, enchantment_points: 0 },
        script: None,
        icon: None,
        text: Seq::empty(),
        enchantment: None,
    }
}

/// Reading one field of a book record; the text is a string, the other strings null-terminated.
pub open spec fn book_step(b: BookModel, f: FieldModel) -> Option<BookModel> {
    if f.name == BKDT@ {
        if book_data_valid(f.data) {
            Some(BookModel { data: book_data_from(f.data), ..b })
        } else {
            None
        }
    } else if f.name == TEXT@ {
        match string_value(f.data) {
            Some(v) => Some(BookModel { text: v, ..b }),
            None => None,
        }
    } else {
        match zstring_value(f.data) {
            Some(v) => if f.name == NAME@ {
                Some(BookModel { id: v, ..b })
            } else if f.name == MODL@ {
                Some(BookModel { model: v, ..b })
            } else if f.name == FNAM@ {
                Some(BookModel { name: Some(v), ..b })
            } else if f.name == SCRI@ {
                Some(BookModel { script: Some(v), ..b })
            } else if f.name == ITEX@ {
                Some(BookModel { icon: Some(v), ..b })
            } else if f.name == ENAM@ {
                Some(BookModel { enchantment: Some(v), ..b })
            } else {
                None
            },
            None => None,
        }
    }
}

/// [`book_step`] as a function value.
pub open spec fn book_step_fn() -> spec_fn(BookModel, FieldModel) -> Option<BookModel> {
    |b: BookModel, f: FieldModel| book_step(b, f)
}

/// A book or scroll
pub struct Book {
    id: String,
    model: String,
    name: Option<String>,
    pub data: BookData,
    script: Option<String>,
    icon: Option<String>,
    pub text: String,
    enchantment: Option<String>,
}

impl View for Book {
    type V = BookModel;

    closed spec fn view(&self) -> BookModel {
        BookModel {
            id: self.id@,
            model: self.model@,
            name: opt_chars(self.name),
            data: self.data,
            script: opt_chars(self.script),
            icon: opt_chars(self.icon),
            text: self.text@,
            enchantment: opt_chars(self.enchantment),
        }
    }
}

/// Borrows an optional string as an optional `&str`.
fn opt_str(o: &Option<String>) -> (r: Option<&str>)
    ensures
        r is Some <==> o is Some,
        r matches Some(s) ==> s@ == o.unwrap()@,
{
    match o {
        Some(s) => Some(s.as_str()),
        None => None,
    }
}

impl Book {
    fn empty() -> (r: Book)
        ensures
            r@ == empty_book(),
    {
        let r = Book {
            id: String::new(),
            model: String::new(),
            name: None,
            data: BookData { weight: 0, value: 0, is_scroll: false, skill: None, enchantment_points: 0 },
            script: None,
            icon: None,
            text: String::new(),
            enchantment: None,
        };
        assert(r@.id =~= Seq::<char>::empty());
        assert(r@.model =~= Seq::<char>::empty());
        assert(r@.text =~= Seq::<char>::empty());
        r
    }

    fn apply_field(&mut self, field: &Tes3Field) -> (r: Result<(), TesError>)
        ensures
            r is Ok <==> book_step(old(self)@, field@) is Some,
            r is Ok ==> final(self)@ == book_step(old(self)@, field@).unwrap(),
    {
        let name = field.name();
        if slice_is_tag(name, &BKDT) {
            self.data = BookData::from_bytes(field.get())?;
            return Ok(());
        }
        if slice_is_tag(name, &TEXT) {
            self.text = field_string(field)?;
            return Ok(());
        }
        let value = field_zstring(field)?;
        if slice_is_tag(name, &NAME) {
            self.id = value;
        } else if slice_is_tag(name, &MODL) {
            self.model = value;
        } else if slice_is_tag(name, &FNAM) {
            self.name = Some(value);
        } else if slice_is_tag(name, &SCRI) {
            self.script = Some(value);
        } else if slice_is_tag(name, &ITEX) {
            self.icon = Some(value);
        } else if slice_is_tag(name, &ENAM) {
            self.enchantment = Some(value);
        } else {
            return Err(decode_failed("Unexpected field in BOOK record"));
        }
        Ok(())
    }

    /// Reads a `BOOK` record
    ///
    /// Fails if the record has another type, if it holds an unexpected field, or if a field's
    /// data does not decode.
    pub fn read(record: &Tes3Record) -> (r: Result<Book, TesError>)
        requires
            record@.status == RecordStatus::Finalized,
        ensures
            r is Ok <==> record@.name == BOOK@ && fold_fields(empty_book(), book_step_fn(), record@.fields) is Some,
            r matches Ok(v) ==> v@ == fold_fields(empty_book(), book_step_fn(), record@.fields).unwrap(),
    {
        check_record_type(record.name(), &BOOK)?;
        let fields = record.fields();
        let ghost view = record@.fields;
        let ghost step = book_step_fn();
        let mut value = Book::empty();
        let mut i: usize = 0;
        proof {
            assert(view.take(0) =~= Seq::<FieldModel>::empty());
        }
        while i < fields.len()
            invariant
                fields@.map_values(|f: Tes3Field| f@) == view,
                step == book_step_fn(),
                record@.name == BOOK@,
                view == record@.fields,
                i <= fields@.len(),
                fold_fields(empty_book(), step, view.take(i as int)) == Some(value@),
            decreases fields@.len() - i,
        {
            let field = &fields[i];
            proof {
                assert(view[i as int] == field@);
                lemma_fold_step(empty_book(), step, view, i as int);
            }
            let ghost before = value@;
            match value.apply_field(field) {
                Ok(()) => {
                    assert(step(before, view[i as int]) == Some(value@));
                },
                Err(e) => {
                    proof {
                        assert(step(before, view[i as int]) is None);
                        lemma_fold_none(empty_book(), step, view, i + 1);
                    }
                    return Err(e);
                },
            }
            i = i + 1;
        }
        proof {
            assert(view.take(i as int) =~= view);
        }
        Ok(value)
    }

    /// Get this item's ID
    pub fn id(&self) -> (r: &str)
        ensures
            r@ == self@.id,
    {
        self.id.as_str()
    }

    /// Set this item's ID
    pub fn set_id(&mut self, id: String)
        ensures
            final(self)@ == (BookModel { id: id@, ..old(self)@ }),
    {
        self.id = id;
    }

    /// Get this item's NIF model
    pub fn model(&self) -> (r: Option<&str>)
        ensures
            r matches Some(s) && s@ == self@.model,
    {
        Some(self.model.as_str())
    }

    /// Set this item's NIF model (none is stored as an empty model)
    pub fn set_model(&mut self, model: Option<String>)
        ensures
            final(self)@ == (BookModel {
                model: match model {
                    Some(m) => m@,
                    None => Seq::empty(),
                },
                ..old(self)@
            }),
    {
        self.model = match model {
            Some(m) => m,
            None => String::new(),
        };
        assert(self@.model =~= (match model {
            Some(m) => m@,
            None => Seq::<char>::empty(),
        }));
    }

    /// Get this item's name, if any
    pub fn name(&self) -> (r: Option<&str>)
        ensures
            r is Some <==> self@.name is Some,
            r matches Some(s) ==> self@.name == Some(s@),
    {
        opt_str(&self.name)
    }

    /// Set this item's name
    pub fn set_name(&mut self, name: Option<String>)
        ensures
            final(self)@ == (BookModel { name: opt_chars(name), ..old(self)@ }),
    {
        self.name = name;
    }

    /// Get this item's script, if any
    pub fn script(&self) -> (r: Option<&str>)
        ensures
            r is Some <==> self@.script is Some,
            r matches Some(s) ==> self@.script == Some(s@),
    {
        opt_str(&self.script)
    }

    /// Set this item's script
    pub fn set_script(&mut self, script: Option<String>)
        ensures
            final(self)@ == (BookModel { script: opt_chars(script), ..old(self)@ }),
    {
        self.script = script;
    }

    /// Get this item's icon texture, if any
    pub fn icon(&self) -> (r: Option<&str>)
        ensures
            r is Some <==> self@.icon is Some,
            r matches Some(s) ==> self@.icon == Some(s@),
    {
        opt_str(&self.icon)
    }

    /// Set this item's icon texture
    pub fn set_icon(&mut self, icon: Option<String>)
        ensures
            final(self)@ == (BookModel { icon: opt_chars(icon), ..old(self)@ }),
    {
        self.icon = icon;
    }

    /// Get the bits of this item's `f32` weight
    pub fn weight_bits(&self) -> (r: u32)
        ensures
            r == self@.data.weight,
    {
        self.data.weight
    }

    /// Set this item's weight from the bits of an `f32`
    pub fn set_weight_bits(&mut self, weight: u32)
        ensures
            final(self)@ == (BookModel { data: BookData { weight, ..old(self)@.data }, ..old(self)@ }),
    {
        self.data.weight = weight;
    }

    /// Get this item's value
    pub fn value(&self) -> (r: u32)
        ensures
            r == self@.data.value,
    {
        self.data.value
    }

    /// Set this item's value
    pub fn set_value(&mut self, value: u32)
        ensures
            final(self)@ == (BookModel { data: BookData { value, ..old(self)@.data }, ..old(self)@ }),
    {
        self.data.value = value;
    }
}

impl Enchantable for Book {
    fn enchantment(&self) -> (r: Option<&str>)
        ensures
            r is Some <==> self@.enchantment is Some,
            r matches Some(s) ==> self@.enchantment == Some(s@),
    {
        opt_str(&self.enchantment)
    }

    fn set_enchantment(&mut self, enchantment: Option<String>)
        ensures
            final(self)@ == (BookModel { enchantment: opt_chars(enchantment), ..old(self)@ }),
    {
        self.enchantment = enchantment;
    }

    fn enchantment_points(&self) -> (r: u32)
        ensures
            r == self@.data.enchantment_points,
    {
        self.data.enchantment_points
    }

    fn set_enchantment_points(&mut self, enchantment_points: u32)
        ensures
            final(self)@ == (BookModel {
                data: BookData { enchantment_points, ..old(self)@.data },
                ..old(self)@
            }),
    {
        self.data.enchantment_points = enchantment_points;
    }
}

} // verus!
