//! The fields and records of the first version of the plugin format: a field is read
//! and written as it stands, with no limit on its data other than what its 4-byte length can
//! record when it is written.

use vstd::prelude::*;
use vstd::string::StringSliceAdditionalSpecFns;
use vstd::utf8::{decode_utf8, encode_utf8, valid_utf8};

use crate::bytes::{
    le_bytes, le_value, lemma_le_bytes_len, push_u16, push_u32, push_u64, read_u16_at, read_u32_at,
    read_u64_at, read_u8_at,
};
use crate::common::{io_error, read_exact, read_u32};
use crate::error::TesError;
use crate::plugin::{field_bytes, field_fits, parse_field, FieldModel};
use crate::strings::{check_zstring, is_zstring, no_nul, str_from_utf8};
use crate::tes3::field::{display_name_of, display_name_spec, name_array, zstring_bytes, zstring_of};

verus! {

/// An attribute of a record: a 4-byte ASCII identifier, such as `b"NAME"`, and the field data
pub struct Field {
    name: [u8; 4],
    data: Vec<u8>,
}

impl View for Field {
    type V = FieldModel;

    closed spec fn view(&self) -> FieldModel {
        FieldModel { name: self.name@, data: self.data@ }
    }
}

impl Field {
    /// A field's name is 4 bytes, so a field with data that its 4-byte length can record
    /// reads back as written (see [`crate::plugin::lemma_field_roundtrip`]).
    pub proof fn lemma_name_len(&self)
        ensures
            self@.name.len() == 4,
            self@.data.len() <= u32::MAX ==> field_fits(self@),
    {
    }

    /// Creates a new field with the specified data
    pub fn new(name: &[u8; 4], data: Vec<u8>) -> (r: Field)
        ensures
            r@ == (FieldModel { name: name@, data: data@ }),
    {
        Field { name: *name, data }
    }

    /// Creates a new field holding the bytes of a string
    pub fn new_string(name: &[u8; 4], data: String) -> (r: Field)
        ensures
            r@ == (FieldModel { name: name@, data: encode_utf8(data@) }),
    {
        let bytes = vstd::slice::slice_to_vec(data.as_str().as_bytes());
        Field { name: *name, data: bytes }
    }

    /// Creates a new field holding a string followed by a terminating null byte
    ///
    /// Fails with [`TesError::DecodeFailed`] if the string holds a null byte.
    pub fn new_zstring(name: &[u8; 4], data: String) -> (r: Result<Field, TesError>)
        ensures
            r is Ok <==> no_nul(encode_utf8(data@)),
            r matches Ok(f) ==> f@ == (FieldModel { name: name@, data: zstring_of(data@) }),
            r matches Err(e) ==> e is DecodeFailed,
    {
        let bytes = zstring_bytes(data.as_str())?;
        Ok(Field { name: *name, data: bytes })
    }

    /// Reads a field from the front of a byte reader, advancing the reader past it
    ///
    /// Fails if the reader ends before the field does.
    pub fn read<'a>(f: &mut &'a [u8]) -> (r: std::io::Result<Field>)
        ensures
            r is Ok <==> parse_field(old(f)@) is Some,
            r matches Ok(field) ==> ({
                let (m, n) = parse_field(old(f)@).unwrap();
                field@ == m && final(f)@ == old(f)@.subrange(n as int, old(f)@.len() as int)
            }),
    {
        let ghost start = f@;
        let name_bytes = match read_exact(f, 4) {
            Ok(b) => b,
            Err(_) => {
                return Err(io_error("unexpected end of field"));
            },
        };
        let name = name_array(name_bytes);
        let ghost mid = f@;
        let size = match read_u32(f) {
            Ok(s) => s as usize,
            Err(_) => {
                return Err(io_error("unexpected end of field"));
            },
        };
        proof {
            assert(mid.subrange(0, 4) =~= start.subrange(4, 8));
        }
        let data_bytes = match read_exact(f, size) {
            Ok(b) => b,
            Err(_) => {
                return Err(io_error("unexpected end of field"));
            },
        };
        let data = vstd::slice::slice_to_vec(data_bytes);
        proof {
            assert(data@ =~= start.subrange(8, 8 + size as int));
            assert(f@ =~= start.subrange(8 + size as int, start.len() as int));
        }
        Ok(Field { name, data })
    }

    /// Returns the field name
    pub fn name(&self) -> (r: &[u8])
        ensures
            r@ == self@.name,
    {
        self.name.as_slice()
    }

    /// Returns the field name as a string, or `"<invalid>"` if it is not UTF-8
    pub fn display_name(&self) -> (r: &str)
        ensures
            r@ == display_name_spec(self@.name),
    {
        display_name_of(self.name.as_slice())
    }

    /// Calculates the size in bytes of this field: name, length and data
    pub fn size(&self) -> (r: usize)
        requires
            self@.data.len() + 8 <= usize::MAX,
        ensures
            r == 8 + self@.data.len(),
    {
        8 + self.data.len()
    }

    /// Writes the field: its name, the length of its data, and its data
    ///
    /// Fails, writing nothing, if the data is too long for its 4-byte length.
    pub fn write(&self, f: &mut Vec<u8>) -> (r: std::io::Result<()>)
        ensures
            r is Ok <==> self@.data.len() <= u32::MAX,
            r is Ok ==> final(f)@ == old(f)@ + field_bytes(self@),
            r is Ok ==> final(f)@.len() == old(f)@.len() + 8 + self@.data.len(),
            r is Err ==> final(f)@ == old(f)@,
    {
        if self.data.len() > 4294967295 {
            return Err(io_error("Field data too long to be serialized"));
        }
        f.extend_from_slice(self.name.as_slice());
        push_u32(f, self.data.len() as u32);
        f.extend_from_slice(self.data.as_slice());
        assert(final(f)@ =~= old(f)@ + field_bytes(self@));
        proof {
            lemma_le_bytes_len(self@.data.len(), 4);
        }
        Ok(())
    }

    /// Returns a reference to the field's data
    pub fn get(&self) -> (r: &[u8])
        ensures
            r@ == self@.data,
    {
        self.data.as_slice()
    }

    /// Consumes the field and takes ownership of its data
    pub fn consume(self) -> (r: Vec<u8>)
        ensures
            r@ == self@.data,
    {
        self.data
    }

    /// Sets the field's data
    pub fn set(&mut self, data: Vec<u8>)
        ensures
            final(self)@ == (FieldModel { name: old(self)@.name, data: data@ }),
    {
        self.data = data;
    }

    /// Gets the field's data as a string
    ///
    /// Fails with [`TesError::DecodeFailed`] if the data is not valid UTF-8.
    pub fn get_string(&self) -> (r: Result<&str, TesError>)
        ensures
            r is Ok <==> valid_utf8(self@.data),
            r matches Ok(s) ==> s@ == decode_utf8(self@.data),
            r matches Err(e) ==> e is DecodeFailed,
    {
        match str_from_utf8(self.data.as_slice()) {
            Some(s) => Ok(s),
            None => Err(crate::error::decode_failed("failed to decode string")),
        }
    }

    /// Sets the field's data from a string
    pub fn set_string(&mut self, data: String)
        ensures
            final(self)@ == (FieldModel { name: old(self)@.name, data: encode_utf8(data@) }),
    {
        self.data = vstd::slice::slice_to_vec(data.as_str().as_bytes());
    }

    /// Gets the field's data as a null-terminated string, without the null
    ///
    /// Fails with [`TesError::DecodeFailed`] unless the data ends in its only zero byte and the
    /// bytes before it are UTF-8.
    pub fn get_zstring(&self) -> (r: Result<&str, TesError>)
        ensures
            r is Ok <==> is_zstring(self@.data) && valid_utf8(self@.data.drop_last()),
            r matches Ok(s) ==> s@ == decode_utf8(self@.data.drop_last()),
            r matches Err(e) ==> e is DecodeFailed,
    {
        if !check_zstring(self.data.as_slice()) {
            return Err(crate::error::decode_failed("string contained internal nulls"));
        }
        let body = vstd::slice::slice_subrange(self.data.as_slice(), 0, self.data.len() - 1);
        assert(body@ =~= self@.data.drop_last());
        match str_from_utf8(body) {
            Some(s) => Ok(s),
            None => Err(crate::error::decode_failed("failed to decode string")),
        }
    }

    /// Sets the field's data to a string followed by a terminating null byte
    ///
    /// Fails with [`TesError::DecodeFailed`], leaving the field unchanged, if the string holds
    /// a null byte.
    pub fn set_zstring(&mut self, data: String) -> (r: Result<(), TesError>)
        ensures
            r is Ok <==> no_nul(encode_utf8(data@)),
            r is Ok ==> final(self)@ == (FieldModel { name: old(self)@.name, data: zstring_of(data@) }),
            r is Err ==> final(self)@ == old(self)@,
    {
        self.data = zstring_bytes(data.as_str())?;
        Ok(())
    }

    /// Gets the field's data as a little-endian `u8`
    ///
    /// Returns `None` unless the data is exactly 1 byte.
    pub fn get_u8(&self) -> (r: Option<u8>)
        ensures
            r is Some <==> self@.data.len() == 1,
            r matches Some(v) ==> v as nat == le_value(self@.data),
    {
        if self.data.len() != 1 {
            return None;
        }
        let u = read_u8_at(self.data.as_slice(), 0).unwrap();
        assert(self@.data.subrange(0, 1) =~= self@.data);
        Some(u)
    }

    /// Sets the field's data to the little-endian bytes of a `u8`
    pub fn set_u8(&mut self, v: u8)
        ensures
            final(self)@ == (FieldModel { name: old(self)@.name, data: le_bytes(v as nat, 1) }),
    {
        let mut data: Vec<u8> = Vec::new();
        data.push(v);
        proof {
            reveal_with_fuel(le_bytes, 2);
            assert(data@ =~= le_bytes(v as nat, 1));
        }
        self.data = data;
    }

    /// Creates a new field holding the little-endian bytes of a `u8`
    pub fn new_u8(name: &[u8; 4], v: u8) -> (r: Field)
        ensures
            r@ == (FieldModel { name: name@, data: le_bytes(v as nat, 1) }),
    {
        let mut data: Vec<u8> = Vec::new();
        data.push(v);
        proof {
            reveal_with_fuel(le_bytes, 2);
            assert(data@ =~= le_bytes(v as nat, 1));
        }
        Field { name: *name, data }
    }

    /// Gets the field's data as a little-endian `i8`
    ///
    /// Returns `None` unless the data is exactly 1 byte.
    pub fn get_i8(&self) -> (r: Option<i8>)
        ensures
            r is Some <==> self@.data.len() == 1,
            r matches Some(v) ==> v == le_value(self@.data) as i8,
    {
        if self.data.len() != 1 {
            return None;
        }
        let u = read_u8_at(self.data.as_slice(), 0).unwrap();
        assert(self@.data.subrange(0, 1) =~= self@.data);
        Some(u as i8)
    }

    /// Sets the field's data to the little-endian bytes of a `i8`
    pub fn set_i8(&mut self, v: i8)
        ensures
            final(self)@ == (FieldModel { name: old(self)@.name, data: le_bytes((v as u8) as nat, 1) }),
    {
        let mut data: Vec<u8> = Vec::new();
        data.push(v as u8);
        proof {
            reveal_with_fuel(le_bytes, 2);
            assert(data@ =~= le_bytes((v as u8) as nat, 1));
        }
        self.data = data;
    }

    /// Creates a new field holding the little-endian bytes of a `i8`
    pub fn new_i8(name: &[u8; 4], v: i8) -> (r: Field)
        ensures
            r@ == (FieldModel { name: name@, data: le_bytes((v as u8) as nat, 1) }),
    {
        let mut data: Vec<u8> = Vec::new();
        data.push(v as u8);
        proof {
            reveal_with_fuel(le_bytes, 2);
            assert(data@ =~= le_bytes((v as u8) as nat, 1));
        }
        Field { name: *name, data }
    }

    /// Gets the field's data as a little-endian `u16`
    ///
    /// Returns `None` unless the data is exactly 2 bytes.
    pub fn get_u16(&self) -> (r: Option<u16>)
        ensures
            r is Some <==> self@.data.len() == 2,
            r matches Some(v) ==> v as nat == le_value(self@.data),
    {
        if self.data.len() != 2 {
            return None;
        }
        let u = read_u16_at(self.data.as_slice(), 0).unwrap();
        assert(self@.data.subrange(0, 2) =~= self@.data);
        Some(u)
    }

    /// Sets the field's data to the little-endian bytes of a `u16`
    pub fn set_u16(&mut self, v: u16)
        ensures
            final(self)@ == (FieldModel { name: old(self)@.name, data: le_bytes(v as nat, 2) }),
    {
        let mut data: Vec<u8> = Vec::new();
        push_u16(&mut data, v);
        assert(data@ =~= le_bytes(v as nat, 2));
        proof {
            lemma_le_bytes_len(v as nat, 2);
        }
        self.data = data;
    }

    /// Creates a new field holding the little-endian bytes of a `u16`
    pub fn new_u16(name: &[u8; 4], v: u16) -> (r: Field)
        ensures
            r@ == (FieldModel { name: name@, data: le_bytes(v as nat, 2) }),
    {
        let mut data: Vec<u8> = Vec::new();
        push_u16(&mut data, v);
        assert(data@ =~= le_bytes(v as nat, 2));
        proof {
            lemma_le_bytes_len(v as nat, 2);
        }
        Field { name: *name, data }
    }

    /// Gets the field's data as a little-endian `i16`
    ///
    /// Returns `None` unless the data is exactly 2 bytes.
    pub fn get_i16(&self) -> (r: Option<i16>)
        ensures
            r is Some <==> self@.data.len() == 2,
            r matches Some(v) ==> v == le_value(self@.data) as i16,
    {
        if self.data.len() != 2 {
            return None;
        }
        let u = read_u16_at(self.data.as_slice(), 0).unwrap();
        assert(self@.data.subrange(0, 2) =~= self@.data);
        Some(u as i16)
    }

    /// Sets the field's data to the little-endian bytes of a `i16`
    pub fn set_i16(&mut self, v: i16)
        ensures
            final(self)@ == (FieldModel { name: old(self)@.name, data: le_bytes((v as u16) as nat, 2) }),
    {
        let mut data: Vec<u8> = Vec::new();
        push_u16(&mut data, v as u16);
        assert(data@ =~= le_bytes((v as u16) as nat, 2));
        proof {
            lemma_le_bytes_len((v as u16) as nat, 2);
        }
        self.data = data;
    }

    /// Creates a new field holding the little-endian bytes of a `i16`
    pub fn new_i16(name: &[u8; 4], v: i16) -> (r: Field)
        ensures
            r@ == (FieldModel { name: name@, data: le_bytes((v as u16) as nat, 2) }),
    {
        let mut data: Vec<u8> = Vec::new();
        push_u16(&mut data, v as u16);
        assert(data@ =~= le_bytes((v as u16) as nat, 2));
        proof {
            lemma_le_bytes_len((v as u16) as nat, 2);
        }
        Field { name: *name, data }
    }

    /// Gets the field's data as a little-endian `u32`
    ///
    /// Returns `None` unless the data is exactly 4 bytes.
    pub fn get_u32(&self) -> (r: Option<u32>)
        ensures
            r is Some <==> self@.data.len() == 4,
            r matches Some(v) ==> v as nat == le_value(self@.data),
    {
        if self.data.len() != 4 {
            return None;
        }
        let u = read_u32_at(self.data.as_slice(), 0).unwrap();
        assert(self@.data.subrange(0, 4) =~= self@.data);
        Some(u)
    }

    /// Sets the field's data to the little-endian bytes of a `u32`
    pub fn set_u32(&mut self, v: u32)
        ensures
            final(self)@ == (FieldModel { name: old(self)@.name, data: le_bytes(v as nat, 4) }),
    {
        let mut data: Vec<u8> = Vec::new();
        push_u32(&mut data, v);
        assert(data@ =~= le_bytes(v as nat, 4));
        proof {
            lemma_le_bytes_len(v as nat, 4);
        }
        self.data = data;
    }

    /// Creates a new field holding the little-endian bytes of a `u32`
    pub fn new_u32(name: &[u8; 4], v: u32) -> (r: Field)
        ensures
            r@ == (FieldModel { name: name@, data: le_bytes(v as nat, 4) }),
    {
        let mut data: Vec<u8> = Vec::new();
        push_u32(&mut data, v);
        assert(data@ =~= le_bytes(v as nat, 4));
        proof {
            lemma_le_bytes_len(v as nat, 4);
        }
        Field { name: *name, data }
    }

    /// Gets the field's data as a little-endian `i32`
    ///
    /// Returns `None` unless the data is exactly 4 bytes.
    pub fn get_i32(&self) -> (r: Option<i32>)
        ensures
            r is Some <==> self@.data.len() == 4,
            r matches Some(v) ==> v == le_value(self@.data) as i32,
    {
        if self.data.len() != 4 {
            return None;
        }
        let u = read_u32_at(self.data.as_slice(), 0).unwrap();
        assert(self@.data.subrange(0, 4) =~= self@.data);
        Some(u as i32)
    }

    /// Sets the field's data to the little-endian bytes of a `i32`
    pub fn set_i32(&mut self, v: i32)
        ensures
            final(self)@ == (FieldModel { name: old(self)@.name, data: le_bytes((v as u32) as nat, 4) }),
    {
        let mut data: Vec<u8> = Vec::new();
        push_u32(&mut data, v as u32);
        assert(data@ =~= le_bytes((v as u32) as nat, 4));
        proof {
            lemma_le_bytes_len((v as u32) as nat, 4);
        }
        self.data = data;
    }

    /// Creates a new field holding the little-endian bytes of a `i32`
    pub fn new_i32(name: &[u8; 4], v: i32) -> (r: Field)
        ensures
            r@ == (FieldModel { name: name@, data: le_bytes((v as u32) as nat, 4) }),
    {
        let mut data: Vec<u8> = Vec::new();
        push_u32(&mut data, v as u32);
        assert(data@ =~= le_bytes((v as u32) as nat, 4));
        proof {
            lemma_le_bytes_len((v as u32) as nat, 4);
        }
        Field { name: *name, data }
    }

    /// Gets the field's data as a little-endian `u64`
    ///
    /// Returns `None` unless the data is exactly 8 bytes.
    pub fn get_u64(&self) -> (r: Option<u64>)
        ensures
            r is Some <==> self@.data.len() == 8,
            r matches Some(v) ==> v as nat == le_value(self@.data),
    {
        if self.data.len() != 8 {
            return None;
        }
        let u = read_u64_at(self.data.as_slice(), 0).unwrap();
        assert(self@.data.subrange(0, 8) =~= self@.data);
        Some(u)
    }

    /// Sets the field's data to the little-endian bytes of a `u64`
    pub fn set_u64(&mut self, v: u64)
        ensures
            final(self)@ == (FieldModel { name: old(self)@.name, data: le_bytes(v as nat, 8) }),
    {
        let mut data: Vec<u8> = Vec::new();
        push_u64(&mut data, v);
        assert(data@ =~= le_bytes(v as nat, 8));
        proof {
            lemma_le_bytes_len(v as nat, 8);
        }
        self.data = data;
    }

    /// Creates a new field holding the little-endian bytes of a `u64`
    pub fn new_u64(name: &[u8; 4], v: u64) -> (r: Field)
        ensures
            r@ == (FieldModel { name: name@, data: le_bytes(v as nat, 8) }),
    {
        let mut data: Vec<u8> = Vec::new();
        push_u64(&mut data, v);
        assert(data@ =~= le_bytes(v as nat, 8));
        proof {
            lemma_le_bytes_len(v as nat, 8);
        }
        Field { name: *name, data }
    }

    /// Gets the field's data as a little-endian `i64`
    ///
    /// Returns `None` unless the data is exactly 8 bytes.
    pub fn get_i64(&self) -> (r: Option<i64>)
        ensures
            r is Some <==> self@.data.len() == 8,
            r matches Some(v) ==> v == le_value(self@.data) as i64,
    {
        if self.data.len() != 8 {
            return None;
        }
        let u = read_u64_at(self.data.as_slice(), 0).unwrap();
        assert(self@.data.subrange(0, 8) =~= self@.data);
        Some(u as i64)
    }

    /// Sets the field's data to the little-endian bytes of a `i64`
    pub fn set_i64(&mut self, v: i64)
        ensures
            final(self)@ == (FieldModel { name: old(self)@.name, data: le_bytes((v as u64) as nat, 8) }),
    {
        let mut data: Vec<u8> = Vec::new();
        push_u64(&mut data, v as u64);
        assert(data@ =~= le_bytes((v as u64) as nat, 8));
        proof {
            lemma_le_bytes_len((v as u64) as nat, 8);
        }
        self.data = data;
    }

    /// Creates a new field holding the little-endian bytes of a `i64`
    pub fn new_i64(name: &[u8; 4], v: i64) -> (r: Field)
        ensures
            r@ == (FieldModel { name: name@, data: le_bytes((v as u64) as nat, 8) }),
    {
        let mut data: Vec<u8> = Vec::new();
        push_u64(&mut data, v as u64);
        assert(data@ =~= le_bytes((v as u64) as nat, 8));
        proof {
            lemma_le_bytes_len((v as u64) as nat, 8);
        }
        Field { name: *name, data }
    }

    /// Gets the field's data as the bit pattern of a little-endian `f32`
    ///
    /// Returns `None` unless the data is exactly 4 bytes.
    pub fn get_f32_bits(&self) -> (r: Option<u32>)
        ensures
            r is Some <==> self@.data.len() == 4,
            r matches Some(v) ==> v as nat == le_value(self@.data),
    {
        self.get_u32()
    }

    /// Sets the field's data to the bit pattern of a little-endian `f32`
    pub fn set_f32_bits(&mut self, bits: u32)
        ensures
            final(self)@ == (FieldModel { name: old(self)@.name, data: le_bytes(bits as nat, 4) }),
    {
        self.set_u32(bits)
    }

    /// Creates a new field holding the bit pattern of a little-endian `f32`
    pub fn new_f32_bits(name: &[u8; 4], bits: u32) -> (r: Field)
        ensures
            r@ == (FieldModel { name: name@, data: le_bytes(bits as nat, 4) }),
    {
        Self::new_u32(name, bits)
    }
}

} // verus!
