//! Fields of Morrowind plugin files.

use vstd::prelude::*;
use vstd::string::StringSliceAdditionalSpecFns;
use vstd::utf8::{decode_utf8, valid_utf8};

use crate::bytes::{
    le_bytes, le_value, lemma_le_bytes_len, push_u16, push_u32, push_u64, read_u16_at, read_u32_at,
    read_u64_at, read_u8_at,
};
use crate::common::{check_data_size, data_len_ok, read_exact, read_u32, MAX_DATA};
use crate::error::{decode_failed, TesError};
use crate::plugin::{field_bytes, field_fits, parse_field, FieldModel};
use crate::strings::{check_zstring, is_zstring, no_nul, str_from_utf8};

verus! {

/// An attribute of a record
///
/// A field consists of a 4-byte ASCII identifier, such as `b"NAME"`, and the field data. The
/// data of a field is never larger than [`MAX_DATA`] (see [`data_len_ok`]).
pub struct Tes3Field {
    name: [u8; 4],
    data: Vec<u8>,
}

impl View for Tes3Field {
    type V = FieldModel;

    closed spec fn view(&self) -> FieldModel {
        FieldModel { name: self.name@, data: self.data@ }
    }
}

/// The name, decoded for display: the name itself if it is UTF-8, else `"<invalid>"`.
pub open spec fn display_name_spec(name: Seq<u8>) -> Seq<char> {
    if valid_utf8(name) {
        decode_utf8(name)
    } else {
        seq!['<', 'i', 'n', 'v', 'a', 'l', 'i', 'd', '>']
    }
}

/// Decodes a name for display.
pub fn display_name_of(name: &[u8]) -> (r: &str)
    ensures
        r@ == display_name_spec(name@),
{
    match str_from_utf8(name) {
        Some(s) => s,
        None => {
            let s = "<invalid>";
            proof {
                reveal_strlit("<invalid>");
            }
            s
        },
    }
}

/// Copies the 4 bytes of a name out of a slice.
pub fn name_array(b: &[u8]) -> (r: [u8; 4])
    requires
        b@.len() == 4,
    ensures
        r@ == b@,
{
    let r = [b[0], b[1], b[2], b[3]];
    assert(r@ =~= b@);
    r
}

/// The bytes of a string with a terminating zero byte added.
pub open spec fn zstring_of(s: Seq<char>) -> Seq<u8> {
    vstd::utf8::encode_utf8(s).push(0u8)
}

/// Makes the null-terminated byte form of a string; fails if the string holds a zero byte.
pub fn zstring_bytes(data: &str) -> (r: Result<Vec<u8>, TesError>)
    ensures
        r is Ok <==> no_nul(data.spec_bytes()),
        r matches Ok(v) ==> v@ == data.spec_bytes().push(0u8),
        r matches Err(e) ==> e is DecodeFailed,
{
    let bytes = data.as_bytes();
    let mut i: usize = 0;
    while i < bytes.len()
        invariant
            bytes@ == data.spec_bytes(),
            i <= bytes@.len(),
            no_nul(bytes@.take(i as int)),
        decreases bytes@.len() - i,
    {
        if bytes[i] == 0 {
            return Err(decode_failed("string contained internal nulls"));
        }
        assert(bytes@.take(i + 1) =~= bytes@.take(i as int).push(bytes@[i as int]));
        i = i + 1;
    }
    assert(bytes@.take(i as int) =~= bytes@);
    let mut v = vstd::slice::slice_to_vec(bytes);
    v.push(0u8);
    Ok(v)
}

impl Tes3Field {
    #[verifier::type_invariant]
    pub(crate) closed spec fn inv(self) -> bool {
        data_len_ok(self.data@.len())
    }

    /// The data of every field fits its 4-byte length.
    pub fn lemma_fits(&self)
        ensures
            field_fits(self@),
            data_len_ok(self@.data.len()),
    {
        proof {
            use_type_invariant(self);
        }
    }

    /// Creates a new field with the specified data
    ///
    /// Fails with [`TesError::LimitExceeded`] if `data` is larger than [`MAX_DATA`] (see
    /// [`data_len_ok`]).
    pub fn new(name: &[u8; 4], data: Vec<u8>) -> (r: Result<Tes3Field, TesError>)
        ensures
            r is Ok <==> data_len_ok(data@.len()),
            r matches Ok(f) ==> f@ == (FieldModel { name: name@, data: data@ }),
            r matches Err(e) ==> e is LimitExceeded,
    {
        check_data_size(data.len(), "field data too large")?;
        Ok(Tes3Field { name: *name, data })
    }

    /// Creates a new field holding the bytes of a string
    pub fn new_string(name: &[u8; 4], data: String) -> (r: Result<Tes3Field, TesError>)
        ensures
            r is Ok <==> data_len_ok(vstd::utf8::encode_utf8(data@).len()),
            r matches Ok(f) ==> f@ == (FieldModel { name: name@, data: vstd::utf8::encode_utf8(data@) }),
    {
        let bytes = vstd::slice::slice_to_vec(data.as_str().as_bytes());
        Self::new(name, bytes)
    }

    /// Creates a new field holding a string followed by a terminating null byte
    ///
    /// Fails with [`TesError::DecodeFailed`] if the string holds a null byte.
    pub fn new_zstring(name: &[u8; 4], data: String) -> (r: Result<Tes3Field, TesError>)
        ensures
            r is Ok <==> no_nul(vstd::utf8::encode_utf8(data@)) && data_len_ok(
                zstring_of(data@).len(),
            ),
            r matches Ok(f) ==> f@ == (FieldModel { name: name@, data: zstring_of(data@) }),
    {
        let bytes = zstring_bytes(data.as_str())?;
        Self::new(name, bytes)
    }

    /// Reads a field from the front of a byte reader, advancing the reader past it
    ///
    /// Fails with [`TesError::UnexpectedEof`] if the reader ends before the field does.
    pub fn read<'a>(f: &mut &'a [u8]) -> (r: Result<Tes3Field, TesError>)
        ensures
            r is Ok <==> parse_field(old(f)@) is Some,
            r matches Ok(field) ==> ({
                let (m, n) = parse_field(old(f)@).unwrap();
                field@ == m && final(f)@ == old(f)@.subrange(n as int, old(f)@.len() as int)
            }),
            r matches Err(e) ==> e is UnexpectedEof,
    {
        let ghost start = f@;
        let total = f.len();
        let name_bytes = read_exact(f, 4)?;
        let name = name_array(name_bytes);
        let ghost mid = f@;
        let size = read_u32(f)? as usize;
        let ghost after = f@;
        proof {
            assert(mid.subrange(0, 4) =~= start.subrange(4, 8));
        }
        let data_bytes = read_exact(f, size)?;
        let data = vstd::slice::slice_to_vec(data_bytes);
        proof {
            assert(data@ =~= start.subrange(8, 8 + size as int));
            assert(f@ =~= start.subrange(8 + size as int, start.len() as int));
        }
        Ok(Tes3Field { name, data })
    }

    /// Returns the field name
    pub fn name(&self) -> (r: &[u8])
        ensures
            r@ == self@.name,
    {
        self.name.as_slice()
    }

    /// Returns the field name as a string, or `"<invalid>"` if it is not UTF-8
    pub fn display_name(&self) -> (r: &str)
        ensures
            r@ == display_name_spec(self@.name),
    {
        display_name_of(self.name.as_slice())
    }

    /// Returns a reference to the field's data
    pub fn get(&self) -> (r: &[u8])
        ensures
            r@ == self@.data,
    {
        self.data.as_slice()
    }

    /// Consumes the field and takes ownership of its data
    pub fn consume(self) -> (r: Vec<u8>)
        ensures
            r@ == self@.data,
    {
        self.data
    }

    /// Sets the field's data
    ///
    /// Fails with [`TesError::LimitExceeded`], leaving the field unchanged, if `data` is larger
    /// than [`MAX_DATA`].
    pub fn set(&mut self, data: Vec<u8>) -> (r: Result<(), TesError>)
        ensures
            r is Ok <==> data_len_ok(data@.len()),
            r is Ok ==> final(self)@ == (FieldModel { name: old(self)@.name, data: data@ }),
            r is Err ==> final(self)@ == old(self)@,
    {
        check_data_size(data.len(), "field data too large")?;
        self.data = data;
        Ok(())
    }

    /// Calculates the size in bytes of this field: name, length and data
    pub fn size(&self) -> (r: usize)
        ensures
            r == 8 + self@.data.len(),
            r == field_bytes(self@).len(),
    {
        proof {
            use_type_invariant(self);
            lemma_le_bytes_len(self@.data.len(), 4);
        }
        8 + self.data.len()
    }

    /// Writes the field: its name, the length of its data, and its data
    pub fn write(&self, f: &mut Vec<u8>)
        ensures
            final(f)@ == old(f)@ + field_bytes(self@),
    {
        proof {
            use_type_invariant(self);
        }
        f.extend_from_slice(self.name.as_slice());
        push_u32(f, self.data.len() as u32);
        f.extend_from_slice(self.data.as_slice());
        assert(final(f)@ =~= old(f)@ + field_bytes(self@));
    }

    /// Gets the field's data as a string
    ///
    /// Fails with [`TesError::DecodeFailed`] if the data is not valid UTF-8.
    pub fn get_string(&self) -> (r: Result<&str, TesError>)
        ensures
            r is Ok <==> valid_utf8(self@.data),
            r matches Ok(s) ==> s@ == decode_utf8(self@.data),
    {
        match str_from_utf8(self.data.as_slice()) {
            Some(s) => Ok(s),
            None => Err(decode_failed("failed to decode string")),
        }
    }

    /// Sets the field's data from a string
    pub fn set_string(&mut self, data: String) -> (r: Result<(), TesError>)
        ensures
            r is Ok <==> data_len_ok(vstd::utf8::encode_utf8(data@).len()),
            r is Ok ==> final(self)@ == (FieldModel {
                name: old(self)@.name,
                data: vstd::utf8::encode_utf8(data@),
            }),
            r is Err ==> final(self)@ == old(self)@,
    {
        let bytes = vstd::slice::slice_to_vec(data.as_str().as_bytes());
        self.set(bytes)
    }

    /// Gets the field's data as a null-terminated string, without the null
    ///
    /// Fails with [`TesError::DecodeFailed`] unless the data ends in its only zero byte and the
    /// bytes before it are UTF-8.
    pub fn get_zstring(&self) -> (r: Result<&str, TesError>)
        ensures
            r is Ok <==> is_zstring(self@.data) && valid_utf8(self@.data.drop_last()),
            r matches Ok(s) ==> s@ == decode_utf8(self@.data.drop_last()),
            r matches Err(e) ==> e is DecodeFailed,
    {
        if !check_zstring(self.data.as_slice()) {
            return Err(decode_failed("string contained internal nulls"));
        }
        let body = vstd::slice::slice_subrange(self.data.as_slice(), 0, self.data.len() - 1);
        assert(body@ =~= self@.data.drop_last());
        match str_from_utf8(body) {
            Some(s) => Ok(s),
            None => Err(decode_failed("failed to decode string")),
        }
    }

    /// Sets the field's data to a string followed by a terminating null byte
    ///
    /// Fails, leaving the field unchanged, if the string holds a null byte or is too large.
    pub fn set_zstring(&mut self, data: String) -> (r: Result<(), TesError>)
        ensures
            r is Ok <==> no_nul(vstd::utf8::encode_utf8(data@)) && data_len_ok(
                zstring_of(data@).len(),
            ),
            r is Ok ==> final(self)@ == (FieldModel { name: old(self)@.name, data: zstring_of(data@) }),
            r is Err ==> final(self)@ == old(self)@,
    {
        let bytes = zstring_bytes(data.as_str())?;
        self.set(bytes)
    }

    /// Gets the field's data as a little-endian `u8`
    ///
    /// Fails with [`TesError::DecodeFailed`] unless the data is exactly 1 byte.
    pub fn get_u8(&self) -> (r: Result<u8, TesError>)
        ensures
            r is Ok <==> self@.data.len() == 1,
            r matches Ok(v) ==> v as nat == le_value(self@.data),
            r matches Err(e) ==> e is DecodeFailed,
    {
        if self.data.len() != 1 {
            return Err(decode_failed("unexpected data size for a number"));
        }
        let u = read_u8_at(self.data.as_slice(), 0).unwrap();
        assert(self@.data.subrange(0, 1) =~= self@.data);
        Ok(u)
    }

    /// Sets the field's data to the little-endian bytes of a `u8`
    pub fn set_u8(&mut self, v: u8)
        ensures
            final(self)@ == (FieldModel { name: old(self)@.name, data: le_bytes(v as nat, 1) }),
    {
        let mut data: Vec<u8> = Vec::new();
        data.push(v);
        proof {
            reveal_with_fuel(le_bytes, 2);
            assert(data@ =~= le_bytes(v as nat, 1));
        }
        self.data = data;
    }

    /// Creates a new field holding the little-endian bytes of a `u8`
    pub fn new_u8(name: &[u8; 4], v: u8) -> (r: Tes3Field)
        ensures
            r@ == (FieldModel { name: name@, data: le_bytes(v as nat, 1) }),
    {
        let mut data: Vec<u8> = Vec::new();
        data.push(v);
        proof {
            reveal_with_fuel(le_bytes, 2);
            assert(data@ =~= le_bytes(v as nat, 1));
        }
        Tes3Field { name: *name, data }
    }

    /// Gets the field's data as a little-endian `i8`
    ///
    /// Fails with [`TesError::DecodeFailed`] unless the data is exactly 1 byte.
    pub fn get_i8(&self) -> (r: Result<i8, TesError>)
        ensures
            r is Ok <==> self@.data.len() == 1,
            r matches Ok(v) ==> v == le_value(self@.data) as i8,
            r matches Err(e) ==> e is DecodeFailed,
    {
        if self.data.len() != 1 {
            return Err(decode_failed("unexpected data size for a number"));
        }
        let u = read_u8_at(self.data.as_slice(), 0).unwrap();
        assert(self@.data.subrange(0, 1) =~= self@.data);
        Ok(u as i8)
    }

    /// Sets the field's data to the little-endian bytes of a `i8`
    pub fn set_i8(&mut self, v: i8)
        ensures
            final(self)@ == (FieldModel { name: old(self)@.name, data: le_bytes((v as u8) as nat, 1) }),
    {
        let mut data: Vec<u8> = Vec::new();
        data.push(v as u8);
        proof {
            reveal_with_fuel(le_bytes, 2);
            assert(data@ =~= le_bytes((v as u8) as nat, 1));
        }
        self.data = data;
    }

    /// Creates a new field holding the little-endian bytes of a `i8`
    pub fn new_i8(name: &[u8; 4], v: i8) -> (r: Tes3Field)
        ensures
            r@ == (FieldModel { name: name@, data: le_bytes((v as u8) as nat, 1) }),
    {
        let mut data: Vec<u8> = Vec::new();
        data.push(v as u8);
        proof {
            reveal_with_fuel(le_bytes, 2);
            assert(data@ =~= le_bytes((v as u8) as nat, 1));
        }
        Tes3Field { name: *name, data }
    }

    /// Gets the field's data as a little-endian `u16`
    ///
    /// Fails with [`TesError::DecodeFailed`] unless the data is exactly 2 bytes.
    pub fn get_u16(&self) -> (r: Result<u16, TesError>)
        ensures
            r is Ok <==> self@.data.len() == 2,
            r matches Ok(v) ==> v as nat == le_value(self@.data),
            r matches Err(e) ==> e is DecodeFailed,
    {
        if self.data.len() != 2 {
            return Err(decode_failed("unexpected data size for a number"));
        }
        let u = read_u16_at(self.data.as_slice(), 0).unwrap();
        assert(self@.data.subrange(0, 2) =~= self@.data);
        Ok(u)
    }

    /// Sets the field's data to the little-endian bytes of a `u16`
    pub fn set_u16(&mut self, v: u16)
        ensures
            final(self)@ == (FieldModel { name: old(self)@.name, data: le_bytes(v as nat, 2) }),
    {
        let mut data: Vec<u8> = Vec::new();
        push_u16(&mut data, v);
        assert(data@ =~= le_bytes(v as nat, 2));
        proof {
            lemma_le_bytes_len(v as nat, 2);
        }
        self.data = data;
    }

    /// Creates a new field holding the little-endian bytes of a `u16`
    pub fn new_u16(name: &[u8; 4], v: u16) -> (r: Tes3Field)
        ensures
            r@ == (FieldModel { name: name@, data: le_bytes(v as nat, 2) }),
    {
        let mut data: Vec<u8> = Vec::new();
        push_u16(&mut data, v);
        assert(data@ =~= le_bytes(v as nat, 2));
        proof {
            lemma_le_bytes_len(v as nat, 2);
        }
        Tes3Field { name: *name, data }
    }

    /// Gets the field's data as a little-endian `i16`
    ///
    /// Fails with [`TesError::DecodeFailed`] unless the data is exactly 2 bytes.
    pub fn get_i16(&self) -> (r: Result<i16, TesError>)
        ensures
            r is Ok <==> self@.data.len() == 2,
            r matches Ok(v) ==> v == le_value(self@.data) as i16,
            r matches Err(e) ==> e is DecodeFailed,
    {
        if self.data.len() != 2 {
            return Err(decode_failed("unexpected data size for a number"));
        }
        let u = read_u16_at(self.data.as_slice(), 0).unwrap();
        assert(self@.data.subrange(0, 2) =~= self@.data);
        Ok(u as i16)
    }

    /// Sets the field's data to the little-endian bytes of a `i16`
    pub fn set_i16(&mut self, v: i16)
        ensures
            final(self)@ == (FieldModel { name: old(self)@.name, data: le_bytes((v as u16) as nat, 2) }),
    {
        let mut data: Vec<u8> = Vec::new();
        push_u16(&mut data, v as u16);
        assert(data@ =~= le_bytes((v as u16) as nat, 2));
        proof {
            lemma_le_bytes_len((v as u16) as nat, 2);
        }
        self.data = data;
    }

    /// Creates a new field holding the little-endian bytes of a `i16`
    pub fn new_i16(name: &[u8; 4], v: i16) -> (r: Tes3Field)
        ensures
            r@ == (FieldModel { name: name@, data: le_bytes((v as u16) as nat, 2) }),
    {
        let mut data: Vec<u8> = Vec::new();
        push_u16(&mut data, v as u16);
        assert(data@ =~= le_bytes((v as u16) as nat, 2));
        proof {
            lemma_le_bytes_len((v as u16) as nat, 2);
        }
        Tes3Field { name: *name, data }
    }

    /// Gets the field's data as a little-endian `u32`
    ///
    /// Fails with [`TesError::DecodeFailed`] unless the data is exactly 4 bytes.
    pub fn get_u32(&self) -> (r: Result<u32, TesError>)
        ensures
            r is Ok <==> self@.data.len() == 4,
            r matches Ok(v) ==> v as nat == le_value(self@.data),
            r matches Err(e) ==> e is DecodeFailed,
    {
        if self.data.len() != 4 {
            return Err(decode_failed("unexpected data size for a number"));
        }
        let u = read_u32_at(self.data.as_slice(), 0).unwrap();
        assert(self@.data.subrange(0, 4) =~= self@.data);
        Ok(u)
    }

    /// Sets the field's data to the little-endian bytes of a `u32`
    pub fn set_u32(&mut self, v: u32)
        ensures
            final(self)@ == (FieldModel { name: old(self)@.name, data: le_bytes(v as nat, 4) }),
    {
        let mut data: Vec<u8> = Vec::new();
        push_u32(&mut data, v);
        assert(data@ =~= le_bytes(v as nat, 4));
        proof {
            lemma_le_bytes_len(v as nat, 4);
        }
        self.data = data;
    }

    /// Creates a new field holding the little-endian bytes of a `u32`
    pub fn new_u32(name: &[u8; 4], v: u32) -> (r: Tes3Field)
        ensures
            r@ == (FieldModel { name: name@, data: le_bytes(v as nat, 4) }),
    {
        let mut data: Vec<u8> = Vec::new();
        push_u32(&mut data, v);
        assert(data@ =~= le_bytes(v as nat, 4));
        proof {
            lemma_le_bytes_len(v as nat, 4);
        }
        Tes3Field { name: *name, data }
    }

    /// Gets the field's data as a little-endian `i32`
    ///
    /// Fails with [`TesError::DecodeFailed`] unless the data is exactly 4 bytes.
    pub fn get_i32(&self) -> (r: Result<i32, TesError>)
        ensures
            r is Ok <==> self@.data.len() == 4,
            r matches Ok(v) ==> v == le_value(self@.data) as i32,
            r matches Err(e) ==> e is DecodeFailed,
    {
        if self.data.len() != 4 {
            return Err(decode_failed("unexpected data size for a number"));
        }
        let u = read_u32_at(self.data.as_slice(), 0).unwrap();
        assert(self@.data.subrange(0, 4) =~= self@.data);
        Ok(u as i32)
    }

    /// Sets the field's data to the little-endian bytes of a `i32`
    pub fn set_i32(&mut self, v: i32)
        ensures
            final(self)@ == (FieldModel { name: old(self)@.name, data: le_bytes((v as u32) as nat, 4) }),
    {
        let mut data: Vec<u8> = Vec::new();
        push_u32(&mut data, v as u32);
        assert(data@ =~= le_bytes((v as u32) as nat, 4));
        proof {
            lemma_le_bytes_len((v as u32) as nat, 4);
        }
        self.data = data;
    }

    /// Creates a new field holding the little-endian bytes of a `i32`
    pub fn new_i32(name: &[u8; 4], v: i32) -> (r: Tes3Field)
        ensures
            r@ == (FieldModel { name: name@, data: le_bytes((v as u32) as nat, 4) }),
    {
        let mut data: Vec<u8> = Vec::new();
        push_u32(&mut data, v as u32);
        assert(data@ =~= le_bytes((v as u32) as nat, 4));
        proof {
            lemma_le_bytes_len((v as u32) as nat, 4);
        }
        Tes3Field { name: *name, data }
    }

    /// Gets the field's data as a little-endian `u64`
    ///
    /// Fails with [`TesError::DecodeFailed`] unless the data is exactly 8 bytes.
    pub fn get_u64(&self) -> (r: Result<u64, TesError>)
        ensures
            r is Ok <==> self@.data.len() == 8,
            r matches Ok(v) ==> v as nat == le_value(self@.data),
            r matches Err(e) ==> e is DecodeFailed,
    {
        if self.data.len() != 8 {
            return Err(decode_failed("unexpected data size for a number"));
        }
        let u = read_u64_at(self.data.as_slice(), 0).unwrap();
        assert(self@.data.subrange(0, 8) =~= self@.data);
        Ok(u)
    }

    /// Sets the field's data to the little-endian bytes of a `u64`
    pub fn set_u64(&mut self, v: u64)
        ensures
            final(self)@ == (FieldModel { name: old(self)@.name, data: le_bytes(v as nat, 8) }),
    {
        let mut data: Vec<u8> = Vec::new();
        push_u64(&mut data, v);
        assert(data@ =~= le_bytes(v as nat, 8));
        proof {
            lemma_le_bytes_len(v as nat, 8);
        }
        self.data = data;
    }

    /// Creates a new field holding the little-endian bytes of a `u64`
    pub fn new_u64(name: &[u8; 4], v: u64) -> (r: Tes3Field)
        ensures
            r@ == (FieldModel { name: name@, data: le_bytes(v as nat, 8) }),
    {
        let mut data: Vec<u8> = Vec::new();
        push_u64(&mut data, v);
        assert(data@ =~= le_bytes(v as nat, 8));
        proof {
            lemma_le_bytes_len(v as nat, 8);
        }
        Tes3Field { name: *name, data }
    }

    /// Gets the field's data as a little-endian `i64`
    ///
    /// Fails with [`TesError::DecodeFailed`] unless the data is exactly 8 bytes.
    pub fn get_i64(&self) -> (r: Result<i64, TesError>)
        ensures
            r is Ok <==> self@.data.len() == 8,
            r matches Ok(v) ==> v == le_value(self@.data) as i64,
            r matches Err(e) ==> e is DecodeFailed,
    {
        if self.data.len() != 8 {
            return Err(decode_failed("unexpected data size for a number"));
        }
        let u = read_u64_at(self.data.as_slice(), 0).unwrap();
        assert(self@.data.subrange(0, 8) =~= self@.data);
        Ok(u as i64)
    }

    /// Sets the field's data to the little-endian bytes of a `i64`
    pub fn set_i64(&mut self, v: i64)
        ensures
            final(self)@ == (FieldModel { name: old(self)@.name, data: le_bytes((v as u64) as nat, 8) }),
    {
        let mut data: Vec<u8> = Vec::new();
        push_u64(&mut data, v as u64);
        assert(data@ =~= le_bytes((v as u64) as nat, 8));
        proof {
            lemma_le_bytes_len((v as u64) as nat, 8);
        }
        self.data = data;
    }

    /// Creates a new field holding the little-endian bytes of a `i64`
    pub fn new_i64(name: &[u8; 4], v: i64) -> (r: Tes3Field)
        ensures
            r@ == (FieldModel { name: name@, data: le_bytes((v as u64) as nat, 8) }),
    {
        let mut data: Vec<u8> = Vec::new();
        push_u64(&mut data, v as u64);
        assert(data@ =~= le_bytes((v as u64) as nat, 8));
        proof {
            lemma_le_bytes_len((v as u64) as nat, 8);
        }
        Tes3Field { name: *name, data }
    }

    /// Gets the field's data as the bit pattern of a little-endian `f32`
    ///
    /// Fails with [`TesError::DecodeFailed`] unless the data is exactly 4 bytes.
    pub fn get_f32_bits(&self) -> (r: Result<u32, TesError>)
        ensures
            r is Ok <==> self@.data.len() == 4,
            r matches Ok(v) ==> v as nat == le_value(self@.data),
            r matches Err(e) ==> e is DecodeFailed,
    {
        self.get_u32()
    }

    /// Sets the field's data to the bit pattern of a little-endian `f32`
    pub fn set_f32_bits(&mut self, bits: u32)
        ensures
            final(self)@ == (FieldModel { name: old(self)@.name, data: le_bytes(bits as nat, 4) }),
    {
        self.set_u32(bits)
    }

    /// Creates a new field holding the bit pattern of a little-endian `f32`
    pub fn new_f32_bits(name: &[u8; 4], bits: u32) -> (r: Tes3Field)
        ensures
            r@ == (FieldModel { name: name@, data: le_bytes(bits as nat, 4) }),
    {
        Self::new_u32(name, bits)
    }
}

} // verus!
