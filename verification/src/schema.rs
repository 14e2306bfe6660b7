//! The layout of one point record: an ordered list of fields, and its size
//! in bytes.

use vstd::prelude::*;

verus! {

/// Bytes taken by the base geometry of a point.
pub const POINT_BYTES: i32 = 20;

/// Bytes taken by the GPS time of a point.
pub const GPSTIME_BYTES: i32 = 8;

/// Bytes taken by the colour of a point.
pub const RGB_BYTES: i32 = 6;

/// One field of a point record.
#[derive(Clone, Copy, Debug, PartialEq, Eq, Structural)]
pub enum Field {
    /// The base geometry.
    Point,
    /// The GPS time.
    GpsTime,
    /// The colour.
    Rgb,
    /// A trailing run of bytes of the given length, which may be zero.
    ExtraBytes(usize),
}

impl Field {
    /// The number of bytes that the field adds to a record.
    pub open spec fn bytes(self) -> nat {
        match self {
            Field::Point => POINT_BYTES as nat,
            Field::GpsTime => GPSTIME_BYTES as nat,
            Field::Rgb => RGB_BYTES as nat,
            Field::ExtraBytes(count) => count as nat,
        }
    }
}

/// The size of a record made of `fields`: the sum of what each field adds,
/// taken in the order in which the fields were appended.
pub open spec fn total_size(fields: Seq<Field>) -> nat
    decreases fields.len(),
{
    if fields.len() == 0 {
        0
    } else {
        total_size(fields.drop_last()) + fields.last().bytes()
    }
}

/// Appending one field adds exactly its bytes to the size.
pub proof fn lemma_total_size_push(fields: Seq<Field>, field: Field)
    ensures
        total_size(fields.push(field)) == total_size(fields) + field.bytes(),
{
    assert(fields.push(field).drop_last() =~= fields);
}

/// The layout of one point record. It only grows: fields are appended and
/// never removed.
pub struct RecordSchema {
    fields: Vec<Field>,
    size: i32,
}

impl View for RecordSchema {
    type V = Seq<Field>;

    closed spec fn view(&self) -> Seq<Field> {
        self.fields@
    }
}

impl RecordSchema {
    #[verifier::type_invariant]
    spec fn size_is_cached(self) -> bool {
        self.size == total_size(self.fields@)
    }

    /// A schema without fields, of size 0.
    pub fn new() -> (schema: Self)
        ensures
            schema@ == Seq::<Field>::empty(),
    {
        RecordSchema { fields: Vec::new(), size: 0 }
    }

    /// Appends `field`, which adds `bytes` to the size.
    fn append(&mut self, field: Field, bytes: i32)
        requires
            bytes == field.bytes(),
            total_size(old(self)@) + field.bytes() <= i32::MAX,
        ensures
            final(self)@ == old(self)@.push(field),
            total_size(final(self)@) == total_size(old(self)@) + field.bytes(),
    {
        proof {
            use_type_invariant(&*self);
            lemma_total_size_push(self.fields@, field);
        }
        let mut grown = RecordSchema::new();
        std::mem::swap(self, &mut grown);
        let RecordSchema { mut fields, size } = grown;
        fields.push(field);
        *self = RecordSchema { fields, size: size + bytes };
    }

    /// Appends the base geometry, 20 bytes.
    pub fn push_point(&mut self)
        requires
            total_size(old(self)@) + 20 <= i32::MAX,
        ensures
            final(self)@ == old(self)@.push(Field::Point),
            total_size(final(self)@) == total_size(old(self)@) + 20,
    {
        self.append(Field::Point, POINT_BYTES);
    }

    /// Appends the GPS time, 8 bytes.
    pub fn push_gpstime(&mut self)
        requires
            total_size(old(self)@) + 8 <= i32::MAX,
        ensures
            final(self)@ == old(self)@.push(Field::GpsTime),
            total_size(final(self)@) == total_size(old(self)@) + 8,
    {
        self.append(Field::GpsTime, GPSTIME_BYTES);
    }

    /// Appends the colour, 6 bytes.
    pub fn push_rgb(&mut self)
        requires
            total_size(old(self)@) + 6 <= i32::MAX,
        ensures
            final(self)@ == old(self)@.push(Field::Rgb),
            total_size(final(self)@) == total_size(old(self)@) + 6,
    {
        self.append(Field::Rgb, RGB_BYTES);
    }

    /// Appends a trailing run of `count` bytes. A run of no bytes is
    /// appended as well and leaves the size as it was.
    pub fn push_extrabytes(&mut self, count: usize)
        requires
            total_size(old(self)@) + count <= i32::MAX,
        ensures
            final(self)@ == old(self)@.push(Field::ExtraBytes(count)),
            total_size(final(self)@) == total_size(old(self)@) + count,
    {
        self.append(Field::ExtraBytes(count), count as i32);
    }

    /// The fields in the order in which they were appended.
    pub fn fields(&self) -> (fields: &[Field])
        ensures
            fields@ == self@,
    {
        self.fields.as_slice()
    }

    /// The size in bytes of one record.
    pub fn size_in_bytes(&self) -> (size: i32)
        ensures
            size == total_size(self@),
    {
        proof {
            use_type_invariant(self);
        }
        self.size
    }
}

} // verus!
