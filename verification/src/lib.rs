//! Fixed-width record schemas and decoding for 240-byte CNAB240 records.
//!
//! A schema is built by declaring named fields in order; each field is placed
//! at the byte offset where the previous one ends. A finalized schema slices a
//! record of exactly `N` bytes into a mapping from field name to text.

pub mod cnab240;
pub mod default_parsers;
pub mod error;
pub mod model;
pub mod parsers;
pub mod record;

use vstd::prelude::*;
use crate::error::ParseError;
use crate::model::{contiguous, total_len, FieldModel, lemma_contiguous_push, field_lens,
    lemma_prefix_sum_mono, prefix_sum};
use crate::record::{lossy_decode, lossy_text, DecodedRecord};

verus! {

/// The mapping that decoding `buf` under the placed fields `fs` produces:
/// each field's byte range, decoded as text, bound to the field's name in
/// order, so a later duplicate name overwrites an earlier one.
pub open spec fn decoded_map(fs: Seq<FieldModel>, buf: Seq<u8>) -> Map<Seq<char>, Seq<char>>
    decreases fs.len(),
{
    if fs.len() == 0 {
        Map::empty()
    } else {
        decoded_map(fs.drop_last(), buf).insert(
            fs.last().name,
            lossy_text(
                buf.subrange(fs.last().start as int, (fs.last().start + fs.last().length) as int),
            ),
        )
    }
}

/// Decoding is deterministic and idempotent: one schema and one buffer decode
/// to exactly one mapping, so decoding the same buffer twice with the same
/// schema yields identical key-value pairs.
pub proof fn lemma_decode_deterministic(
    fs: Seq<FieldModel>,
    buf: Seq<u8>,
    m1: Map<Seq<char>, Seq<char>>,
    m2: Map<Seq<char>, Seq<char>>,
)
    requires
        m1 == decoded_map(fs, buf),
        m2 == decoded_map(fs, buf),
    ensures
        m1 == m2,
{
}

/// How a field's value is justified within its byte range when a record is
/// encoded: text fields sit left, blank-padded; numeric fields sit right,
/// zero-padded. Decoding stores but never consults it.
#[derive(Debug, Clone, Copy)]
pub enum Alignment {
    Left,
    Right,
}

/// A field placed within a record: `start` is the byte offset assigned during
/// schema construction, never authored by the caller.
#[derive(Debug, Clone, Copy)]
pub struct Field {
    pub name: &'static str,
    pub start: usize,
    pub length: usize,
    pub pad_char: char,
    pub alignment: Alignment,
}

impl View for Field {
    type V = FieldModel;

    open spec fn view(&self) -> FieldModel {
        FieldModel {
            name: self.name@,
            start: self.start as nat,
            length: self.length as nat,
            pad: self.pad_char,
            align: self.alignment,
        }
    }
}

/// The sequence of placed fields that a sequence of `Field` values stands for.
pub open spec fn fields_model(fields: Seq<Field>) -> Seq<FieldModel> {
    fields.map_values(|f: Field| f@)
}

/// A finalized schema for records of exactly `N` bytes. Immutable once built;
/// decoding any number of records never changes it.
#[derive(Debug)]
pub struct FixedLengthParser<const N: usize> {
    fields: Vec<Field>,
}

impl<const N: usize> View for FixedLengthParser<N> {
    type V = Seq<FieldModel>;

    closed spec fn view(&self) -> Seq<FieldModel> {
        fields_model(self.fields@)
    }
}

impl<const N: usize> FixedLengthParser<N> {
    /// Every schema this crate can construct is packed from offset zero and
    /// fits within the record length.
    #[verifier::type_invariant]
    closed spec fn inv(self) -> bool {
        contiguous(self@) && total_len(self@) <= N
    }

    /// Slices every field's byte range out of `input` and binds the text it
    /// decodes to under the field's name. Total: a buffer of the record
    /// length always decodes, whatever its bytes hold.
    pub fn parse(&self, input: &[u8; N]) -> (r: DecodedRecord)
        ensures
            r@ == decoded_map(self@, input@),
    {
        proof {
            use_type_invariant(&*self);
        }
        let mut result = DecodedRecord::new();
        let n_fields = self.fields.len();
        let mut i: usize = 0;
        while i < n_fields
            invariant
                n_fields == self.fields@.len(),
                i <= n_fields,
                contiguous(self@),
                total_len(self@) <= N,
                self@ == fields_model(self.fields@),
                result@ == decoded_map(self@.take(i as int), input@),
            decreases n_fields - i,
        {
            let f = &self.fields[i];
            proof {
                assert(self@[i as int] == f@);
                assert(field_lens(self@)[i as int] == f@.length);
                assert(prefix_sum(field_lens(self@), i as int + 1) == prefix_sum(
                    field_lens(self@),
                    i as int,
                ) + f@.length);
                lemma_prefix_sum_mono(field_lens(self@), i as int + 1, self@.len() as int);
            }
            let bytes = vstd::slice::slice_subrange(input.as_slice(), f.start, f.start + f.length);
            let text = lossy_decode(bytes);
            result.insert(f.name, text);
            proof {
                assert(self@.take(i as int + 1).drop_last() =~= self@.take(i as int));
                assert(self@.take(i as int + 1).last() == self@[i as int]);
            }
            i = i + 1;
        }
        proof {
            assert(self@.take(n_fields as int) =~= self@);
        }
        result
    }

    /// The schema's fields, in declaration order, with their resolved
    /// offsets. Read-only: a schema never changes once built.
    pub fn fields(&self) -> (r: &Vec<Field>)
        ensures
            fields_model(r@) == self@,
    {
        &self.fields
    }
}

impl<const N: usize> Default for FixedLengthParser<N> {
    /// A schema with no fields: decoding under it yields the empty mapping.
    fn default() -> (r: Self)
        ensures
            r@ == Seq::<FieldModel>::empty(),
    {
        let r = FixedLengthParser { fields: Vec::new() };
        proof {
            assert(r@ =~= Seq::<FieldModel>::empty());
        }
        r
    }
}

/// Accumulates field declarations for a record of `N` bytes, append-only:
/// each accepted field is placed at the current cursor and the cursor
/// advances by its length.
#[derive(Debug)]
pub struct FixedLengthParserBuilder<const N: usize> {
    fields: Vec<Field>,
    offset: usize,
}

impl<const N: usize> FixedLengthParserBuilder<N> {
    /// The fields accepted so far, in declaration order.
    pub closed spec fn spec_fields(self) -> Seq<FieldModel> {
        fields_model(self.fields@)
    }

    /// The write cursor: the offset at which the next field would be placed.
    pub closed spec fn cursor(self) -> usize {
        self.offset
    }

    /// Every builder this crate can construct keeps its fields packed from
    /// offset zero with the cursor at their total length, within the record.
    #[verifier::type_invariant]
    closed spec fn inv(self) -> bool {
        &&& contiguous(self.spec_fields())
        &&& self.cursor() == total_len(self.spec_fields())
        &&& self.cursor() <= N
    }

    pub fn new() -> (r: Self)
        ensures
            r.spec_fields() == Seq::<FieldModel>::empty(),
            r.cursor() == 0,
    {
        let r = Self { fields: Vec::new(), offset: 0 };
        proof {
            assert(r.spec_fields() =~= Seq::<FieldModel>::empty());
        }
        r
    }

    /// Appends a field at the current cursor. When the field's byte range
    /// would run past the record length, reports field-out-of-bound with the
    /// offending `(cursor, length)` and the record length, and no field is
    /// added; otherwise places the field at the cursor and advances the
    /// cursor by its length.
    pub fn add_field(
        self,
        name: &'static str,
        length: usize,
        pad_char: char,
        alignment: Alignment,
    ) -> (r: Result<Self, ParseError>)
        ensures
            self.cursor() + length <= N ==> (r matches Ok(b) && b.spec_fields()
                == self.spec_fields().push(
                FieldModel {
                    name: name@,
                    start: self.cursor() as nat,
                    length: length as nat,
                    pad: pad_char,
                    align: alignment,
                },
            ) && b.cursor() == self.cursor() + length),
            self.cursor() + length > N ==> (r matches Err(ParseError::FieldOutOfBound {
                field,
                position,
                max,
            }) && field == name && position == (self.cursor(), length) && max == N),
    {
        proof {
            use_type_invariant(&self);
        }
        let ghost pre = self.spec_fields();
        let Self { mut fields, offset } = self;
        if length > N - offset {
            Err(ParseError::FieldOutOfBound { field: name, position: (offset, length), max: N })
        } else {
            let f = Field { name, start: offset, length, pad_char, alignment };
            fields.push(f);
            proof {
                lemma_contiguous_push(pre, f@);
                assert(fields_model(fields@) =~= pre.push(f@));
            }
            Ok(Self { fields, offset: offset + length })
        }
    }

    /// Finalizes the accumulated fields into a schema. Fails with
    /// invalid-length only when more fields were declared than the record has
    /// bytes; it does not require the fields to cover the record exactly.
    pub fn build(self) -> (r: Result<FixedLengthParser<N>, ParseError>)
        ensures
            self.spec_fields().len() <= N ==> (r matches Ok(p) && p@ == self.spec_fields()),
            self.spec_fields().len() > N ==> (r matches Err(ParseError::InvalidLength {
                expected,
                actual,
            }) && expected == N && actual == self.spec_fields().len()),
    {
        proof {
            use_type_invariant(&self);
        }
        let Self { fields, offset: _ } = self;
        if fields.len() > N {
            Err(ParseError::InvalidLength { expected: N, actual: fields.len() })
        } else {
            Ok(FixedLengthParser { fields })
        }
    }
}

impl<const N: usize> Default for FixedLengthParserBuilder<N> {
    /// A builder with no fields and the cursor at offset zero.
    fn default() -> (r: Self)
        ensures
            r.spec_fields() == Seq::<FieldModel>::empty(),
            r.cursor() == 0,
    {
        Self::new()
    }
}

} // verus!
