//! Schemas of structured output.

use vstd::prelude::*;
use vstd::string::*;

verus! {

/// The format of a number.
#[derive(Clone, Copy, Debug, PartialEq, Eq, Structural)]
pub enum NumberFormat {
    Float,
    Double,
}

/// The format of an integer.
#[derive(Clone, Copy, Debug, PartialEq, Eq, Structural)]
pub enum IntegerFormat {
    Int32,
    Int64,
}

/// The format of a string.
#[derive(Clone, Copy, Debug, PartialEq, Eq, Structural)]
pub enum StringFormat {
    Enum,
}

/// A schema: what a value is, and whether it may be missing.
#[derive(Debug)]
pub struct Schema {
    pub description: Option<String>,
    pub nullable: Option<bool>,
    pub data: SchemaData,
}

/// What a value is.
#[derive(Debug)]
pub enum SchemaData {
    Array { items: Option<Box<Schema>>, max_items: Option<i64>, min_items: Option<i64> },
    Boolean,
    Integer { format: Option<IntegerFormat> },
    Number { format: Option<NumberFormat> },
    Object { properties: Option<Vec<(String, Schema)>>, required: Option<Vec<String>> },
    String { format: Option<StringFormat>, variants: Option<Vec<String>> },
    TypeUnspecified,
}

impl SchemaData {
    /// A number of the given format.
    pub fn new_number(format: NumberFormat) -> (data: Self)
        ensures
            data == (SchemaData::Number { format: Some(format) }),
    {
        SchemaData::Number { format: Some(format) }
    }

    /// A single-precision number.
    pub fn new_f32() -> (data: Self)
        ensures
            data == (SchemaData::Number { format: Some(NumberFormat::Float) }),
    {
        Self::new_number(NumberFormat::Float)
    }

    /// A double-precision number.
    pub fn new_f64() -> (data: Self)
        ensures
            data == (SchemaData::Number { format: Some(NumberFormat::Double) }),
    {
        Self::new_number(NumberFormat::Double)
    }

    /// An integer of the given format.
    pub fn new_integer(format: IntegerFormat) -> (data: Self)
        ensures
            data == (SchemaData::Integer { format: Some(format) }),
    {
        SchemaData::Integer { format: Some(format) }
    }

    /// A 32-bit integer.
    pub fn new_i32() -> (data: Self)
        ensures
            data == (SchemaData::Integer { format: Some(IntegerFormat::Int32) }),
    {
        Self::new_integer(IntegerFormat::Int32)
    }

    /// A 64-bit integer.
    pub fn new_i64() -> (data: Self)
        ensures
            data == (SchemaData::Integer { format: Some(IntegerFormat::Int64) }),
    {
        Self::new_integer(IntegerFormat::Int64)
    }

    /// Any string.
    pub fn new_string() -> (data: Self)
        ensures
            data == (SchemaData::String { format: None, variants: None }),
    {
        SchemaData::String { format: None, variants: None }
    }

    /// One of the given strings.
    pub fn new_enum(variants: &[&str]) -> (data: Self)
        ensures
            data matches SchemaData::String { format: Some(StringFormat::Enum), variants: Some(owned) }
                && owned@.len() == variants@.len() && forall|i: int|
                0 <= i < owned@.len() ==> (#[trigger] owned@[i])@ == variants@[i]@,
    {
        let mut owned: Vec<String> = Vec::new();
        let mut index: usize = 0;
        while index < variants.len()
            invariant
                index <= variants@.len(),
                owned@.len() == index,
                forall|i: int| 0 <= i < index ==> (#[trigger] owned@[i])@ == variants@[i]@,
            decreases variants@.len() - index,
        {
            owned.push(String::from_str(variants[index]));
            index += 1;
        }
        SchemaData::String { format: Some(StringFormat::Enum), variants: Some(owned) }
    }
}

} // verus!
