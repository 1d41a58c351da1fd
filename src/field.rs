use vstd::prelude::*;

use crate::error::HyperVError;

verus! {

/// `WBEM_E_NOT_FOUND` (`0x80041002`): the object has no property of the requested name.
pub const WBEM_E_NOT_FOUND: i32 = -2147217406;

/// `DISP_E_TYPEMISMATCH` (`0x80020005`): the value's runtime type has no display form.
pub const DISP_E_TYPEMISMATCH: i32 = -2147352571;

/// The UTF-16 code units of one character: one unit inside the basic
/// multilingual plane, a surrogate pair above it.
pub open spec fn char_utf16(c: char) -> Seq<u16> {
    let v = c as u32 as int;
    if v < 0x10000 {
        seq![v as u16]
    } else {
        seq![(0xD800 + (v - 0x10000) / 0x400) as u16, (0xDC00 + (v - 0x10000) % 0x400) as u16]
    }
}

/// The UTF-16 encoding of a character sequence.
pub open spec fn utf16_encoding(s: Seq<char>) -> Seq<u16>
    decreases s.len(),
{
    if s.len() == 0 {
        Seq::empty()
    } else {
        char_utf16(s[0]) + utf16_encoding(s.drop_first())
    }
}

/// Whether some character sequence is encoded by exactly these code units
/// (that is, no surrogate stands unpaired).
pub open spec fn is_utf16(units: Seq<u16>) -> bool {
    exists|s: Seq<char>| #[trigger] utf16_encoding(s) == units
}

/// Relies on `String::from_utf16`: it returns the string that `units` encode,
/// and an error exactly when `units` hold invalid data.
#[verifier::external_body]
fn decode_utf16(units: &Vec<u16>) -> (r: Option<String>)
    ensures
        r is Some <==> is_utf16(units@),
        r matches Some(s) ==> utf16_encoding(s@) == units@,
{
    String::from_utf16(units).ok()
}

/// One field of one result row, after display formatting.
///
/// Absence and an undisplayable type are ordinary outcomes, not errors: the
/// rows of one query need not share a shape.
#[derive(Debug, Clone, PartialEq, Eq)]
pub enum FieldValue {
    /// The row has no field of that name.
    Absent,
    /// The field exists, but its runtime type has no display form.
    Unrepresentable,
    /// The field's display form.
    Text(String),
}

/// What the native calls reported while one field was read from a row.
#[derive(Debug, PartialEq, Eq)]
pub enum RawField {
    /// Reading the field failed with this code.
    FetchFailed(i32),
    /// The field was read. `formatted` is the outcome of display formatting
    /// (the UTF-16 code units of the text, or the failure code); `cleared` is
    /// the outcome of releasing the raw value afterwards.
    Fetched { formatted: Result<Vec<u16>, i32>, cleared: Result<(), i32> },
}

/// Classifies the outcome of reading one field.
///
/// A missing field gives `Absent` and an undisplayable one `Unrepresentable`;
/// any other native failure is fatal. A formatted value whose release failed
/// is fatal too, and so is text that is not valid UTF-16.
pub fn extract_field(raw: RawField) -> (r: Result<FieldValue, HyperVError>)
    ensures
        match raw {
            RawField::FetchFailed(c) => if c == WBEM_E_NOT_FOUND {
                r == Ok::<FieldValue, HyperVError>(FieldValue::Absent)
            } else {
                r == Err::<FieldValue, HyperVError>(HyperVError::Extraction(c))
            },
            RawField::Fetched { formatted: Err(c), cleared: _ } => if c == DISP_E_TYPEMISMATCH {
                r == Ok::<FieldValue, HyperVError>(FieldValue::Unrepresentable)
            } else {
                r == Err::<FieldValue, HyperVError>(HyperVError::Extraction(c))
            },
            RawField::Fetched { formatted: Ok(_), cleared: Err(c) } => r == Err::<
                FieldValue,
                HyperVError,
            >(HyperVError::Extraction(c)),
            RawField::Fetched { formatted: Ok(units), cleared: Ok(_) } => if is_utf16(units@) {
                r matches Ok(FieldValue::Text(s)) && utf16_encoding(s@) == units@
            } else {
                r == Err::<FieldValue, HyperVError>(HyperVError::UndecodableText)
            },
        },
{
    match raw {
        RawField::FetchFailed(c) => {
            if c == WBEM_E_NOT_FOUND {
                Ok(FieldValue::Absent)
            } else {
                Err(HyperVError::Extraction(c))
            }
        },
        RawField::Fetched { formatted: Err(c), cleared: _ } => {
            if c == DISP_E_TYPEMISMATCH {
                Ok(FieldValue::Unrepresentable)
            } else {
                Err(HyperVError::Extraction(c))
            }
        },
        RawField::Fetched { formatted: Ok(_), cleared: Err(c) } => Err(HyperVError::Extraction(c)),
        RawField::Fetched { formatted: Ok(units), cleared: Ok(_) } => {
            match decode_utf16(&units) {
                Some(s) => Ok(FieldValue::Text(s)),
                None => Err(HyperVError::UndecodableText),
            }
        },
    }
}

} // verus!
