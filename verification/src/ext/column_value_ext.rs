//! Column values of a replication row, and the text they hold.

use vstd::prelude::*;
use vstd::string::StringSliceAdditionalSpecFns;
use vstd::utf8::{decode_utf8, encode_utf8_decode_utf8, valid_utf8};

verus! {

/// One value of a replication row.
///
/// The replication log types its values; the library reads those that hold
/// text and takes every other for one without text.
#[derive(Debug, Clone)]
pub enum ColumnValue {
    /// SQL `NULL`, or a column the log entry leaves out.
    Null,
    /// Character data as the bytes the log holds: the log names no charset.
    String(Vec<u8>),
    /// A decimal number in digits.
    Decimal(String),
    /// A time of day, written out.
    Time(String),
    /// A calendar date, written out.
    Date(String),
    /// A date and time, written out.
    DateTime(String),
    /// A value of any other type: a number, a blob, a set, a document.
    Other,
}

/// Reading a value as text.
pub trait ColumnValueExt {
    /// The text a value holds, if it holds any.
    spec fn text(&self) -> Option<Seq<char>>;

    /// The text a value holds, if it holds any.
    fn as_str(&self) -> (text: Option<&str>)
        ensures
            match text {
                Some(t) => self.text() == Some(t@),
                None => self.text() is None,
            },
    ;
}

/// Calls `core::str::from_utf8`.
///
/// Trusted: the call succeeds on exactly the byte strings that are well-formed
/// UTF-8, and the text it gives is those very bytes.
#[verifier::external_body]
fn utf8_text(bytes: &[u8]) -> (text: Option<&str>)
    ensures
        match text {
            Some(t) => valid_utf8(bytes@) && t.spec_bytes() == bytes@,
            None => !valid_utf8(bytes@),
        },
{
    match core::str::from_utf8(bytes) {
        Ok(text) => Some(text),
        Err(_) => None,
    }
}

impl ColumnValueExt for ColumnValue {
    /// Character data holds text where its bytes are well-formed UTF-8;
    /// decimals, dates and times hold the text they are written in; nothing
    /// else holds text.
    open spec fn text(&self) -> Option<Seq<char>> {
        match self {
            ColumnValue::String(bytes) => if valid_utf8(bytes@) {
                Some(decode_utf8(bytes@))
            } else {
                None
            },
            ColumnValue::Decimal(s) => Some(s@),
            ColumnValue::Time(s) => Some(s@),
            ColumnValue::Date(s) => Some(s@),
            ColumnValue::DateTime(s) => Some(s@),
            ColumnValue::Null => None,
            ColumnValue::Other => None,
        }
    }

    fn as_str(&self) -> (text: Option<&str>) {
        match self {
            ColumnValue::String(bytes) => {
                let text = utf8_text(bytes.as_slice());
                proof {
                    if let Some(t) = text {
                        encode_utf8_decode_utf8(t@);
                    }
                }
                text
            },
            ColumnValue::Decimal(s) => Some(s.as_str()),
            ColumnValue::Time(s) => Some(s.as_str()),
            ColumnValue::Date(s) => Some(s.as_str()),
            ColumnValue::DateTime(s) => Some(s.as_str()),
            ColumnValue::Null => None,
            ColumnValue::Other => None,
        }
    }
}

} // verus!
