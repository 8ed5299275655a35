//! Native type codes and the pure column type/size resolution table.
//!
//! The numeric values mirror the underlying call-level interface's constants
//! so the resolved codes can be handed to the native bind and define calls
//! unchanged.
use vstd::prelude::*;

use crate::error::OciError;

verus! {

// External datatype codes of the call-level interface.
pub const SQLT_CHR: u32 = 1;

pub const SQLT_NUM: u32 = 2;

pub const SQLT_INT: u32 = 3;

pub const SQLT_FLT: u32 = 4;

pub const SQLT_STR: u32 = 5;

pub const SQLT_LNG: u32 = 8;

pub const SQLT_VCS: u32 = 9;

pub const SQLT_BFLOAT: u32 = 21;

pub const SQLT_BDOUBLE: u32 = 22;

pub const SQLT_UIN: u32 = 68;

pub const SQLT_LVC: u32 = 94;

pub const SQLT_AFC: u32 = 96;

pub const SQLT_IBFLOAT: u32 = 100;

pub const SQLT_IBDOUBLE: u32 = 101;

pub const SQLT_VST: u32 = 155;

pub const SQLT_ODT: u32 = 156;

pub const SQLT_DATE: u32 = 184;

pub const SQLT_TIMESTAMP: u32 = 187;

pub const SQLT_TIMESTAMP_TZ: u32 = 188;

pub const SQLT_TIMESTAMP_LTZ: u32 = 232;

/// The closed set of type tags this driver core binds and defines with.
/// Each tag stands for exactly one native external-datatype code.
#[derive(Clone, Copy, Debug, PartialEq, Eq, Structural)]
pub enum OciDataType {
    /// 8-byte signed integer (`SQLT_INT`).
    Integer,
    /// Converted numeric float (`SQLT_FLT`).
    Float,
    /// Native double-precision float (`SQLT_BDOUBLE`).
    Double,
    /// Native single-precision float (`SQLT_BFLOAT`).
    BinaryFloat,
    /// Nul-terminated string output buffer (`SQLT_STR`).
    Text,
    /// Character data (`SQLT_CHR`); binds of it carry the character-set id.
    Char,
}

/// The native code a tag stands for.
pub open spec fn spec_to_raw(t: OciDataType) -> u32 {
    match t {
        OciDataType::Integer => SQLT_INT,
        OciDataType::Float => SQLT_FLT,
        OciDataType::Double => SQLT_BDOUBLE,
        OciDataType::BinaryFloat => SQLT_BFLOAT,
        OciDataType::Text => SQLT_STR,
        OciDataType::Char => SQLT_CHR,
    }
}

/// The tag a native code stands for, if it is one of the six supported codes.
pub open spec fn spec_from_raw(code: u32) -> Option<OciDataType> {
    if code == SQLT_INT {
        Some(OciDataType::Integer)
    } else if code == SQLT_FLT {
        Some(OciDataType::Float)
    } else if code == SQLT_BDOUBLE {
        Some(OciDataType::Double)
    } else if code == SQLT_BFLOAT {
        Some(OciDataType::BinaryFloat)
    } else if code == SQLT_STR {
        Some(OciDataType::Text)
    } else if code == SQLT_CHR {
        Some(OciDataType::Char)
    } else {
        None
    }
}

impl OciDataType {
    /// The native code this tag is sent to the native calls as.
    pub fn to_raw(self) -> (r: u32)
        ensures
            r == spec_to_raw(self),
    {
        match self {
            OciDataType::Integer => SQLT_INT,
            OciDataType::Float => SQLT_FLT,
            OciDataType::Double => SQLT_BDOUBLE,
            OciDataType::BinaryFloat => SQLT_BFLOAT,
            OciDataType::Text => SQLT_STR,
            OciDataType::Char => SQLT_CHR,
        }
    }

    /// The tag for a native code, `None` outside the supported set.
    pub fn from_raw(code: u32) -> (r: Option<OciDataType>)
        ensures
            r == spec_from_raw(code),
    {
        if code == SQLT_INT {
            Some(OciDataType::Integer)
        } else if code == SQLT_FLT {
            Some(OciDataType::Float)
        } else if code == SQLT_BDOUBLE {
            Some(OciDataType::Double)
        } else if code == SQLT_BFLOAT {
            Some(OciDataType::BinaryFloat)
        } else if code == SQLT_STR {
            Some(OciDataType::Text)
        } else if code == SQLT_CHR {
            Some(OciDataType::Char)
        } else {
            None
        }
    }
}

/// `from_raw` inverts `to_raw`: every tag's code resolves back to the tag.
pub proof fn lemma_raw_round_trip(t: OciDataType)
    ensures
        spec_from_raw(spec_to_raw(t)) == Some(t),
{
}

/// What the unverified layer reads off one result column's native descriptor:
/// the declared type code, and the numeric precision/scale and character size
/// attributes that the resolution table consults for some of the codes.
#[derive(Clone, Copy, Debug, PartialEq, Eq, Structural)]
pub struct ColumnDescriptor {
    /// Declared external-datatype code of the column.
    pub data_type: u32,
    /// Numeric precision attribute (meaningful for numeric columns).
    pub precision: i16,
    /// Numeric scale attribute (meaningful for numeric columns).
    pub scale: i8,
    /// Character-size attribute (meaningful for character-like columns).
    pub char_size: u32,
}

/// The resolution table: native code (plus precision/scale/char-size) to the
/// output code and buffer byte width, or `None` outside the table.
///
/// integer/unsigned -> integer, 8 bytes; numeric with scale 0 -> integer
/// with width 2/4/8 for precision 5/10/19 and 21 otherwise; numeric with
/// nonzero scale -> converted float, 8 bytes; double family (including the
/// long type the driver treats alike) -> native double, 8 bytes; single
/// float family -> native single float, 4 bytes; char/varchar/long-varchar/
/// date/timestamp family -> string of the column's character size.
pub open spec fn spec_resolve_column(d: ColumnDescriptor) -> Option<(u32, u32)> {
    if d.data_type == SQLT_INT || d.data_type == SQLT_UIN {
        Some((SQLT_INT, 8u32))
    } else if d.data_type == SQLT_NUM {
        if d.scale == 0 {
            if d.precision == 5 {
                Some((SQLT_INT, 2u32))
            } else if d.precision == 10 {
                Some((SQLT_INT, 4u32))
            } else if d.precision == 19 {
                Some((SQLT_INT, 8u32))
            } else {
                Some((SQLT_INT, 21u32))
            }
        } else {
            Some((SQLT_FLT, 8u32))
        }
    } else if d.data_type == SQLT_BDOUBLE || d.data_type == SQLT_LNG || d.data_type
        == SQLT_IBDOUBLE {
        Some((SQLT_BDOUBLE, 8u32))
    } else if d.data_type == SQLT_FLT || d.data_type == SQLT_BFLOAT || d.data_type
        == SQLT_IBFLOAT {
        Some((SQLT_BFLOAT, 4u32))
    } else if d.data_type == SQLT_CHR || d.data_type == SQLT_VCS || d.data_type == SQLT_LVC
        || d.data_type == SQLT_AFC || d.data_type == SQLT_VST || d.data_type == SQLT_ODT
        || d.data_type == SQLT_DATE || d.data_type == SQLT_TIMESTAMP || d.data_type
        == SQLT_TIMESTAMP_TZ || d.data_type == SQLT_TIMESTAMP_LTZ {
        Some((SQLT_STR, d.char_size))
    } else {
        None
    }
}

/// Resolves one column's output type code and buffer byte width from its
/// native descriptor, per the table above; a code outside the table yields
/// the unsupported-type error naming that code.
pub fn resolve_column_type(d: ColumnDescriptor) -> (r: Result<(u32, u32), OciError>)
    ensures
        match r {
            Ok(resolved) => spec_resolve_column(d) == Some(resolved),
            Err(e) => spec_resolve_column(d) is None && e == OciError::UnsupportedType(d.data_type),
        },
{
    let code = d.data_type;
    if code == SQLT_INT || code == SQLT_UIN {
        Ok((SQLT_INT, 8))
    } else if code == SQLT_NUM {
        if d.scale == 0 {
            let width: u32 = if d.precision == 5 {
                2
            } else if d.precision == 10 {
                4
            } else if d.precision == 19 {
                8
            } else {
                21
            };
            Ok((SQLT_INT, width))
        } else {
            Ok((SQLT_FLT, 8))
        }
    } else if code == SQLT_BDOUBLE || code == SQLT_LNG || code == SQLT_IBDOUBLE {
        Ok((SQLT_BDOUBLE, 8))
    } else if code == SQLT_FLT || code == SQLT_BFLOAT || code == SQLT_IBFLOAT {
        Ok((SQLT_BFLOAT, 4))
    } else if code == SQLT_CHR || code == SQLT_VCS || code == SQLT_LVC || code == SQLT_AFC || code
        == SQLT_VST || code == SQLT_ODT || code == SQLT_DATE || code == SQLT_TIMESTAMP || code
        == SQLT_TIMESTAMP_TZ || code == SQLT_TIMESTAMP_LTZ {
        Ok((SQLT_STR, d.char_size))
    } else {
        Err(OciError::UnsupportedType(code))
    }
}

/// Every code the table resolves is a code the type-tag set accepts: column
/// definition never fails on a resolved type.
pub proof fn lemma_resolved_code_supported(d: ColumnDescriptor)
    requires
        spec_resolve_column(d) is Some,
    ensures
        spec_from_raw(spec_resolve_column(d)->Some_0.0) is Some,
{
}

} // verus!
