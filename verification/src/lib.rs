//! A library for writing the XML parts of an Excel `.xlsx` workbook:
//! worksheet cell data, formats and styles, shared strings, relationships
//! and the supporting conversions (cell references, datetime serials,
//! formula preprocessing, drawing placement).
//!
//! Every value that reaches the XML is modelled with plain integers and
//! strings; fractional quantities (cell numbers, column widths, row
//! heights, page margins) are fixed-point integers with a documented
//! scale, so that the emitted text is exact and provable.

mod data_validation;
mod datetime;
mod formats;
mod formula;
mod kv;
mod number;
mod relationship;
mod render;
mod shared_strings;
mod styles;
mod text;
mod worksheet;
pub mod utility;
mod xmlwriter;

pub use data_validation::{DataValidation, Formula1, Formula2};
pub use datetime::{ExcelDate, ExcelDateTime, ExcelTime};
pub use formats::{
    Alignment, Border, Fill, Font, Format, FormatAlign, FormatBorder, FormatDiagonalBorder,
    FormatPattern, FormatScript, FormatUnderline, IntoColor, XlsxColor,
};
pub use number::Num;
pub use relationship::Relationship;
pub use styles::Styles;
pub use worksheet::{
    CellRange, CellType, ColNum, ColOptions, DefinedName, DefinedNameType, Hyperlink,
    HyperlinkType, PageView, Panes, ProtectionOptions, RowNum, RowOptions, Worksheet,
    XlsxError,
};
pub use shared_strings::{SharedStrings, SharedStringsTable};
pub use render::dec_u64;
pub use xmlwriter::XMLWriter;

use vstd::prelude::*;

verus! {

/// Decimal digits of `n`, most significant first.
pub open spec fn spec_dec_u64(n: nat) -> Seq<char>
    decreases n,
{
    if n < 10 {
        seq![render::spec_digit(n)]
    } else {
        spec_dec_u64(n / 10) + seq![render::spec_digit(n % 10)]
    }
}

} // verus!
