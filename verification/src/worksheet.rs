//! The worksheet: the sparse cell store, the typed write path, merged
//! ranges, autofilters, protection, page setup, and the emission of
//! the sheet XML.

use crate::datetime::{date_to_serial, time_to_billionths, ExcelDate, ExcelDateTime, ExcelTime};
use crate::formats::{spec_format_eq, Format};
use crate::kv::{seq_get, KvVec};
use crate::number::Num;
use crate::xmlwriter::XMLWriter;
use vstd::prelude::*;
use vstd::string::*;

verus! {

/// A zero indexed row number; Excel's limit is 1,048,576 rows.
pub type RowNum = u32;

/// A zero indexed column number; Excel's limit is 16,384 columns.
pub type ColNum = u16;

/// One more than the largest valid row index.
pub const ROW_MAX: u32 = 1_048_576;

/// One more than the largest valid column index.
pub const COL_MAX: u16 = 16_384;

/// The longest string a cell can hold.
pub const MAX_STRING_LEN: usize = 32_767;

/// The longest URL a hyperlink can hold.
pub const MAX_URL_LEN: usize = 2_080;

/// The longest screen tip a hyperlink can hold.
pub const MAX_PARAMETER_LEN: usize = 255;

/// The default column width in hundredths of a character: 8.43.
pub const DEFAULT_COL_WIDTH: u32 = 843;

/// The default row height in hundredths of a point: 15.
pub const DEFAULT_ROW_HEIGHT: u32 = 1500;

/// The composite key of a cell: the row in the high bits, the column
/// in the low 16, so that key order is row-major cell order.
pub open spec fn spec_cell_key(row: u32, col: u16) -> int {
    row as int * 0x10000 + col as int
}

/// Build the composite key of a cell.
pub fn cell_key(row: u32, col: u16) -> (k: u64)
    ensures
        k == spec_cell_key(row, col),
        k >> 16 == row as u64,
        k & 0xFFFF == col as u64,
{
    let k: u64 = (row as u64) * 0x10000 + col as u64;
    proof {
        assert(k >> 16 == row as u64 && k & 0xFFFF == col as u64) by (bit_vector)
            requires
                k == row as u64 * 0x10000 + col as u64,
                row <= 0xFFFF_FFFFu32,
                col <= 0xFFFFu16,
        ;
    }
    k
}

/// The errors the worksheet reports.
#[derive(Clone, Debug)]
pub enum XlsxError {
    /// A row or column is outside Excel's worksheet limits.
    RowColumnLimitError,
    /// The first row or column of a range is after the last.
    RowColumnOrderError,
    /// A string is longer than Excel's limit of 32,767 characters.
    MaxStringLengthExceeded,
    /// A URL or screen tip is longer than Excel allows.
    MaxUrlLengthExceeded,
    /// A worksheet name is empty.
    SheetnameCannotBeBlank,
    /// A worksheet name is longer than 31 characters.
    SheetnameLengthExceeded(String),
    /// A worksheet name holds one of `[ ] : * ? / \`.
    SheetnameContainsInvalidCharacter(String),
    /// A worksheet name starts or ends with an apostrophe.
    SheetnameStartsOrEndsWithApostrophe(String),
    /// A merge range covers only one cell.
    MergeRangeSingleCell,
    /// A merge range overlaps an earlier merge range.
    MergeRangeOverlaps(String, String),
    /// A precondition of the operation does not hold.
    ParameterError(String),
}

/// One cell of the worksheet.
#[derive(Clone, Debug)]
pub enum CellType {
    /// An array formula with its cached result, spill range and
    /// dynamic marker.
    ArrayFormula {
        /// The prepared formula body.
        formula: String,
        /// The local format index.
        xf_index: u32,
        /// The cached result text.
        result: String,
        /// Whether the formula is a dynamic array formula.
        is_dynamic: bool,
        /// The spill range in `A1:B2` form.
        range: String,
    },
    /// A blank cell, kept only for its format.
    Blank {
        /// The local format index.
        xf_index: u32,
    },
    /// A boolean cell.
    Boolean {
        /// The value.
        boolean: bool,
        /// The local format index.
        xf_index: u32,
    },
    /// A formula with its cached result.
    Formula {
        /// The prepared formula body.
        formula: String,
        /// The local format index.
        xf_index: u32,
        /// The cached result text.
        result: String,
    },
    /// A number.
    Number {
        /// The value.
        number: Num,
        /// The local format index.
        xf_index: u32,
    },
    /// A datetime serial number.
    DateTime {
        /// The serial value.
        number: Num,
        /// The local format index.
        xf_index: u32,
    },
    /// A string, interned into the shared string table at save time.
    Text {
        /// The cell text.
        string: String,
        /// The local format index.
        xf_index: u32,
    },
    /// A rich string: rendered `<r>` runs plus the raw text.
    RichText {
        /// The rendered runs, stored as the shared string body.
        string: String,
        /// The local format index.
        xf_index: u32,
        /// The concatenated raw text.
        raw_string: String,
    },
}

impl CellType {
    /// The local format index of the cell.
    pub open spec fn spec_xf(self) -> u32 {
        match self {
            CellType::ArrayFormula { xf_index, .. } => xf_index,
            CellType::Blank { xf_index } => xf_index,
            CellType::Boolean { xf_index, .. } => xf_index,
            CellType::Formula { xf_index, .. } => xf_index,
            CellType::Number { xf_index, .. } => xf_index,
            CellType::DateTime { xf_index, .. } => xf_index,
            CellType::Text { xf_index, .. } => xf_index,
            CellType::RichText { xf_index, .. } => xf_index,
        }
    }

    /// A well-formed cell: numeric payloads are well-formed.
    pub open spec fn spec_wf(self) -> bool {
        match self {
            CellType::Number { number, .. } => number.wf(),
            CellType::DateTime { number, .. } => number.wf(),
            _ => true,
        }
    }
}

/// The caller-set options of a row.
#[derive(Clone, Copy, Debug, PartialEq, Eq, Structural)]
pub struct RowOptions {
    /// The row height in hundredths of a point.
    pub height: u32,
    /// The local format index of the row.
    pub xf_index: u32,
    /// Whether the row is hidden.
    pub hidden: bool,
}

/// The caller-set options of a column.
#[derive(Clone, Copy, Debug, PartialEq, Eq, Structural)]
pub struct ColOptions {
    /// The column width in hundredths of a character.
    pub width: u32,
    /// The local format index of the column.
    pub xf_index: u32,
    /// Whether the column is hidden.
    pub hidden: bool,
    /// Whether the width came from autofit.
    pub autofit: bool,
}

/// A rectangular range of cells, zero indexed and inclusive.
#[derive(Clone, Copy, Debug, PartialEq, Eq, Structural)]
pub struct CellRange {
    /// The first row.
    pub first_row: RowNum,
    /// The first column.
    pub first_col: ColNum,
    /// The last row.
    pub last_row: RowNum,
    /// The last column.
    pub last_col: ColNum,
}

/// Whether two ranges share at least one cell.
pub open spec fn spec_ranges_overlap(a: CellRange, b: CellRange) -> bool {
    a.first_row <= b.last_row && b.first_row <= a.last_row && a.first_col <= b.last_col
        && b.first_col <= a.last_col
}

impl CellRange {
    /// The `A1:B2` range string.
    pub fn to_range_string(&self) -> (r: String)
        ensures
            r@ == crate::utility::spec_range_name(
                self.first_row as nat,
                self.first_col as nat,
                self.last_row as nat,
                self.last_col as nat,
            ),
    {
        crate::utility::cell_range(self.first_row, self.first_col, self.last_row, self.last_col)
    }

    /// The range rendered for an error message: the corner numbers and
    /// the range string.
    pub fn to_error_string(&self) -> (r: String)
        ensures
            r@ == "("@ + crate::spec_dec_u64(self.first_row as nat) + ", "@ + crate::spec_dec_u64(
                self.first_col as nat,
            ) + ", "@ + crate::spec_dec_u64(self.last_row as nat) + ", "@ + crate::spec_dec_u64(
                self.last_col as nat,
            ) + ") / "@ + crate::utility::spec_range_name(
                self.first_row as nat,
                self.first_col as nat,
                self.last_row as nat,
                self.last_col as nat,
            ),
    {
        let mut s = String::from_str("(");
        let d1 = crate::render::dec_u64(self.first_row as u64);
        s.append(d1.as_str());
        s.append(", ");
        let d2 = crate::render::dec_u64(self.first_col as u64);
        s.append(d2.as_str());
        s.append(", ");
        let d3 = crate::render::dec_u64(self.last_row as u64);
        s.append(d3.as_str());
        s.append(", ");
        let d4 = crate::render::dec_u64(self.last_col as u64);
        s.append(d4.as_str());
        s.append(") / ");
        let rs = self.to_range_string();
        s.append(rs.as_str());
        proof {
            assert(s@ =~= "("@ + crate::spec_dec_u64(self.first_row as nat) + ", "@
                + crate::spec_dec_u64(self.first_col as nat) + ", "@ + crate::spec_dec_u64(
                self.last_row as nat,
            ) + ", "@ + crate::spec_dec_u64(self.last_col as nat) + ") / "@
                + crate::utility::spec_range_name(
                self.first_row as nat,
                self.first_col as nat,
                self.last_row as nat,
                self.last_col as nat,
            ));
        }
        s
    }
}

/// The view mode of a worksheet.
#[derive(Clone, Copy, Debug, PartialEq, Eq, Structural)]
pub enum PageView {
    /// The normal view.
    Normal,
    /// The page layout view.
    PageLayout,
    /// The page break preview.
    PageBreaks,
}

/// The frozen panes of a worksheet.
#[derive(Clone, Copy, Debug, PartialEq, Eq, Structural)]
pub struct Panes {
    /// The first unfrozen cell.
    pub freeze_row: RowNum,
    /// The first unfrozen column.
    pub freeze_col: ColNum,
    /// An explicit top-left visible cell, `(0, 0)` for the default.
    pub top_row: RowNum,
    /// An explicit top-left visible column.
    pub top_col: ColNum,
}

impl Panes {
    /// Whether no freeze is set.
    pub open spec fn spec_is_empty(self) -> bool {
        self.freeze_row == 0 && self.freeze_col == 0
    }

    /// Whether no freeze is set.
    pub fn is_empty(&self) -> (r: bool)
        ensures
            r == self.spec_is_empty(),
    {
        self.freeze_row == 0 && self.freeze_col == 0
    }

    /// The top-left cell written into the `<pane>` element.
    pub open spec fn spec_top_left(self) -> Seq<char> {
        if self.top_row == 0 && self.top_col == 0 {
            crate::utility::spec_cell_name(self.freeze_row as nat, self.freeze_col as nat)
        } else {
            crate::utility::spec_cell_name(self.top_row as nat, self.top_col as nat)
        }
    }

    /// The top-left cell written into the `<pane>` element.
    pub fn top_left(&self) -> (r: String)
        ensures
            r@ == self.spec_top_left(),
    {
        if self.top_row == 0 && self.top_col == 0 {
            crate::utility::rowcol_to_cell(self.freeze_row, self.freeze_col)
        } else {
            crate::utility::rowcol_to_cell(self.top_row, self.top_col)
        }
    }
}

/// Which worksheet elements stay editable in a protected sheet.
#[derive(Clone, Copy, Debug, PartialEq, Eq, Structural)]
pub struct ProtectionOptions {
    /// Allow editing objects.
    pub edit_objects: bool,
    /// Allow editing scenarios.
    pub edit_scenarios: bool,
    /// Allow formatting cells.
    pub format_cells: bool,
    /// Allow formatting columns.
    pub format_columns: bool,
    /// Allow formatting rows.
    pub format_rows: bool,
    /// Allow inserting columns.
    pub insert_columns: bool,
    /// Allow inserting rows.
    pub insert_rows: bool,
    /// Allow inserting hyperlinks.
    pub insert_links: bool,
    /// Allow deleting columns.
    pub delete_columns: bool,
    /// Allow deleting rows.
    pub delete_rows: bool,
    /// Allow selecting locked cells.
    pub select_locked_cells: bool,
    /// Allow sorting.
    pub sort: bool,
    /// Allow using autofilters.
    pub use_autofilter: bool,
    /// Allow using pivot tables.
    pub use_pivot_tables: bool,
    /// Allow selecting unlocked cells.
    pub select_unlocked_cells: bool,
}

impl ProtectionOptions {
    /// The default protection: only selection is allowed.
    pub fn new() -> (r: ProtectionOptions)
        ensures
            r == ProtectionOptions::spec_default(),
    {
        ProtectionOptions {
            edit_objects: false,
            edit_scenarios: false,
            format_cells: false,
            format_columns: false,
            format_rows: false,
            insert_columns: false,
            insert_rows: false,
            insert_links: false,
            delete_columns: false,
            delete_rows: false,
            select_locked_cells: true,
            sort: false,
            use_autofilter: false,
            use_pivot_tables: false,
            select_unlocked_cells: true,
        }
    }

    /// The default protection options.
    pub open spec fn spec_default() -> ProtectionOptions {
        ProtectionOptions {
            edit_objects: false,
            edit_scenarios: false,
            format_cells: false,
            format_columns: false,
            format_rows: false,
            insert_columns: false,
            insert_rows: false,
            insert_links: false,
            delete_columns: false,
            delete_rows: false,
            select_locked_cells: true,
            sort: false,
            use_autofilter: false,
            use_pivot_tables: false,
            select_unlocked_cells: true,
        }
    }
}

impl Default for ProtectionOptions {
    /// The default protection options.
    fn default() -> (r: ProtectionOptions)
        ensures
            r == ProtectionOptions::spec_default(),
    {
        ProtectionOptions::new()
    }
}

/// The kind of a defined name.
#[derive(Clone, Copy, Debug, PartialEq, Eq, Structural)]
pub enum DefinedNameType {
    /// The hidden `_xlnm._FilterDatabase` name of an autofilter.
    Autofilter,
    /// A workbook-scoped user name.
    Global,
    /// A sheet-scoped user name.
    Local,
    /// The `_xlnm.Print_Area` name.
    PrintArea,
    /// The `_xlnm.Print_Titles` name.
    PrintTitles,
}

/// A defined name: a named range, or one of Excel's builtins for
/// print areas, print titles and autofilters.
#[derive(Clone, Debug)]
pub struct DefinedName {
    /// Whether the name is set.
    pub in_use: bool,
    /// The user name, for user-defined kinds.
    pub name: String,
    /// The lower-cased sort key that reproduces Excel's emit order.
    pub sort_name: String,
    /// The rendered range.
    pub range: String,
    /// The quoted sheet name the range refers to.
    pub quoted_sheet_name: String,
    /// The sheet index the name is scoped to.
    pub index: u16,
    /// The kind of the name.
    pub name_type: DefinedNameType,
    /// The first row of the range.
    pub first_row: RowNum,
    /// The first column of the range.
    pub first_col: ColNum,
    /// The last row of the range.
    pub last_row: RowNum,
    /// The last column of the range.
    pub last_col: ColNum,
}

impl DefinedName {
    /// An unused defined name, with the range corners at their
    /// opposite extremes.
    pub fn new() -> (r: DefinedName)
        ensures
            !r.in_use,
            r.name_type == DefinedNameType::Global,
            r.first_row == ROW_MAX && r.first_col == COL_MAX && r.last_row == 0 && r.last_col
                == 0,
    {
        DefinedName {
            in_use: false,
            name: String::new(),
            sort_name: String::new(),
            range: String::new(),
            quoted_sheet_name: String::new(),
            index: 0,
            name_type: DefinedNameType::Global,
            first_row: ROW_MAX,
            first_col: COL_MAX,
            last_row: 0,
            last_col: 0,
        }
    }
}

impl DefinedName {
    /// Record the quoted sheet name and recompute the range and sort
    /// key.
    pub fn initialize(&mut self, sheet_name: &str)
        ensures
            *final(self) == (DefinedName {
                quoted_sheet_name: final(self).quoted_sheet_name,
                range: final(self).range,
                sort_name: final(self).sort_name,
                ..*old(self)
            }),
            final(self).quoted_sheet_name@ == sheet_name@,
            final(self).range@ == spec_defined_name_range(
                DefinedName { quoted_sheet_name: final(self).quoted_sheet_name, ..*old(self) },
            ),
            final(self).sort_name@ == spec_defined_name_sort_key(*old(self)),
    {
        self.quoted_sheet_name = String::from_str(sheet_name);
        self.set_range();
        self.set_sort_name();
    }

    /// The name as written in `workbook.xml`: builtins use their
    /// `_xlnm.` form.
    pub fn name(&self) -> (r: String)
        ensures
            self.name_type == DefinedNameType::PrintArea ==> r@ == "_xlnm.Print_Area"@,
            self.name_type == DefinedNameType::Autofilter ==> r@ == "_xlnm._FilterDatabase"@,
            self.name_type == DefinedNameType::PrintTitles ==> r@ == "_xlnm.Print_Titles"@,
            self.name_type == DefinedNameType::Global || self.name_type == DefinedNameType::Local
                ==> r@ == self.name@,
    {
        match self.name_type {
            DefinedNameType::PrintArea => String::from_str("_xlnm.Print_Area"),
            DefinedNameType::Autofilter => String::from_str("_xlnm._FilterDatabase"),
            DefinedNameType::PrintTitles => String::from_str("_xlnm.Print_Titles"),
            _ => self.name.clone(),
        }
    }

    /// The name as listed in the document application properties:
    /// autofilters are hidden, globals appear only with a ranged
    /// sheet reference.
    pub fn app_name(&self) -> (r: String)
        ensures
            self.name_type == DefinedNameType::Autofilter ==> r@ == Seq::<char>::empty(),
            self.name_type == DefinedNameType::Global ==> r@ == (
            if crate::text::spec_contains(self.range@, "!"@) {
                self.name@
            } else {
                Seq::<char>::empty()
            }),
            self.name_type == DefinedNameType::Local ==> r@ == self.quoted_sheet_name@ + "!"@
                + self.name@,
            self.name_type == DefinedNameType::PrintArea ==> r@ == self.quoted_sheet_name@
                + "!Print_Area"@,
            self.name_type == DefinedNameType::PrintTitles ==> r@ == self.quoted_sheet_name@
                + "!Print_Titles"@,
    {
        match self.name_type {
            DefinedNameType::Local => {
                let mut s = self.quoted_sheet_name.clone();
                s.append("!");
                s.append(self.name.as_str());
                proof {
                    assert(s@ =~= self.quoted_sheet_name@ + "!"@ + self.name@);
                }
                s
            },
            DefinedNameType::PrintArea => {
                let mut s = self.quoted_sheet_name.clone();
                s.append("!Print_Area");
                s
            },
            DefinedNameType::Autofilter => String::new(),
            DefinedNameType::PrintTitles => {
                let mut s = self.quoted_sheet_name.clone();
                s.append("!Print_Titles");
                s
            },
            DefinedNameType::Global => {
                if crate::text::contains_str(self.range.as_str(), "!") {
                    self.name.clone()
                } else {
                    String::new()
                }
            },
        }
    }

    /// The sheet name with surrounding quotes removed.
    pub fn unquoted_sheet_name(&self) -> (r: String)
        ensures
            r@ == (if self.quoted_sheet_name@.len() >= 2 && self.quoted_sheet_name@.first()
                == '\'' && self.quoted_sheet_name@.last() == '\'' {
                self.quoted_sheet_name@.subrange(1, self.quoted_sheet_name@.len() - 1)
            } else {
                self.quoted_sheet_name@
            }),
    {
        let q = self.quoted_sheet_name.as_str();
        let n = q.unicode_len();
        if n >= 2 && q.get_char(0) == '\'' && q.get_char(n - 1) == '\'' {
            String::from_str(q.substring_char(1, n - 1))
        } else {
            self.quoted_sheet_name.clone()
        }
    }

    /// Compute the sort key: the lower-cased name, with builtins
    /// replaced by their unprefixed tokens and apostrophes removed.
    pub fn set_sort_name(&mut self)
        ensures
            *final(self) == (DefinedName { sort_name: final(self).sort_name, ..*old(self) }),
            final(self).sort_name@ == spec_defined_name_sort_key(*old(self)),
    {
        let base: String = match self.name_type {
            DefinedNameType::PrintArea => String::from_str("Print_Area{}"),
            DefinedNameType::Autofilter => String::from_str("_FilterDatabase{}"),
            DefinedNameType::PrintTitles => String::from_str("Print_Titles"),
            _ => self.name.clone(),
        };
        let cleaned = crate::text::replace_all(base.as_str(), "'", "");
        proof {
            reveal_strlit("");
            assert(""@ =~= Seq::<char>::empty());
        }
        self.sort_name = crate::text::unicode_lower(cleaned.as_str());
    }

    /// Recompute the rendered range from the stored corners.
    pub fn set_range(&mut self)
        ensures
            *final(self) == (DefinedName { range: final(self).range, ..*old(self) }),
            final(self).range@ == spec_defined_name_range(*old(self)),
    {
        match self.name_type {
            DefinedNameType::Autofilter | DefinedNameType::PrintArea => {
                let range: String = if self.first_col == 0 && self.last_col == COL_MAX - 1 {
                    let mut r = String::from_str("$");
                    let d1 = crate::render::dec_u64(self.first_row as u64 + 1);
                    r.append(d1.as_str());
                    r.append(":$");
                    let d2 = crate::render::dec_u64(self.last_row as u64 + 1);
                    r.append(d2.as_str());
                    r
                } else if self.first_row == 0 && self.last_row == ROW_MAX - 1 {
                    let mut r = String::from_str("$");
                    let c1 = crate::utility::col_to_name(self.first_col);
                    r.append(c1.as_str());
                    r.append(":$");
                    let c2 = crate::utility::col_to_name(self.last_col);
                    r.append(c2.as_str());
                    r
                } else {
                    crate::utility::cell_range_abs(
                        self.first_row,
                        self.first_col,
                        self.last_row,
                        self.last_col,
                    )
                };
                let mut full = self.quoted_sheet_name.clone();
                full.append("!");
                full.append(range.as_str());
                self.range = full;
                proof {
                    assert(self.range@ =~= spec_defined_name_range(*old(self)));
                }
            },
            DefinedNameType::PrintTitles => {
                let has_cols = self.first_col != COL_MAX || self.last_col != 0;
                let has_rows = self.first_row != ROW_MAX || self.last_row != 0;
                let mut range = String::new();
                if has_cols {
                    let mut r = self.quoted_sheet_name.clone();
                    r.append("!$");
                    let c1 = crate::utility::col_to_name(self.first_col);
                    r.append(c1.as_str());
                    r.append(":$");
                    let c2 = crate::utility::col_to_name(self.last_col);
                    r.append(c2.as_str());
                    range = r;
                }
                if has_rows {
                    let mut row_range = self.quoted_sheet_name.clone();
                    row_range.append("!$");
                    let d1 = crate::render::dec_u64(self.first_row as u64 + 1);
                    row_range.append(d1.as_str());
                    row_range.append(":$");
                    let d2 = crate::render::dec_u64(self.last_row as u64 + 1);
                    row_range.append(d2.as_str());
                    if !has_cols {
                        range = row_range;
                    } else {
                        range.append(",");
                        range.append(row_range.as_str());
                    }
                }
                self.range = range;
                proof {
                    assert(self.range@ =~= spec_defined_name_range(*old(self)));
                }
            },
            _ => {},
        }
    }
}

/// The base text of a defined name's sort key, before case folding:
/// builtins use fixed tokens.
pub open spec fn spec_sort_name_base(d: DefinedName) -> Seq<char> {
    if d.name_type == DefinedNameType::PrintArea {
        "Print_Area{}"@
    } else if d.name_type == DefinedNameType::Autofilter {
        "_FilterDatabase{}"@
    } else if d.name_type == DefinedNameType::PrintTitles {
        "Print_Titles"@
    } else {
        d.name@
    }
}

/// The rendered range text of a defined name: print areas and
/// autofilters use a row-only range when the columns span the sheet,
/// a column-only range when the rows do, and the absolute cell range
/// otherwise; print titles join their column and row parts with a
/// comma; other kinds keep the stored range.
pub open spec fn spec_defined_name_range(d: DefinedName) -> Seq<char> {
    if d.name_type == DefinedNameType::Autofilter || d.name_type == DefinedNameType::PrintArea {
        let range: Seq<char> = if d.first_col == 0 && d.last_col == COL_MAX - 1 {
            "$"@ + crate::spec_dec_u64((d.first_row + 1) as nat) + ":$"@ + crate::spec_dec_u64(
                (d.last_row + 1) as nat,
            )
        } else if d.first_row == 0 && d.last_row == ROW_MAX - 1 {
            "$"@ + crate::utility::spec_col_name(d.first_col as nat) + ":$"@
                + crate::utility::spec_col_name(d.last_col as nat)
        } else {
            crate::utility::spec_range_name_abs(
                d.first_row as nat,
                d.first_col as nat,
                d.last_row as nat,
                d.last_col as nat,
            )
        };
        d.quoted_sheet_name@ + "!"@ + range
    } else if d.name_type == DefinedNameType::PrintTitles {
        let col_part: Seq<char> = d.quoted_sheet_name@ + "!$"@ + crate::utility::spec_col_name(
            d.first_col as nat,
        ) + ":$"@ + crate::utility::spec_col_name(d.last_col as nat);
        let row_part: Seq<char> = d.quoted_sheet_name@ + "!$"@ + crate::spec_dec_u64(
            (d.first_row + 1) as nat,
        ) + ":$"@ + crate::spec_dec_u64((d.last_row + 1) as nat);
        let has_cols = d.first_col != COL_MAX || d.last_col != 0;
        let has_rows = d.first_row != ROW_MAX || d.last_row != 0;
        if has_cols && has_rows {
            col_part + ","@ + row_part
        } else if has_cols {
            col_part
        } else if has_rows {
            row_part
        } else {
            Seq::empty()
        }
    } else {
        d.range@
    }
}

/// The sort key of a defined name: the base token with apostrophes
/// removed, folded to lower case.
pub open spec fn spec_defined_name_sort_key(d: DefinedName) -> Seq<char> {
    crate::text::spec_unicode_lower(
        crate::text::spec_replace_all(spec_sort_name_base(d), "'"@, Seq::<char>::empty()),
    )
}

/// The kind of a hyperlink, decided by its URL prefix.
#[derive(Clone, Copy, Debug, PartialEq, Eq, Structural)]
pub enum HyperlinkType {
    /// No recognized prefix.
    Unknown,
    /// A web or mail link.
    Url,
    /// A link to a location inside the workbook.
    Internal,
    /// A link to another file.
    File,
}

/// One hyperlink of the worksheet.
#[derive(Clone, Debug)]
pub struct Hyperlink {
    /// The link target, escaped unless it already held `%xx` escapes.
    pub url: String,
    /// The display text.
    pub text: String,
    /// The screen tip.
    pub tip: String,
    /// The location part: the anchor after `#`, or the internal
    /// target.
    pub location: String,
    /// The kind of the link.
    pub link_type: HyperlinkType,
    /// The relationship id assigned at emission.
    pub ref_id: u16,
}

/// The comparison of a custom filter.
#[derive(Clone, Copy, Debug, PartialEq, Eq, Structural)]
pub enum FilterCriteria {
    /// Equal to the value.
    EqualTo,
    /// Not equal to the value.
    NotEqualTo,
    /// Below the value.
    LessThan,
    /// At or below the value.
    LessThanOrEqualTo,
    /// Above the value.
    GreaterThan,
    /// At or above the value.
    GreaterThanOrEqualTo,
    /// Text beginning with the value.
    BeginsWith,
    /// Text not beginning with the value.
    DoesNotBeginWith,
    /// Text ending with the value.
    EndsWith,
    /// Text not ending with the value.
    DoesNotEndWith,
    /// Text containing the value.
    Contains,
    /// Text not containing the value.
    DoesNotContain,
}

impl FilterCriteria {
    /// The `operator=` attribute value; equality is the default and
    /// writes none.
    pub fn operator(&self) -> (r: &'static str)
        ensures
            r@ == spec_criteria_operator(*self),
    {
        proof {
            reveal_strlit("");
            assert(""@ =~= Seq::<char>::empty());
        }
        match self {
            FilterCriteria::EqualTo => "",
            FilterCriteria::NotEqualTo => "notEqual",
            FilterCriteria::LessThan => "lessThan",
            FilterCriteria::LessThanOrEqualTo => "lessThanOrEqual",
            FilterCriteria::GreaterThan => "greaterThan",
            FilterCriteria::GreaterThanOrEqualTo => "greaterThanOrEqual",
            _ => "",
        }
    }
}

/// The `operator=` attribute of a custom filter.
pub open spec fn spec_criteria_operator(c: FilterCriteria) -> Seq<char> {
    match c {
        FilterCriteria::NotEqualTo => "notEqual"@,
        FilterCriteria::LessThan => "lessThan"@,
        FilterCriteria::LessThanOrEqualTo => "lessThanOrEqual"@,
        FilterCriteria::GreaterThan => "greaterThan"@,
        FilterCriteria::GreaterThanOrEqualTo => "greaterThanOrEqual"@,
        _ => Seq::empty(),
    }
}

/// Whether a filter value is text or a number.
#[derive(Clone, Copy, Debug, PartialEq, Eq, Structural)]
pub enum FilterDataType {
    /// A text value.
    TextValue,
    /// A numeric value.
    NumberValue,
}

/// One filter value with its comparison.
#[derive(Clone, Debug)]
pub struct FilterData {
    /// Whether the value is text or a number.
    pub data_type: FilterDataType,
    /// The text value, or the rendered number.
    pub string: String,
    /// The numeric value, zero for text.
    pub number: Num,
    /// The comparison applied by a custom filter.
    pub criteria: FilterCriteria,
}

impl FilterData {
    /// A text value.
    pub fn new_string(value: &str, criteria: FilterCriteria) -> (r: FilterData)
        ensures
            r.data_type == FilterDataType::TextValue,
            r.string@ == value@,
            r.criteria == criteria,
            r.number.wf(),
    {
        FilterData {
            data_type: FilterDataType::TextValue,
            string: String::from_str(value),
            number: Num::zero(),
            criteria,
        }
    }

    /// A numeric value; its text form is the rendered number.
    pub fn new_number(value: Num, criteria: FilterCriteria) -> (r: FilterData)
        requires
            value.wf(),
        ensures
            r.data_type == FilterDataType::NumberValue,
            r.number == value,
            r.criteria == criteria,
            r.string@ == Num::spec_render(value@),
            r.number.wf(),
    {
        FilterData {
            data_type: FilterDataType::NumberValue,
            string: value.render(),
            number: value,
            criteria,
        }
    }

    /// The `val=` attribute of the filter.
    pub fn value(&self) -> (r: String)
        ensures
            r@ == self.string@,
    {
        self.string.clone()
    }
}

/// The filter applied to one column of an autofilter range: either a
/// list of allowed values or one or two custom comparisons.
#[derive(Clone, Debug)]
pub struct FilterCondition {
    /// Whether the condition is a list filter.
    pub is_list_filter: bool,
    /// The allowed values of a list filter.
    pub list: Vec<FilterData>,
    /// The first custom comparison.
    pub custom1: Option<FilterData>,
    /// The second custom comparison.
    pub custom2: Option<FilterData>,
    /// Whether the two custom comparisons are joined by OR.
    pub apply_logical_or: bool,
    /// Whether blank cells match.
    pub should_match_blanks: bool,
}

impl FilterCondition {
    /// An empty list filter.
    pub fn new() -> (r: FilterCondition)
        ensures
            r.is_list_filter,
            r.list@ == Seq::<FilterData>::empty(),
            r.custom1 is None,
            r.custom2 is None,
            !r.apply_logical_or,
            !r.should_match_blanks,
    {
        FilterCondition {
            is_list_filter: true,
            list: Vec::new(),
            custom1: None,
            custom2: None,
            apply_logical_or: false,
            should_match_blanks: false,
        }
    }

    /// Add a text value to the list filter.
    pub fn add_list_filter(self, value: &str) -> (r: FilterCondition)
        ensures
            r == (FilterCondition { is_list_filter: true, list: r.list, ..self }),
            r.list@ == self.list@.push(r.list@.last()),
            r.list@.len() == self.list@.len() + 1,
            r.list@.last().data_type == FilterDataType::TextValue,
            r.list@.last().string@ == value@,
    {
        let mut f = self;
        f.is_list_filter = true;
        f.list.push(FilterData::new_string(value, FilterCriteria::EqualTo));
        f
    }

    /// Add a numeric value to the list filter.
    pub fn add_list_filter_number(self, value: Num) -> (r: FilterCondition)
        requires
            value.wf(),
        ensures
            r == (FilterCondition { is_list_filter: true, list: r.list, ..self }),
            r.list@ == self.list@.push(r.list@.last()),
            r.list@.len() == self.list@.len() + 1,
            r.list@.last().data_type == FilterDataType::NumberValue,
            r.list@.last().number == value,
            r.list@.last().number.wf(),
    {
        let mut f = self;
        f.is_list_filter = true;
        f.list.push(FilterData::new_number(value, FilterCriteria::EqualTo));
        f
    }

    /// Let blank cells match the list filter.
    pub fn add_list_blanks_filter(self) -> (r: FilterCondition)
        ensures
            r == (FilterCondition { is_list_filter: true, should_match_blanks: true, ..self }),
    {
        let mut f = self;
        f.is_list_filter = true;
        f.should_match_blanks = true;
        f
    }

    /// Add a custom comparison: the first free slot takes it.
    pub fn add_custom_filter(self, data: FilterData) -> (r: FilterCondition)
        ensures
            self.custom1 is None ==> r == (FilterCondition {
                is_list_filter: false,
                custom1: Some(data),
                ..self
            }),
            self.custom1 is Some && self.custom2 is None ==> r == (FilterCondition {
                is_list_filter: false,
                custom2: Some(data),
                ..self
            }),
            self.custom1 is Some && self.custom2 is Some ==> r == (FilterCondition {
                is_list_filter: false,
                ..self
            }),
    {
        let mut f = self;
        f.is_list_filter = false;
        if f.custom1.is_none() {
            f.custom1 = Some(data);
        } else if f.custom2.is_none() {
            f.custom2 = Some(data);
        }
        f
    }

    /// Join the two custom comparisons with OR instead of AND.
    pub fn add_custom_boolean_or(self) -> (r: FilterCondition)
        ensures
            r == (FilterCondition { apply_logical_or: true, ..self }),
    {
        let mut f = self;
        f.apply_logical_or = true;
        f
    }

    /// Whether a well-formed condition: numeric values well-formed.
    pub open spec fn spec_wf(self) -> bool {
        (forall|i: int| 0 <= i < self.list@.len() ==> (#[trigger] self.list@[i]).number.wf())
            && (self.custom1 matches Some(d) ==> d.number.wf()) && (self.custom2 matches Some(d)
            ==> d.number.wf())
    }
}

/// The composite cell key as a `u64`.
pub open spec fn spec_key_u64(row: u32, col: u16) -> u64 {
    (row as int * 0x10000 + col as int) as u64
}

/// One well-formed cell entry: the key decodes to a valid cell
/// reference and the cell's format index is in range.
pub open spec fn spec_cell_entry_wf(k: u64, c: CellType, nfmts: int) -> bool {
    k < ROW_MAX as int * 0x10000 && (k as int % 0x10000) < COL_MAX as int && c.spec_wf()
        && c.spec_xf() < nfmts
}

/// A well-formed cell store against a format table of `nfmts` entries.
pub open spec fn spec_cells_wf(cells: KvVec<CellType>, nfmts: int) -> bool {
    &&& cells.wf()
    &&& forall|i: int|
        0 <= i < cells.entries@.len() ==> #[trigger] spec_cell_entry_wf(
            cells.entries@[i].0,
            cells.entries@[i].1,
            nfmts,
        )
}

/// One well-formed row option entry.
pub open spec fn spec_row_opt_entry_wf(k: u64, o: RowOptions, nfmts: int) -> bool {
    k < ROW_MAX as u64 && o.xf_index < nfmts
}

/// A worksheet: the cell store, formats, page setup and everything
/// else one sheet of a workbook carries.
pub struct Worksheet {
    /// The XML output buffer used at save time.
    pub writer: XMLWriter,
    /// The worksheet name.
    pub name: String,
    /// Whether this is the active worksheet.
    pub active: bool,
    /// Whether the worksheet tab is selected.
    pub selected: bool,
    /// Whether the worksheet is hidden.
    pub hidden: bool,
    /// Whether this is the leftmost visible tab.
    pub first_sheet: bool,
    /// Whether any cell uses the shared string table.
    pub uses_string_table: bool,
    /// Whether any formula is a dynamic array formula.
    pub has_dynamic_arrays: bool,
    /// The `_xlnm.Print_Area` defined name.
    pub print_area_defined_name: DefinedName,
    /// The `_xlnm.Print_Titles` defined name.
    pub repeat_row_cols_defined_name: DefinedName,
    /// The `_xlnm._FilterDatabase` defined name.
    pub autofilter_defined_name: DefinedName,
    /// The autofilter range string.
    pub autofilter_area: String,
    /// The deduplicated formats used by this worksheet, index 0 the
    /// default.
    pub xf_formats: Vec<Format>,
    /// Whether a hyperlink-styled format was stored.
    pub has_hyperlink_style: bool,
    /// The hyperlink targets of the sheet's `.rels` file.
    pub hyperlink_relationships: Vec<(String, String, String)>,
    /// The cells, keyed by the composite row-and-column key, so that
    /// entry order is row-major cell order.
    pub cells: KvVec<CellType>,
    /// The row options, keyed by row number.
    pub row_opts: KvVec<RowOptions>,
    /// The merged ranges, in insertion order.
    pub merged_ranges: Vec<CellRange>,
    /// The bounding box of used cells; empty while at its sentinel.
    pub dimensions: CellRange,
    /// The worksheet-local to workbook-global format index map.
    pub global_xf_indices: Vec<u32>,
    /// The column options, keyed by column number.
    pub changed_cols: KvVec<ColOptions>,
    /// Whether the page setup changed.
    pub page_setup_changed: bool,
    /// The tab color.
    pub tab_color: crate::formats::XlsxColor,
    /// Whether printing fits to a page count.
    pub fit_to_page: bool,
    /// The fit-to width in pages.
    pub fit_width: u16,
    /// The fit-to height in pages.
    pub fit_height: u16,
    /// The printer paper size.
    pub paper_size: u8,
    /// Whether pages print down, then over.
    pub default_page_order: bool,
    /// Whether the sheet displays right to left.
    pub right_to_left: bool,
    /// Whether printing is portrait.
    pub portrait: bool,
    /// The view mode.
    pub page_view: PageView,
    /// The zoom factor, `10 ..= 400`.
    pub zoom: u16,
    /// The print scale, `10 ..= 400`.
    pub print_scale: u16,
    /// Whether print options changed.
    pub print_options_changed: bool,
    /// Center horizontally when printing.
    pub center_horizontally: bool,
    /// Center vertically when printing.
    pub center_vertically: bool,
    /// Print the gridlines.
    pub print_gridlines: bool,
    /// Print in black and white.
    pub print_black_and_white: bool,
    /// Print in draft quality.
    pub print_draft: bool,
    /// Print the row and column headings.
    pub print_headings: bool,
    /// The page header string.
    pub header: String,
    /// The page footer string.
    pub footer: String,
    /// Whether a header or footer was set.
    pub head_footer_changed: bool,
    /// Whether the header scales with the document.
    pub header_footer_scale_with_doc: bool,
    /// Whether the header aligns with the page margins.
    pub header_footer_align_with_page: bool,
    /// The left margin in hundredths of an inch.
    pub margin_left: u32,
    /// The right margin in hundredths of an inch.
    pub margin_right: u32,
    /// The top margin in hundredths of an inch.
    pub margin_top: u32,
    /// The bottom margin in hundredths of an inch.
    pub margin_bottom: u32,
    /// The header margin in hundredths of an inch.
    pub margin_header: u32,
    /// The footer margin in hundredths of an inch.
    pub margin_footer: u32,
    /// The first printed page number, 0 for automatic.
    pub first_page_number: u16,
    /// The default cached formula result.
    pub default_result: String,
    /// Whether future functions are prefixed in formulas.
    pub use_future_functions: bool,
    /// The frozen panes.
    pub panes: Panes,
    /// The hyperlinks, keyed by cell key.
    pub hyperlinks: KvVec<Hyperlink>,
    /// The relationship id counter of the sheet's `.rels` file.
    pub rel_count: u16,
    /// Whether the sheet is protected.
    pub protection_on: bool,
    /// The weak hash of the protection password.
    pub protection_hash: u16,
    /// Which elements stay editable under protection.
    pub protection_options: ProtectionOptions,
    /// The unprotected ranges: range, name, password hash.
    pub unprotected_ranges: Vec<(String, String, u16)>,
    /// The selected range: active cell and full range.
    pub selected_range: (String, String),
    /// The top-left visible cell, empty for the default.
    pub top_left_cell: String,
    /// The manual row page breaks.
    pub horizontal_breaks: Vec<u32>,
    /// The manual column page breaks.
    pub vertical_breaks: Vec<u32>,
    /// The filter conditions, keyed by column number.
    pub filter_conditions: KvVec<FilterCondition>,
    /// Whether automatic row hiding for filters is off.
    pub filter_automatic_off: bool,
}

impl Worksheet {
    /// The stored cell at `(row, col)`, if any.
    pub open spec fn spec_cell(self, row: u32, col: u16) -> Option<CellType> {
        seq_get(self.cells.entries@, spec_key_u64(row, col))
    }

    /// The options of `row`, if any were set.
    pub open spec fn spec_row_opts(self, row: u32) -> Option<RowOptions> {
        seq_get(self.row_opts.entries@, row as u64)
    }

    /// The options of `col`, if any were set.
    pub open spec fn spec_col_opts(self, col: u16) -> Option<ColOptions> {
        seq_get(self.changed_cols.entries@, col as u64)
    }

    /// Whether no cell or row option has touched the dimensions yet.
    pub open spec fn spec_dims_empty(self) -> bool {
        self.dimensions == (CellRange {
            first_row: ROW_MAX,
            first_col: COL_MAX,
            last_row: 0,
            last_col: 0,
        })
    }

    /// The structural invariant of the worksheet. Kept opaque so that
    /// threading it through contracts stays cheap; the lemmas that
    /// establish or consume its parts reveal it.
    #[verifier::opaque]
    pub open spec fn wf(self) -> bool {
        &&& spec_cells_wf(self.cells, self.xf_formats@.len() as int)
        &&& self.row_opts.wf()
        &&& forall|i: int|
            0 <= i < self.row_opts.entries@.len() ==> #[trigger] spec_row_opt_entry_wf(
                self.row_opts.entries@[i].0,
                self.row_opts.entries@[i].1,
                self.xf_formats@.len() as int,
            )
        &&& self.changed_cols.wf()
        &&& forall|i: int|
            0 <= i < self.changed_cols.entries@.len() ==> (
            #[trigger] self.changed_cols.entries@[i]).0 < COL_MAX as u64
                && self.changed_cols.entries@[i].1.xf_index < self.xf_formats@.len()
        &&& 1 <= self.xf_formats@.len() < 0xFFFF_FFFF
        &&& spec_formats_distinct(self.xf_formats@)
        &&& self.filter_conditions.wf()
        &&& forall|i: int|
            0 <= i < self.filter_conditions.entries@.len() ==> (
            #[trigger] self.filter_conditions.entries@[i]).0 < COL_MAX as u64
                && self.filter_conditions.entries@[i].1.spec_wf()
        &&& self.hyperlinks.wf()
    }

    /// A new, empty worksheet.
    pub fn new() -> (r: Worksheet)
        ensures
            r.wf(),
            r.name@ == Seq::<char>::empty(),
            r.cells.view_entries() == Seq::<(u64, CellType)>::empty(),
            r.row_opts.view_entries() == Seq::<(u64, RowOptions)>::empty(),
            r.changed_cols.view_entries() == Seq::<(u64, ColOptions)>::empty(),
            r.xf_formats@.len() == 1,
            crate::formats::spec_format_is_default(r.xf_formats@[0]),
            r.merged_ranges@ == Seq::<CellRange>::empty(),
            r.spec_dims_empty(),
            r.writer@ == Seq::<char>::empty(),
            !r.uses_string_table,
            !r.has_dynamic_arrays,
            r.filter_conditions.view_entries() == Seq::<(u64, FilterCondition)>::empty(),
            r.hyperlinks.view_entries() == Seq::<(u64, Hyperlink)>::empty(),
            !r.protection_on,
            r.zoom == 100,
            r.print_scale == 100,
            r.default_result@ == "0"@,
    {
        let mut xf_formats: Vec<Format> = Vec::new();
        xf_formats.push(Format::new());
        proof {
            reveal(Worksheet::wf);
            reveal(spec_formats_distinct);
            assert(spec_formats_distinct(xf_formats@));
        }
        let r = Worksheet {
            writer: XMLWriter::new(),
            name: String::new(),
            active: false,
            selected: false,
            hidden: false,
            first_sheet: false,
            uses_string_table: false,
            has_dynamic_arrays: false,
            print_area_defined_name: DefinedName::new(),
            repeat_row_cols_defined_name: DefinedName::new(),
            autofilter_defined_name: DefinedName::new(),
            autofilter_area: String::new(),
            xf_formats,
            has_hyperlink_style: false,
            hyperlink_relationships: Vec::new(),
            cells: KvVec::new(),
            row_opts: KvVec::new(),
            merged_ranges: Vec::new(),
            dimensions: CellRange {
                first_row: ROW_MAX,
                first_col: COL_MAX,
                last_row: 0,
                last_col: 0,
            },
            global_xf_indices: Vec::new(),
            changed_cols: KvVec::new(),
            page_setup_changed: false,
            tab_color: crate::formats::XlsxColor::Automatic,
            fit_to_page: false,
            fit_width: 1,
            fit_height: 1,
            paper_size: 0,
            default_page_order: true,
            right_to_left: false,
            portrait: true,
            page_view: PageView::Normal,
            zoom: 100,
            print_scale: 100,
            print_options_changed: false,
            center_horizontally: false,
            center_vertically: false,
            print_gridlines: false,
            print_black_and_white: false,
            print_draft: false,
            print_headings: false,
            header: String::new(),
            footer: String::new(),
            head_footer_changed: false,
            header_footer_scale_with_doc: true,
            header_footer_align_with_page: true,
            margin_left: 70,
            margin_right: 70,
            margin_top: 75,
            margin_bottom: 75,
            margin_header: 30,
            margin_footer: 30,
            first_page_number: 0,
            default_result: String::from_str("0"),
            use_future_functions: false,
            panes: Panes { freeze_row: 0, freeze_col: 0, top_row: 0, top_col: 0 },
            hyperlinks: KvVec::new(),
            rel_count: 0,
            protection_on: false,
            protection_hash: 0,
            protection_options: ProtectionOptions::new(),
            unprotected_ranges: Vec::new(),
            selected_range: (String::new(), String::new()),
            top_left_cell: String::new(),
            horizontal_breaks: Vec::new(),
            vertical_breaks: Vec::new(),
            filter_conditions: KvVec::new(),
            filter_automatic_off: false,
        };
        r
    }
}

/// A format table with no two structurally equal entries. Kept
/// opaque so that carrying it through contracts stays cheap; proofs
/// that need its body reveal it.
#[verifier::opaque]
pub open spec fn spec_formats_distinct(s: Seq<Format>) -> bool {
    forall|i: int, j: int|
        0 <= i < j < s.len() ==> !spec_format_eq(#[trigger] s[i], #[trigger] s[j])
}

/// The fields the cell write path never touches: everything but the
/// cell store, the row options, the dimensions, the format table and
/// its two flags, and the string-table flag.
pub open spec fn spec_store_frame(pre: Worksheet, post: Worksheet) -> bool {
    &&& post.writer == pre.writer
    &&& post.name == pre.name
    &&& post.active == pre.active
    &&& post.selected == pre.selected
    &&& post.hidden == pre.hidden
    &&& post.first_sheet == pre.first_sheet
    &&& post.print_area_defined_name == pre.print_area_defined_name
    &&& post.repeat_row_cols_defined_name == pre.repeat_row_cols_defined_name
    &&& post.autofilter_defined_name == pre.autofilter_defined_name
    &&& post.autofilter_area == pre.autofilter_area
    &&& post.hyperlink_relationships == pre.hyperlink_relationships
    &&& post.merged_ranges == pre.merged_ranges
    &&& post.global_xf_indices == pre.global_xf_indices
    &&& post.changed_cols == pre.changed_cols
    &&& post.page_setup_changed == pre.page_setup_changed
    &&& post.tab_color == pre.tab_color
    &&& post.fit_to_page == pre.fit_to_page
    &&& post.fit_width == pre.fit_width
    &&& post.fit_height == pre.fit_height
    &&& post.paper_size == pre.paper_size
    &&& post.default_page_order == pre.default_page_order
    &&& post.right_to_left == pre.right_to_left
    &&& post.portrait == pre.portrait
    &&& post.page_view == pre.page_view
    &&& post.zoom == pre.zoom
    &&& post.print_scale == pre.print_scale
    &&& post.print_options_changed == pre.print_options_changed
    &&& post.center_horizontally == pre.center_horizontally
    &&& post.center_vertically == pre.center_vertically
    &&& post.print_gridlines == pre.print_gridlines
    &&& post.print_black_and_white == pre.print_black_and_white
    &&& post.print_draft == pre.print_draft
    &&& post.print_headings == pre.print_headings
    &&& post.header == pre.header
    &&& post.footer == pre.footer
    &&& post.head_footer_changed == pre.head_footer_changed
    &&& post.header_footer_scale_with_doc == pre.header_footer_scale_with_doc
    &&& post.header_footer_align_with_page == pre.header_footer_align_with_page
    &&& post.margin_left == pre.margin_left
    &&& post.margin_right == pre.margin_right
    &&& post.margin_top == pre.margin_top
    &&& post.margin_bottom == pre.margin_bottom
    &&& post.margin_header == pre.margin_header
    &&& post.margin_footer == pre.margin_footer
    &&& post.first_page_number == pre.first_page_number
    &&& post.default_result == pre.default_result
    &&& post.use_future_functions == pre.use_future_functions
    &&& post.panes == pre.panes
    &&& post.hyperlinks == pre.hyperlinks
    &&& post.rel_count == pre.rel_count
    &&& post.protection_on == pre.protection_on
    &&& post.protection_hash == pre.protection_hash
    &&& post.protection_options == pre.protection_options
    &&& post.unprotected_ranges == pre.unprotected_ranges
    &&& post.selected_range == pre.selected_range
    &&& post.top_left_cell == pre.top_left_cell
    &&& post.horizontal_breaks == pre.horizontal_breaks
    &&& post.vertical_breaks == pre.vertical_breaks
    &&& post.filter_conditions == pre.filter_conditions
    &&& post.filter_automatic_off == pre.filter_automatic_off
}

/// `d` grown to cover `(row, col)`.
pub open spec fn spec_expand_dims(d: CellRange, row: u32, col: u16) -> CellRange {
    CellRange {
        first_row: if row < d.first_row {
            row
        } else {
            d.first_row
        },
        first_col: if col < d.first_col {
            col
        } else {
            d.first_col
        },
        last_row: if row > d.last_row {
            row
        } else {
            d.last_row
        },
        last_col: if col > d.last_col {
            col
        } else {
            d.last_col
        },
    }
}

/// Distinct cell references have distinct composite keys.
pub proof fn lemma_key_injective(r1: u32, c1: u16, r2: u32, c2: u16)
    ensures
        (spec_key_u64(r1, c1) == spec_key_u64(r2, c2)) == (r1 == r2 && c1 == c2),
{
    assert((r1 as int * 0x10000 + c1 as int == r2 as int * 0x10000 + c2 as int) == (r1 == r2 && c1
        == c2)) by (nonlinear_arith)
        requires
            c1 < 0x10000,
            c2 < 0x10000,
            r1 >= 0,
            r2 >= 0,
    ;
}

/// The common effect of storing one cell: the target cell holds the
/// new value, every other cell and every row option is untouched, the
/// dimensions grow to cover the target, the format table only grows,
/// and the cell's format index resolves to the given format (or to
/// the default index 0 when none was given).
pub open spec fn spec_stored_cell(
    pre: Worksheet,
    post: Worksheet,
    row: u32,
    col: u16,
    fmt: Option<Format>,
) -> bool {
    &&& post.wf()
    &&& post.spec_cell(row, col) is Some
    &&& post.spec_cell(row, col)->0.spec_xf() < post.xf_formats@.len()
    &&& (fmt matches Some(f) ==> spec_format_eq(
        post.xf_formats@[post.spec_cell(row, col)->0.spec_xf() as int],
        f,
    ))
    &&& (fmt is None ==> post.spec_cell(row, col)->0.spec_xf() == 0 && post.xf_formats
        == pre.xf_formats)
    &&& forall|r2: u32, c2: u16|
        !(r2 == row && c2 == col) ==> (#[trigger] post.spec_cell(r2, c2)) == pre.spec_cell(
            r2,
            c2,
        )
    &&& forall|r2: u32| (#[trigger] post.spec_row_opts(r2)) == pre.spec_row_opts(r2)
    &&& post.dimensions == spec_expand_dims(pre.dimensions, row, col)
    &&& forall|i: int|
        0 <= i < pre.xf_formats@.len() ==> post.xf_formats@[i] == pre.xf_formats@[i]
    &&& post.xf_formats@.len() >= pre.xf_formats@.len()
    &&& spec_store_frame(pre, post)
    &&& post.has_dynamic_arrays == pre.has_dynamic_arrays
}

impl Worksheet {
    /// Check that `(row, col)` is inside Excel's limits without
    /// touching the dimensions.
    fn check_dimensions_only(&self, row: u32, col: u16) -> (ok: bool)
        ensures
            ok == (row < ROW_MAX && col < COL_MAX),
    {
        row < ROW_MAX && col < COL_MAX
    }

    /// Grow the used dimensions to cover `(row, col)`.
    fn expand_dimensions(&mut self, row: u32, col: u16)
        ensures
            final(self).dimensions == spec_expand_dims(old(self).dimensions, row, col),
            final(self).cells == old(self).cells,
            final(self).row_opts == old(self).row_opts,
            final(self).xf_formats == old(self).xf_formats,
            final(self).has_hyperlink_style == old(self).has_hyperlink_style,
            final(self).uses_string_table == old(self).uses_string_table,
            final(self).has_dynamic_arrays == old(self).has_dynamic_arrays,
            spec_store_frame(*old(self), *final(self)),
    {
        let d = self.dimensions;
        self.dimensions = CellRange {
            first_row: if row < d.first_row {
                row
            } else {
                d.first_row
            },
            first_col: if col < d.first_col {
                col
            } else {
                d.first_col
            },
            last_row: if row > d.last_row {
                row
            } else {
                d.last_row
            },
            last_col: if col > d.last_col {
                col
            } else {
                d.last_col
            },
        };
    }

    /// The index of the first stored format equal to `format`.
    fn find_format_index(xf_formats: &Vec<Format>, format: &Format) -> (r: Option<usize>)
        ensures
            r matches Some(i) ==> i < xf_formats@.len() && spec_format_eq(
                xf_formats@[i as int],
                *format,
            ),
            r is None ==> forall|j: int|
                0 <= j < xf_formats@.len() ==> !spec_format_eq(
                    #[trigger] xf_formats@[j],
                    *format,
                ),
    {
        let n = xf_formats.len();
        let mut i: usize = 0;
        while i < n
            invariant
                i <= n,
                n == xf_formats@.len(),
                forall|j: int|
                    0 <= j < i ==> !spec_format_eq(#[trigger] xf_formats@[j], *format),
            decreases n - i,
        {
            if xf_formats[i].eq_fields(format) {
                return Some(i);
            }
            i = i + 1;
        }
        None
    }

}

/// The index of `format` in the table, appending it when unseen. The
/// table stays pairwise distinct, existing entries keep their index,
/// and the hyperlink flag is set when a hyperlink-styled format is
/// appended.
fn format_index_in(
    xf_formats: &mut Vec<Format>,
    has_hyperlink_style: &mut bool,
    format: &Format,
) -> (r: u32)
    requires
        old(xf_formats)@.len() < 0xFFFF_FFFE,
        spec_formats_distinct(old(xf_formats)@),
    ensures
        spec_formats_distinct(final(xf_formats)@),
        r < final(xf_formats)@.len(),
        spec_format_eq(final(xf_formats)@[r as int], *format),
        old(xf_formats)@.len() <= final(xf_formats)@.len() <= old(xf_formats)@.len() + 1,
        forall|i: int|
            0 <= i < old(xf_formats)@.len() ==> final(xf_formats)@[i] == old(xf_formats)@[i],
        *final(has_hyperlink_style) == (*old(has_hyperlink_style) || (final(xf_formats)@.len()
            > old(xf_formats)@.len() && format.font.is_hyperlink)),
{
    match Worksheet::find_format_index(xf_formats, format) {
        Some(i) => i as u32,
        None => {
            let r = xf_formats.len() as u32;
            xf_formats.push(format.duplicate());
            if format.font.is_hyperlink {
                *has_hyperlink_style = true;
            }
            proof {
                reveal(spec_format_eq);
                assert(xf_formats@[r as int] == *format);
                lemma_formats_push_distinct(old(xf_formats)@, xf_formats@, *format);
            }
            r
        },
    }
}

/// A well-formed worksheet has a pairwise-distinct format table of
/// at least one entry.
proof fn lemma_wf_formats_part(ws: Worksheet)
    requires
        ws.wf(),
    ensures
        spec_formats_distinct(ws.xf_formats@),
        1 <= ws.xf_formats@.len(),
{
    reveal(Worksheet::wf);
}

/// A cell-store invariant that held against a format table still
/// holds against a longer one.
proof fn lemma_cells_wf_grow(cells: KvVec<CellType>, n1: int, n2: int)
    requires
        spec_cells_wf(cells, n1),
        n1 <= n2,
    ensures
        spec_cells_wf(cells, n2),
{
    assert forall|i: int| 0 <= i < cells.entries@.len() implies #[trigger] spec_cell_entry_wf(
        cells.entries@[i].0,
        cells.entries@[i].1,
        n2,
    ) by {
        assert(spec_cell_entry_wf(cells.entries@[i].0, cells.entries@[i].1, n1));
    }
}

/// Pushing a format unseen in a pairwise-distinct table keeps the
/// table pairwise distinct.
proof fn lemma_formats_push_distinct(olds: Seq<Format>, news: Seq<Format>, f: Format)
    requires
        news == olds.push(f),
        spec_formats_distinct(olds),
        forall|j: int| 0 <= j < olds.len() ==> !spec_format_eq(#[trigger] olds[j], f),
    ensures
        spec_formats_distinct(news),
{
    reveal(spec_formats_distinct);
    assert forall|i: int, j: int|
        0 <= i < j < news.len() implies !spec_format_eq(
        #[trigger] news[i],
        #[trigger] news[j],
    ) by {
        if j == news.len() - 1 {
            assert(news[i] == olds[i]);
            assert(news[j] == f);
        } else {
            assert(news[i] == olds[i]);
            assert(news[j] == olds[j]);
        }
    }
}

/// Store a cell at `(row, col)` of a cell store, replacing any
/// previous one. Every other key keeps its value.
fn cells_insert(
    cells: &mut KvVec<CellType>,
    row: u32,
    col: u16,
    cell: CellType,
    Ghost(nfmts): Ghost<int>,
)
    requires
        spec_cells_wf(*old(cells), nfmts),
        row < ROW_MAX,
        col < COL_MAX,
        cell.spec_wf(),
        cell.spec_xf() < nfmts,
    ensures
        spec_cells_wf(*final(cells), nfmts),
        seq_get(final(cells).entries@, spec_key_u64(row, col)) == Some(cell),
        forall|k2: u64|
            k2 != spec_key_u64(row, col) ==> seq_get(final(cells).entries@, k2) == seq_get(
                old(cells).entries@,
                k2,
            ),
{
    let k = cell_key(row, col);
    let ghost pre = *cells;
    cells.insert(k, cell);
    proof {
        assert(k == spec_key_u64(row, col));
        assert(spec_cell_entry_wf(k, cell, nfmts)) by {
            assert(k as int % 0x10000 == col as int && k as int / 0x10000 == row as int)
                by (nonlinear_arith)
                requires
                    k == row as int * 0x10000 + col as int,
                    col < 0x10000,
                    row >= 0,
            ;
            assert(k < ROW_MAX as int * 0x10000) by (nonlinear_arith)
                requires
                    k == row as int * 0x10000 + col as int,
                    row < ROW_MAX,
                    col < 0x10000,
            ;
        }
        let pred = |k2: u64, c2: CellType| spec_cell_entry_wf(k2, c2, nfmts);
        assert forall|i: int| 0 <= i < pre.entries@.len() implies #[trigger] pred(
            pre.entries@[i].0,
            pre.entries@[i].1,
        ) by {
            assert(spec_cell_entry_wf(pre.entries@[i].0, pre.entries@[i].1, nfmts));
        }
        assert(pred(k, cell));
        crate::kv::lemma_pred_after_update(pre, *cells, k, pred);
        assert forall|i: int| 0 <= i < cells.entries@.len() implies
            #[trigger] spec_cell_entry_wf(
            cells.entries@[i].0,
            cells.entries@[i].1,
            nfmts,
        ) by {
            assert(pred(cells.entries@[i].0, cells.entries@[i].1));
        }
        assert forall|k2: u64|
            k2 != spec_key_u64(row, col) implies seq_get(cells.entries@, k2) == seq_get(
            pre.entries@,
            k2,
        ) by {
            assert(cells.spec_get(k2) == pre.spec_get(k2));
        }
    }
}

/// When only the cell store changed at one key, the cell lookups of a
/// worksheet change only at that cell, and the row options not at
/// all.
proof fn lemma_store_effect(pre: Worksheet, post: Worksheet, row: u32, col: u16, cell: CellType)
    requires
        post.row_opts == pre.row_opts,
        seq_get(post.cells.entries@, spec_key_u64(row, col)) == Some(cell),
        forall|k2: u64|
            k2 != spec_key_u64(row, col) ==> seq_get(post.cells.entries@, k2) == seq_get(
                pre.cells.entries@,
                k2,
            ),
    ensures
        post.spec_cell(row, col) == Some(cell),
        forall|r2: u32, c2: u16|
            !(r2 == row && c2 == col) ==> (#[trigger] post.spec_cell(r2, c2)) == pre.spec_cell(
                r2,
                c2,
            ),
        forall|r2: u32| (#[trigger] post.spec_row_opts(r2)) == pre.spec_row_opts(r2),
{
    assert forall|r2: u32, c2: u16|
        !(r2 == row && c2 == col) implies (#[trigger] post.spec_cell(r2, c2)) == pre.spec_cell(
        r2,
        c2,
    ) by {
        lemma_key_injective(r2, c2, row, col);
    }
}

/// A well-formed worksheet's cell store satisfies the cell-store
/// invariant against its format table.
proof fn lemma_wf_cells_part(ws: Worksheet)
    requires
        ws.wf(),
    ensures
        spec_cells_wf(ws.cells, ws.xf_formats@.len() as int),
        1 <= ws.xf_formats@.len() < 0xFFFF_FFFF,
{
    reveal(Worksheet::wf);
}

/// Changing only the cell store, the dimensions, the string-table
/// flag and (grown, still distinct) format table preserves the
/// worksheet invariant, given the new cell store satisfies its
/// invariant against the new table.
proof fn lemma_wf_after_store(pre: Worksheet, post: Worksheet)
    requires
        pre.wf(),
        spec_cells_wf(post.cells, post.xf_formats@.len() as int),
        post.row_opts == pre.row_opts,
        post.changed_cols == pre.changed_cols,
        post.filter_conditions == pre.filter_conditions,
        post.hyperlinks == pre.hyperlinks,
        pre.xf_formats@.len() <= post.xf_formats@.len() < 0xFFFF_FFFF,
        spec_formats_distinct(post.xf_formats@),
    ensures
        post.wf(),
{
    reveal(Worksheet::wf);
    let oldn = pre.xf_formats@.len() as int;
    let newn = post.xf_formats@.len() as int;
    assert forall|i: int| 0 <= i < post.row_opts.entries@.len() implies
        #[trigger] spec_row_opt_entry_wf(
        post.row_opts.entries@[i].0,
        post.row_opts.entries@[i].1,
        newn,
    ) by {
        assert(spec_row_opt_entry_wf(
            pre.row_opts.entries@[i].0,
            pre.row_opts.entries@[i].1,
            oldn,
        ));
    }
    assert forall|i: int| 0 <= i < post.changed_cols.entries@.len() implies (
    #[trigger] post.changed_cols.entries@[i]).0 < COL_MAX as u64
        && post.changed_cols.entries@[i].1.xf_index < post.xf_formats@.len() by {
        assert(pre.changed_cols.entries@[i].1.xf_index < oldn);
    }
}

/// In a pairwise-distinct format table, structurally equal formats
/// occupy one index: every reference to a given set of properties
/// resolves to a single `xf` record of the styles table.
pub proof fn lemma_format_indices_unique(formats: Seq<Format>, i: int, j: int)
    requires
        spec_formats_distinct(formats),
        0 <= i < formats.len(),
        0 <= j < formats.len(),
        spec_format_eq(formats[i], formats[j]),
    ensures
        i == j,
{
    reveal(spec_formats_distinct);
    reveal(spec_format_eq);
    if i < j {
        assert(!spec_format_eq(formats[i], formats[j]));
    } else if j < i {
        assert(!spec_format_eq(formats[j], formats[i]));
    }
}

impl Worksheet {
    /// Write an unformatted number to a cell.
    #[verifier::spinoff_prover]
    #[verifier::rlimit(100)]
    pub fn write_number(&mut self, row: RowNum, col: ColNum, number: Num) -> (r: Result<
        (),
        XlsxError,
    >)
        requires
            old(self).wf(),
            number.wf(),
        ensures
            final(self).wf(),
            r is Ok <==> (row < ROW_MAX && col < COL_MAX),
            r matches Err(e) ==> e is RowColumnLimitError && *final(self) == *old(self),
            r is Ok ==> spec_stored_cell(*old(self), *final(self), row, col, None) && (final(self).spec_cell(row, col)->0 matches CellType::Number { number: n2, .. } && n2 == number)
                && final(self).uses_string_table == old(self).uses_string_table,
    {
        if !self.check_dimensions_only(row, col) {
            return Err(XlsxError::RowColumnLimitError);
        }
        proof {
            lemma_wf_cells_part(*old(self));
            lemma_wf_formats_part(*old(self));
        }
        self.expand_dimensions(row, col);
        let cell = CellType::Number { number, xf_index: 0 };
        cells_insert(
            &mut self.cells,
            row,
            col,
            cell,
            Ghost(self.xf_formats@.len() as int),
        );
        proof {
            lemma_wf_after_store(*old(self), *self);
            lemma_store_effect(*old(self), *self, row, col, cell);
        }
        Ok(())
    }

    /// Write a formatted number to a cell.
    #[verifier::spinoff_prover]
    #[verifier::rlimit(100)]
    pub fn write_number_with_format(
        &mut self,
        row: RowNum,
        col: ColNum,
        number: Num,
        format: &Format,
    ) -> (r: Result<(), XlsxError>)
        requires
            old(self).wf(),
            number.wf(),
            old(self).xf_formats@.len() < 0xFFFF_FFFE,
        ensures
            final(self).wf(),
            r is Ok <==> (row < ROW_MAX && col < COL_MAX),
            r matches Err(e) ==> e is RowColumnLimitError && *final(self) == *old(self),
            r is Ok ==> spec_stored_cell(*old(self), *final(self), row, col, Some(*format)) && (
            final(self).spec_cell(row, col)->0 matches CellType::Number { number: n2, .. } && n2
                == number) && final(self).uses_string_table == old(self).uses_string_table,
    {
        if !self.check_dimensions_only(row, col) {
            return Err(XlsxError::RowColumnLimitError);
        }
        proof {
            lemma_wf_cells_part(*old(self));
            lemma_wf_formats_part(*old(self));
        }
        self.expand_dimensions(row, col);
        let xf_index = format_index_in(
            &mut self.xf_formats,
            &mut self.has_hyperlink_style,
            format,
        );
        proof {
            lemma_cells_wf_grow(
                self.cells,
                old(self).xf_formats@.len() as int,
                self.xf_formats@.len() as int,
            );
        }
        let cell = CellType::Number { number, xf_index };
        cells_insert(
            &mut self.cells,
            row,
            col,
            cell,
            Ghost(self.xf_formats@.len() as int),
        );
        proof {
            lemma_wf_after_store(*old(self), *self);
            lemma_store_effect(*old(self), *self, row, col, cell);
        }
        Ok(())
    }
}

} // verus!

