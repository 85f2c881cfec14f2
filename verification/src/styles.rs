//! The `styles.xml` part: number formats, fonts, fills, borders and
//! the `cellXfs` records that cells reference by index.

use crate::formats::{
    spec_border_name, spec_color_attributes, spec_pattern_name, Border, Fill, Font, Format,
    FormatAlign, FormatBorder, FormatDiagonalBorder, FormatPattern, FormatScript, FormatUnderline,
    XlsxColor,
};
use crate::render::dec_u64;
use crate::spec_dec_u64;
use crate::xmlwriter::{
    lemma_append_empty, lemma_push_concat, lemma_shift, push_attr, push_attr_string,
    spec_empty_tag, spec_end_tag, spec_start_tag, spec_xml_declaration, XMLWriter,
};
use vstd::prelude::*;
use vstd::string::*;

verus! {

/// A bare `<tag>`.
pub open spec fn spec_open_tag(tag: Seq<char>) -> Seq<char> {
    "<"@ + tag + ">"@
}

/// A bare `<tag/>`.
pub open spec fn spec_closed_tag(tag: Seq<char>) -> Seq<char> {
    "<"@ + tag + "/>"@
}

/// The `<u>` underline element of a font, when one is set.
pub open spec fn spec_font_underline_xml(u: FormatUnderline) -> Seq<char> {
    if u == FormatUnderline::Double {
        spec_empty_tag("u"@, seq![("val"@, "double"@)])
    } else if u == FormatUnderline::SingleAccounting {
        spec_empty_tag("u"@, seq![("val"@, "singleAccounting"@)])
    } else if u == FormatUnderline::DoubleAccounting {
        spec_empty_tag("u"@, seq![("val"@, "doubleAccounting"@)])
    } else {
        spec_empty_tag("u"@, Seq::empty())
    }
}

/// The `<vertAlign>` element of a super/subscripted font.
pub open spec fn spec_vert_align_xml(s: FormatScript) -> Seq<char> {
    if s == FormatScript::Superscript {
        spec_empty_tag("vertAlign"@, seq![("val"@, "superscript"@)])
    } else if s == FormatScript::Subscript {
        spec_empty_tag("vertAlign"@, seq![("val"@, "subscript"@)])
    } else {
        spec_empty_tag("vertAlign"@, Seq::empty())
    }
}

/// The `<color>` element of a font: omitted for the automatic color,
/// theme 1 for the default color, the color's attributes otherwise.
pub open spec fn spec_font_color_xml(c: XlsxColor) -> Seq<char> {
    if c == XlsxColor::Automatic {
        Seq::empty()
    } else if c == XlsxColor::Default {
        spec_empty_tag("color"@, seq![("theme"@, "1"@)])
    } else {
        spec_empty_tag("color"@, spec_color_attributes(c))
    }
}

/// The `<scheme>` element of a font, omitted when the scheme is empty.
pub open spec fn spec_font_scheme_xml(scheme: Seq<char>) -> Seq<char> {
    if scheme.len() == 0 {
        Seq::empty()
    } else {
        spec_empty_tag("scheme"@, seq![("val"@, scheme)])
    }
}

/// The bold, italic, strikethrough, underline and script flags of a
/// font.
pub open spec fn spec_font_flags_xml(f: Font) -> Seq<char> {
    (if f.bold {
        spec_closed_tag("b"@)
    } else {
        Seq::empty()
    }) + (if f.italic {
        spec_closed_tag("i"@)
    } else {
        Seq::empty()
    }) + (if f.strikethrough {
        spec_closed_tag("strike"@)
    } else {
        Seq::empty()
    }) + (if f.underline != FormatUnderline::NoUnderline {
        spec_font_underline_xml(f.underline)
    } else {
        Seq::empty()
    }) + (if f.script != FormatScript::NoScript {
        spec_vert_align_xml(f.script)
    } else {
        Seq::empty()
    })
}

/// The size, color and name elements of a font.
pub open spec fn spec_font_core_xml(f: Font, is_rich: bool) -> Seq<char> {
    let name_tag: Seq<char> = if is_rich {
        "rFont"@
    } else {
        "name"@
    };
    spec_empty_tag("sz"@, seq![("val"@, f.size@)]) + spec_font_color_xml(f.color) + spec_empty_tag(
        name_tag,
        seq![("val"@, f.name@)],
    )
}

/// The family, charset and scheme elements of a font.
pub open spec fn spec_font_tail_xml(f: Font) -> Seq<char> {
    (if f.family > 0 {
        spec_empty_tag("family"@, seq![("val"@, spec_dec_u64(f.family as nat))])
    } else {
        Seq::empty()
    }) + (if f.charset > 0 {
        spec_empty_tag("charset"@, seq![("val"@, spec_dec_u64(f.charset as nat))])
    } else {
        Seq::empty()
    }) + spec_font_scheme_xml(f.scheme@)
}

/// A whole `<font>` element, or `<rPr>` inside a rich string run.
pub open spec fn spec_font_xml(f: Font, is_rich: bool) -> Seq<char> {
    let tag: Seq<char> = if is_rich {
        "rPr"@
    } else {
        "font"@
    };
    spec_open_tag(tag) + spec_font_flags_xml(f) + spec_font_core_xml(f, is_rich)
        + spec_font_tail_xml(f) + spec_end_tag(tag)
}

/// A default `<fill>` element holding only a pattern name.
pub open spec fn spec_default_fill_xml(pattern: Seq<char>) -> Seq<char> {
    spec_open_tag("fill"@) + spec_empty_tag("patternFill"@, seq![("patternType"@, pattern)])
        + spec_end_tag("fill"@)
}

/// A user `<fill>` element. A patterned fill whose colors are both
/// default or automatic degrades to the single-attribute form.
pub open spec fn spec_fill_xml(fill: Fill) -> Seq<char> {
    if fill.pattern != FormatPattern::NoPattern && (fill.background_color == XlsxColor::Default
        || fill.background_color == XlsxColor::Automatic) && (fill.foreground_color
        == XlsxColor::Default || fill.foreground_color == XlsxColor::Automatic) {
        spec_default_fill_xml(spec_pattern_name(fill.pattern))
    } else {
        spec_open_tag("fill"@) + spec_start_tag(
            "patternFill"@,
            seq![("patternType"@, spec_pattern_name(fill.pattern))],
        ) + (if fill.foreground_color != XlsxColor::Default && fill.foreground_color
            != XlsxColor::Automatic {
            spec_empty_tag("fgColor"@, spec_color_attributes(fill.foreground_color))
        } else {
            Seq::empty()
        }) + (if fill.background_color == XlsxColor::Default || fill.background_color
            == XlsxColor::Automatic {
            spec_empty_tag("bgColor"@, seq![("indexed"@, "64"@)])
        } else {
            spec_empty_tag("bgColor"@, spec_color_attributes(fill.background_color))
        }) + spec_end_tag("patternFill"@) + spec_end_tag("fill"@)
    }
}

/// One border edge element: self-closing when no style is set, else
/// the style attribute and a color element (`auto="1"` by default).
pub open spec fn spec_sub_border_xml(
    tag: Seq<char>,
    style: FormatBorder,
    color: XlsxColor,
) -> Seq<char> {
    if style == FormatBorder::NoBorder {
        spec_closed_tag(tag)
    } else {
        spec_start_tag(tag, seq![("style"@, spec_border_name(style))]) + (if color
            != XlsxColor::Default && color != XlsxColor::Automatic {
            spec_empty_tag("color"@, spec_color_attributes(color))
        } else {
            spec_empty_tag("color"@, seq![("auto"@, "1"@)])
        }) + spec_end_tag(tag)
    }
}

/// A whole `<border>` element with its five edges.
pub open spec fn spec_border_xml(b: Border) -> Seq<char> {
    (if b.diagonal_type == FormatDiagonalBorder::NoDiagonal {
        spec_open_tag("border"@)
    } else if b.diagonal_type == FormatDiagonalBorder::BorderUp {
        spec_start_tag("border"@, seq![("diagonalUp"@, "1"@)])
    } else if b.diagonal_type == FormatDiagonalBorder::BorderDown {
        spec_start_tag("border"@, seq![("diagonalDown"@, "1"@)])
    } else {
        spec_start_tag("border"@, seq![("diagonalUp"@, "1"@), ("diagonalDown"@, "1"@)])
    }) + spec_sub_border_xml("left"@, b.left_style, b.left_color) + spec_sub_border_xml(
        "right"@,
        b.right_style,
        b.right_color,
    ) + spec_sub_border_xml("top"@, b.top_style, b.top_color) + spec_sub_border_xml(
        "bottom"@,
        b.bottom_style,
        b.bottom_color,
    ) + spec_sub_border_xml("diagonal"@, b.diagonal_style, b.diagonal_color) + spec_end_tag(
        "border"@,
    )
}

/// The effective horizontal alignment of an `<alignment>` element:
/// an indent forces left alignment unless left, right or distributed
/// was chosen.
pub open spec fn spec_effective_horizontal(a: crate::formats::Alignment) -> FormatAlign {
    if a.indent > 0 && a.horizontal != FormatAlign::Left && a.horizontal != FormatAlign::Right
        && a.horizontal != FormatAlign::Distributed {
        FormatAlign::Left
    } else {
        a.horizontal
    }
}

/// The effective shrink flag: wrapping and the fill, justify and
/// distributed alignments switch shrinking off.
pub open spec fn spec_effective_shrink(a: crate::formats::Alignment) -> bool {
    if a.text_wrap || spec_effective_horizontal(a) == FormatAlign::Fill
        || spec_effective_horizontal(a) == FormatAlign::Justify || spec_effective_horizontal(a)
        == FormatAlign::Distributed {
        false
    } else {
        a.shrink
    }
}

/// The attribute name of a horizontal alignment, empty when none is
/// written.
pub open spec fn spec_horizontal_name(h: FormatAlign) -> Seq<char> {
    if h == FormatAlign::Center {
        "center"@
    } else if h == FormatAlign::CenterAcross {
        "centerContinuous"@
    } else if h == FormatAlign::Distributed {
        "distributed"@
    } else if h == FormatAlign::Fill {
        "fill"@
    } else if h == FormatAlign::Justify {
        "justify"@
    } else if h == FormatAlign::Left {
        "left"@
    } else if h == FormatAlign::Right {
        "right"@
    } else {
        Seq::empty()
    }
}

/// The attribute name of a vertical alignment, empty when none is
/// written.
pub open spec fn spec_vertical_name(v: FormatAlign) -> Seq<char> {
    if v == FormatAlign::VerticalCenter {
        "center"@
    } else if v == FormatAlign::VerticalDistributed {
        "distributed"@
    } else if v == FormatAlign::VerticalJustify {
        "justify"@
    } else if v == FormatAlign::Top {
        "top"@
    } else {
        Seq::empty()
    }
}

/// Whether a horizontal alignment writes an attribute.
pub open spec fn spec_has_horizontal(h: FormatAlign) -> bool {
    h == FormatAlign::Center || h == FormatAlign::CenterAcross || h == FormatAlign::Distributed
        || h == FormatAlign::Fill || h == FormatAlign::Justify || h == FormatAlign::Left || h
        == FormatAlign::Right
}

/// Whether a vertical alignment writes an attribute.
pub open spec fn spec_has_vertical(v: FormatAlign) -> bool {
    v == FormatAlign::VerticalCenter || v == FormatAlign::VerticalDistributed || v
        == FormatAlign::VerticalJustify || v == FormatAlign::Top
}

/// The attributes of an `<alignment>` element.
pub open spec fn spec_alignment_attrs(a: crate::formats::Alignment) -> Seq<
    (Seq<char>, Seq<char>),
> {
    let h = spec_effective_horizontal(a);
    let shrink = spec_effective_shrink(a);
    (if spec_has_horizontal(h) {
        seq![("horizontal"@, spec_horizontal_name(h))]
    } else {
        Seq::empty()
    }) + (if spec_has_vertical(a.vertical) {
        seq![("vertical"@, spec_vertical_name(a.vertical))]
    } else {
        Seq::empty()
    }) + (if a.indent != 0 {
        seq![("indent"@, spec_dec_u64(a.indent as nat))]
    } else {
        Seq::empty()
    }) + (if a.rotation != 0 {
        seq![("textRotation"@, spec_dec_i64(a.rotation as int))]
    } else {
        Seq::empty()
    }) + (if a.text_wrap {
        seq![("wrapText"@, "1"@)]
    } else {
        Seq::empty()
    }) + (if shrink {
        seq![("shrinkToFit"@, "1"@)]
    } else {
        Seq::empty()
    }) + (if 0 < a.reading_direction <= 2 {
        seq![("readingOrder"@, spec_dec_u64(a.reading_direction as nat))]
    } else {
        Seq::empty()
    })
}

/// The `<alignment>` element of a format.
pub open spec fn spec_alignment_xml(a: crate::formats::Alignment) -> Seq<char> {
    spec_empty_tag("alignment"@, spec_alignment_attrs(a))
}

/// A signed decimal rendering.
pub open spec fn spec_dec_i64(v: int) -> Seq<char> {
    if v < 0 {
        "-"@ + spec_dec_u64((-v) as nat)
    } else {
        spec_dec_u64(v as nat)
    }
}

/// Render a signed value in decimal.
pub fn dec_i64(v: i64) -> (r: String)
    requires
        v > i64::MIN,
    ensures
        r@ == spec_dec_i64(v as int),
{
    if v < 0 {
        let mut s = String::from_str("-");
        let mag = dec_u64((-v) as u64);
        s.append(mag.as_str());
        proof {
            assert(s@ =~= spec_dec_i64(v as int));
        }
        s
    } else {
        dec_u64(v as u64)
    }
}

/// The `<protection>` element of a format.
pub open spec fn spec_protection_xml(f: Format) -> Seq<char> {
    spec_empty_tag(
        "protection"@,
        (if !f.locked {
            seq![("locked"@, "0"@)]
        } else {
            Seq::empty()
        }) + (if f.hidden {
            seq![("hidden"@, "1"@)]
        } else {
            Seq::empty()
        }),
    )
}

/// The attributes of a cell `<xf>` record.
pub open spec fn spec_cell_xf_attrs(f: Format) -> Seq<(Seq<char>, Seq<char>)> {
    let is_hyperlink = f.font.is_hyperlink;
    seq![
        ("numFmtId"@, spec_dec_u64(f.num_format_index as nat)),
        ("fontId"@, spec_dec_u64(f.font_index as nat)),
        ("fillId"@, spec_dec_u64(f.fill_index as nat)),
        ("borderId"@, spec_dec_u64(f.border_index as nat)),
        ("xfId"@, if is_hyperlink { "1"@ } else { "0"@ }),
    ] + (if f.quote_prefix {
        seq![("quotePrefix"@, "1"@)]
    } else {
        Seq::empty()
    }) + (if f.num_format_index > 0 {
        seq![("applyNumberFormat"@, "1"@)]
    } else {
        Seq::empty()
    }) + (if f.font_index > 0 && !is_hyperlink {
        seq![("applyFont"@, "1"@)]
    } else {
        Seq::empty()
    }) + (if f.fill_index > 0 {
        seq![("applyFill"@, "1"@)]
    } else {
        Seq::empty()
    }) + (if f.border_index > 0 {
        seq![("applyBorder"@, "1"@)]
    } else {
        Seq::empty()
    }) + (if f.spec_apply_alignment() || is_hyperlink {
        seq![("applyAlignment"@, "1"@)]
    } else {
        Seq::empty()
    }) + (if f.spec_has_protection() || is_hyperlink {
        seq![("applyProtection"@, "1"@)]
    } else {
        Seq::empty()
    })
}

/// A cell `<xf>` record: self-closing unless it carries an alignment
/// or protection child.
pub open spec fn spec_cell_xf_xml(f: Format) -> Seq<char> {
    if f.spec_has_alignment() || f.spec_has_protection() {
        spec_start_tag("xf"@, spec_cell_xf_attrs(f)) + (if f.spec_has_alignment() {
            spec_alignment_xml(f.alignment)
        } else {
            Seq::empty()
        }) + (if f.spec_has_protection() {
            spec_protection_xml(f)
        } else {
            Seq::empty()
        }) + spec_end_tag("xf"@)
    } else {
        spec_empty_tag("xf"@, spec_cell_xf_attrs(f))
    }
}

/// The `<numFmt>` elements of the custom number formats, numbered
/// from 164.
pub open spec fn spec_num_fmt_items(num_formats: Seq<Seq<char>>) -> Seq<char>
    decreases num_formats.len(),
{
    if num_formats.len() == 0 {
        Seq::empty()
    } else {
        spec_num_fmt_items(num_formats.drop_last()) + spec_empty_tag(
            "numFmt"@,
            seq![
                ("numFmtId"@, spec_dec_u64((163 + num_formats.len()) as nat)),
                ("formatCode"@, num_formats.last()),
            ],
        )
    }
}

/// The `numFmts` section, omitted when no custom format exists.
pub open spec fn spec_num_fmts_xml(num_formats: Seq<Seq<char>>) -> Seq<char> {
    if num_formats.len() == 0 {
        Seq::empty()
    } else {
        spec_start_tag("numFmts"@, seq![("count"@, spec_dec_u64(num_formats.len()))])
            + spec_num_fmt_items(num_formats) + spec_end_tag("numFmts"@)
    }
}

/// The `<font>` elements of the formats that own a font.
pub open spec fn spec_fonts_items(formats: Seq<Format>, is_rich: bool) -> Seq<char>
    decreases formats.len(),
{
    if formats.len() == 0 {
        Seq::empty()
    } else {
        spec_fonts_items(formats.drop_last(), is_rich) + (if formats.last().has_font {
            spec_font_xml(formats.last().font, is_rich)
        } else {
            Seq::empty()
        })
    }
}

/// The `<fill>` elements of the formats that own a fill.
pub open spec fn spec_fills_items(formats: Seq<Format>) -> Seq<char>
    decreases formats.len(),
{
    if formats.len() == 0 {
        Seq::empty()
    } else {
        spec_fills_items(formats.drop_last()) + (if formats.last().has_fill {
            spec_fill_xml(formats.last().fill)
        } else {
            Seq::empty()
        })
    }
}

/// The `<border>` elements of the formats that own a border.
pub open spec fn spec_borders_items(formats: Seq<Format>) -> Seq<char>
    decreases formats.len(),
{
    if formats.len() == 0 {
        Seq::empty()
    } else {
        spec_borders_items(formats.drop_last()) + (if formats.last().has_border {
            spec_border_xml(formats.last().borders)
        } else {
            Seq::empty()
        })
    }
}

/// The `<xf>` records of all formats, in index order.
pub open spec fn spec_cell_xfs_items(formats: Seq<Format>) -> Seq<char>
    decreases formats.len(),
{
    if formats.len() == 0 {
        Seq::empty()
    } else {
        spec_cell_xfs_items(formats.drop_last()) + spec_cell_xf_xml(formats.last())
    }
}

/// The `cellStyleXfs` section: the Normal entry, and a Hyperlink
/// entry when any hyperlink format is in use.
pub open spec fn spec_cell_style_xfs_xml(has_hyperlink_style: bool) -> Seq<char> {
    spec_start_tag(
        "cellStyleXfs"@,
        seq![("count"@, if has_hyperlink_style { "2"@ } else { "1"@ })],
    ) + spec_empty_tag(
        "xf"@,
        seq![("numFmtId"@, "0"@), ("fontId"@, "0"@), ("fillId"@, "0"@), ("borderId"@, "0"@)],
    ) + (if has_hyperlink_style {
        spec_start_tag(
            "xf"@,
            seq![
                ("numFmtId"@, "0"@),
                ("fontId"@, "1"@),
                ("fillId"@, "0"@),
                ("borderId"@, "0"@),
                ("applyNumberFormat"@, "0"@),
                ("applyFill"@, "0"@),
                ("applyBorder"@, "0"@),
                ("applyAlignment"@, "0"@),
                ("applyProtection"@, "0"@),
            ],
        ) + spec_empty_tag("alignment"@, seq![("vertical"@, "top"@)]) + spec_empty_tag(
            "protection"@,
            seq![("locked"@, "0"@)],
        ) + spec_end_tag("xf"@)
    } else {
        Seq::empty()
    }) + spec_end_tag("cellStyleXfs"@)
}

/// The `cellStyles` section: Hyperlink first when in use, then Normal.
pub open spec fn spec_cell_styles_xml(has_hyperlink_style: bool) -> Seq<char> {
    spec_start_tag(
        "cellStyles"@,
        seq![("count"@, if has_hyperlink_style { "2"@ } else { "1"@ })],
    ) + (if has_hyperlink_style {
        spec_empty_tag(
            "cellStyle"@,
            seq![("name"@, "Hyperlink"@), ("xfId"@, "1"@), ("builtinId"@, "8"@)],
        )
    } else {
        Seq::empty()
    }) + spec_empty_tag(
        "cellStyle"@,
        seq![("name"@, "Normal"@), ("xfId"@, "0"@), ("builtinId"@, "0"@)],
    ) + spec_end_tag("cellStyles"@)
}

/// The `fonts` section.
pub open spec fn spec_fonts_section(formats: Seq<Format>, font_count: u16, is_rich: bool) -> Seq<
    char,
> {
    spec_start_tag("fonts"@, seq![("count"@, spec_dec_u64(font_count as nat))])
        + spec_fonts_items(formats, is_rich) + spec_end_tag("fonts"@)
}

/// The `fills` section: the two default fills, then the used ones.
pub open spec fn spec_fills_section(formats: Seq<Format>, fill_count: u16) -> Seq<char> {
    spec_start_tag("fills"@, seq![("count"@, spec_dec_u64(fill_count as nat))])
        + spec_default_fill_xml("none"@) + spec_default_fill_xml("gray125"@) + spec_fills_items(
        formats,
    ) + spec_end_tag("fills"@)
}

/// The `borders` section.
pub open spec fn spec_borders_section(formats: Seq<Format>, border_count: u16) -> Seq<char> {
    spec_start_tag("borders"@, seq![("count"@, spec_dec_u64(border_count as nat))])
        + spec_borders_items(formats) + spec_end_tag("borders"@)
}

/// The `cellXfs` section: one `<xf>` per unique format.
pub open spec fn spec_cell_xfs_section(formats: Seq<Format>) -> Seq<char> {
    spec_start_tag("cellXfs"@, seq![("count"@, spec_dec_u64(formats.len()))])
        + spec_cell_xfs_items(formats) + spec_end_tag("cellXfs"@)
}

/// The `dxfs` placeholder section.
pub open spec fn spec_dxfs_xml() -> Seq<char> {
    spec_empty_tag("dxfs"@, seq![("count"@, "0"@)])
}

/// The `tableStyles` placeholder section.
pub open spec fn spec_table_styles_xml() -> Seq<char> {
    spec_empty_tag(
        "tableStyles"@,
        seq![
            ("count"@, "0"@),
            ("defaultTableStyle"@, "TableStyleMedium9"@),
            ("defaultPivotStyle"@, "PivotStyleLight16"@),
        ],
    )
}

/// The whole `styles.xml` text.
pub open spec fn spec_styles_xml(
    formats: Seq<Format>,
    font_count: u16,
    fill_count: u16,
    border_count: u16,
    num_formats: Seq<Seq<char>>,
    has_hyperlink_style: bool,
    is_rich: bool,
) -> Seq<char> {
    spec_xml_declaration() + spec_start_tag(
        "styleSheet"@,
        seq![("xmlns"@, "http://schemas.openxmlformats.org/spreadsheetml/2006/main"@)],
    ) + spec_num_fmts_xml(num_formats) + spec_fonts_section(formats, font_count, is_rich)
        + spec_fills_section(formats, fill_count) + spec_borders_section(formats, border_count)
        + spec_cell_style_xfs_xml(has_hyperlink_style) + spec_cell_xfs_section(formats)
        + spec_cell_styles_xml(has_hyperlink_style) + spec_dxfs_xml() + spec_table_styles_xml()
        + spec_end_tag("styleSheet"@)
}

/// The writer of the `styles.xml` part.
pub struct Styles<'a> {
    /// The XML output buffer.
    pub writer: XMLWriter,
    /// The deduplicated formats, in `xf` index order.
    pub xf_formats: &'a Vec<Format>,
    /// The number of unique fonts.
    pub font_count: u16,
    /// The number of fills, the two defaults included.
    pub fill_count: u16,
    /// The number of unique borders.
    pub border_count: u16,
    /// The custom number format strings, numbered from 164.
    pub num_formats: Vec<String>,
    /// Whether a hyperlink style entry is needed.
    pub has_hyperlink_style: bool,
    /// Whether fonts are written as rich string `<rPr>` runs.
    pub is_rich_string_style: bool,
}

impl<'a> Styles<'a> {
    /// A styles writer over a format table.
    pub fn new(
        xf_formats: &'a Vec<Format>,
        font_count: u16,
        fill_count: u16,
        border_count: u16,
        num_formats: Vec<String>,
        has_hyperlink_style: bool,
        is_rich_string_style: bool,
    ) -> (r: Styles<'a>)
        ensures
            r.writer@ == Seq::<char>::empty(),
            r.xf_formats == xf_formats,
            r.font_count == font_count,
            r.fill_count == fill_count,
            r.border_count == border_count,
            r.num_formats == num_formats,
            r.has_hyperlink_style == has_hyperlink_style,
            r.is_rich_string_style == is_rich_string_style,
    {
        Styles {
            writer: XMLWriter::new(),
            xf_formats,
            font_count,
            fill_count,
            border_count,
            num_formats,
            has_hyperlink_style,
            is_rich_string_style,
        }
    }

    /// Write a `<font>` (or `<rPr>`) element for a font.
    #[verifier::spinoff_prover]
    #[verifier::rlimit(100)]
    pub fn write_font(&mut self, font: &Font)
        ensures
            *final(self) == (Styles { writer: final(self).writer, ..*old(self) }),
            final(self).writer@ == old(self).writer@ + spec_font_xml(
                *font,
                old(self).is_rich_string_style,
            ),
    {
        if self.is_rich_string_style {
            self.writer.xml_start_tag_only("rPr");
        } else {
            self.writer.xml_start_tag_only("font");
        }
        write_font_flags(&mut self.writer, font);
        write_font_core(&mut self.writer, font, self.is_rich_string_style);
        write_font_tail(&mut self.writer, font);
        if self.is_rich_string_style {
            self.writer.xml_end_tag("rPr");
        } else {
            self.writer.xml_end_tag("font");
        }
        proof {
            let w0 = old(self).writer@;
            let tag: Seq<char> = if old(self).is_rich_string_style {
                "rPr"@
            } else {
                "font"@
            };
            let pa = spec_open_tag(tag);
            let pb = spec_font_flags_xml(*font);
            let pc = spec_font_core_xml(*font, old(self).is_rich_string_style);
            let pd = spec_font_tail_xml(*font);
            let pe = spec_end_tag(tag);
            lemma_shift(w0, pa, pb);
            lemma_shift(w0, pa + pb, pc);
            lemma_shift(w0, pa + pb + pc, pd);
            lemma_shift(w0, pa + pb + pc + pd, pe);
            assert(self.writer@ == w0 + spec_font_xml(*font, old(self).is_rich_string_style));
        }
    }
}

/// Write the flag elements of a font.
#[verifier::spinoff_prover]
#[verifier::rlimit(100)]
fn write_font_flags(writer: &mut XMLWriter, font: &Font)
    ensures
        final(writer)@ == old(writer)@ + spec_font_flags_xml(*font),
{
    let ghost w0 = writer@;
    let ghost pa: Seq<char> = if font.bold {
        spec_closed_tag("b"@)
    } else {
        Seq::empty()
    };
    let ghost pb: Seq<char> = if font.italic {
        spec_closed_tag("i"@)
    } else {
        Seq::empty()
    };
    let ghost pc: Seq<char> = if font.strikethrough {
        spec_closed_tag("strike"@)
    } else {
        Seq::empty()
    };
    let ghost pd: Seq<char> = if font.underline != FormatUnderline::NoUnderline {
        spec_font_underline_xml(font.underline)
    } else {
        Seq::empty()
    };
    let ghost pe: Seq<char> = if font.script != FormatScript::NoScript {
        spec_vert_align_xml(font.script)
    } else {
        Seq::empty()
    };
    if font.bold {
        writer.xml_empty_tag_only("b");
    }
    proof {
        if !font.bold {
            lemma_append_empty(w0);
        }
        assert(writer@ == w0 + pa);
    }
    if font.italic {
        writer.xml_empty_tag_only("i");
    }
    proof {
        if !font.italic {
            lemma_append_empty(w0 + pa);
        }
        assert(writer@ == w0 + pa + pb);
    }
    if font.strikethrough {
        writer.xml_empty_tag_only("strike");
    }
    proof {
        if !font.strikethrough {
            lemma_append_empty(w0 + pa + pb);
        }
        assert(writer@ == w0 + pa + pb + pc);
    }
    if !matches!(font.underline, FormatUnderline::NoUnderline) {
        let mut attrs: Vec<(String, String)> = Vec::new();
        match font.underline {
            FormatUnderline::Double => {
                push_attr(&mut attrs, "val", "double");
            },
            FormatUnderline::SingleAccounting => {
                push_attr(&mut attrs, "val", "singleAccounting");
            },
            FormatUnderline::DoubleAccounting => {
                push_attr(&mut attrs, "val", "doubleAccounting");
            },
            _ => {},
        }
        proof {
            assert(attrs.deep_view() =~= (if font.underline == FormatUnderline::Double {
                seq![("val"@, "double"@)]
            } else if font.underline == FormatUnderline::SingleAccounting {
                seq![("val"@, "singleAccounting"@)]
            } else if font.underline == FormatUnderline::DoubleAccounting {
                seq![("val"@, "doubleAccounting"@)]
            } else {
                Seq::empty()
            }));
        }
        writer.xml_empty_tag("u", &attrs);
    }
    proof {
        if font.underline == FormatUnderline::NoUnderline {
            lemma_append_empty(w0 + pa + pb + pc);
        }
        assert(writer@ == w0 + pa + pb + pc + pd);
    }
    if !matches!(font.script, FormatScript::NoScript) {
        let mut attrs: Vec<(String, String)> = Vec::new();
        match font.script {
            FormatScript::Superscript => {
                push_attr(&mut attrs, "val", "superscript");
            },
            FormatScript::Subscript => {
                push_attr(&mut attrs, "val", "subscript");
            },
            _ => {},
        }
        proof {
            assert(attrs.deep_view() =~= (if font.script == FormatScript::Superscript {
                seq![("val"@, "superscript"@)]
            } else if font.script == FormatScript::Subscript {
                seq![("val"@, "subscript"@)]
            } else {
                Seq::empty()
            }));
        }
        writer.xml_empty_tag("vertAlign", &attrs);
    }
    proof {
        if font.script == FormatScript::NoScript {
            lemma_append_empty(w0 + pa + pb + pc + pd);
        }
        assert(writer@ == w0 + pa + pb + pc + pd + pe);
        lemma_shift(w0, pa, pb);
        lemma_shift(w0, pa + pb, pc);
        lemma_shift(w0, pa + pb + pc, pd);
        lemma_shift(w0, pa + pb + pc + pd, pe);
        assert(writer@ == w0 + spec_font_flags_xml(*font));
    }
}

/// Write the size, color and name elements of a font.
fn write_font_core(writer: &mut XMLWriter, font: &Font, is_rich: bool)
    ensures
        final(writer)@ == old(writer)@ + spec_font_core_xml(*font, is_rich),
{
    let mut sz_attrs: Vec<(String, String)> = Vec::new();
    push_attr_string(&mut sz_attrs, "val", font.size.clone());
    proof {
        assert(sz_attrs.deep_view() =~= seq![("val"@, font.size@)]);
    }
    writer.xml_empty_tag("sz", &sz_attrs);
    if matches!(font.color, XlsxColor::Automatic) {
        // the color element is omitted for the automatic color
    } else if matches!(font.color, XlsxColor::Default) {
        let mut attrs: Vec<(String, String)> = Vec::new();
        push_attr(&mut attrs, "theme", "1");
        proof {
            assert(attrs.deep_view() =~= seq![("theme"@, "1"@)]);
        }
        writer.xml_empty_tag("color", &attrs);
    } else {
        let attrs = font.color.attributes();
        writer.xml_empty_tag("color", &attrs);
    }
    let mut name_attrs: Vec<(String, String)> = Vec::new();
    push_attr_string(&mut name_attrs, "val", font.name.clone());
    proof {
        assert(name_attrs.deep_view() =~= seq![("val"@, font.name@)]);
    }
    if is_rich {
        writer.xml_empty_tag("rFont", &name_attrs);
    } else {
        writer.xml_empty_tag("name", &name_attrs);
    }
    proof {
        let w0 = old(writer)@;
        let pa = spec_empty_tag("sz"@, seq![("val"@, font.size@)]);
        let pb = spec_font_color_xml(font.color);
        lemma_shift(w0, pa, pb);
        lemma_shift(w0, pa + pb, spec_empty_tag(
            if is_rich { "rFont"@ } else { "name"@ },
            seq![("val"@, font.name@)],
        ));
        if font.color == XlsxColor::Automatic {
            lemma_append_empty(w0 + pa);
        }
        assert(writer@ == w0 + spec_font_core_xml(*font, is_rich));
    }
}

/// Write the family, charset and scheme elements of a font.
fn write_font_tail(writer: &mut XMLWriter, font: &Font)
    ensures
        final(writer)@ == old(writer)@ + spec_font_tail_xml(*font),
{
    if font.family > 0 {
        let mut attrs: Vec<(String, String)> = Vec::new();
        push_attr_string(&mut attrs, "val", dec_u64(font.family as u64));
        proof {
            assert(attrs.deep_view() =~= seq![("val"@, spec_dec_u64(font.family as nat))]);
        }
        writer.xml_empty_tag("family", &attrs);
    }
    if font.charset > 0 {
        let mut attrs: Vec<(String, String)> = Vec::new();
        push_attr_string(&mut attrs, "val", dec_u64(font.charset as u64));
        proof {
            assert(attrs.deep_view() =~= seq![("val"@, spec_dec_u64(font.charset as nat))]);
        }
        writer.xml_empty_tag("charset", &attrs);
    }
    if font.scheme.as_str().unicode_len() > 0 {
        let mut attrs: Vec<(String, String)> = Vec::new();
        push_attr_string(&mut attrs, "val", font.scheme.clone());
        proof {
            assert(attrs.deep_view() =~= seq![("val"@, font.scheme@)]);
        }
        writer.xml_empty_tag("scheme", &attrs);
    }
    proof {
        let w0 = old(writer)@;
        let pa: Seq<char> = if font.family > 0 {
            spec_empty_tag("family"@, seq![("val"@, spec_dec_u64(font.family as nat))])
        } else {
            Seq::empty()
        };
        let pb: Seq<char> = if font.charset > 0 {
            spec_empty_tag("charset"@, seq![("val"@, spec_dec_u64(font.charset as nat))])
        } else {
            Seq::empty()
        };
        let pc = spec_font_scheme_xml(font.scheme@);
        if font.family == 0 {
            lemma_append_empty(w0);
        }
        if font.charset == 0 {
            lemma_append_empty(w0 + pa);
        }
        if font.scheme@.len() == 0 {
            lemma_append_empty(w0 + pa + pb);
        }
        lemma_shift(w0, pa, pb);
        lemma_shift(w0, pa + pb, pc);
        assert(writer@ == w0 + spec_font_tail_xml(*font));
    }
}

/// Write a default `<fill>` element holding only a pattern name.
fn write_default_fill(writer: &mut XMLWriter, pattern: &str)
    ensures
        final(writer)@ == old(writer)@ + spec_default_fill_xml(pattern@),
{
    writer.xml_start_tag_only("fill");
    let mut attrs: Vec<(String, String)> = Vec::new();
    push_attr(&mut attrs, "patternType", pattern);
    proof {
        assert(attrs.deep_view() =~= seq![("patternType"@, pattern@)]);
    }
    writer.xml_empty_tag("patternFill", &attrs);
    writer.xml_end_tag("fill");
    proof {
        let w0 = old(writer)@;
        lemma_shift(w0, spec_open_tag("fill"@), spec_empty_tag(
            "patternFill"@,
            seq![("patternType"@, pattern@)],
        ));
        lemma_shift(w0, spec_open_tag("fill"@) + spec_empty_tag(
            "patternFill"@,
            seq![("patternType"@, pattern@)],
        ), spec_end_tag("fill"@));
        assert(writer@ == w0 + spec_default_fill_xml(pattern@));
    }
}

/// Write a user `<fill>` element.
#[verifier::spinoff_prover]
#[verifier::rlimit(100)]
fn write_fill(writer: &mut XMLWriter, fill: &Fill)
    ensures
        final(writer)@ == old(writer)@ + spec_fill_xml(*fill),
{
    if !matches!(fill.pattern, FormatPattern::NoPattern) && fill.background_color.is_auto_or_default()
        && fill.foreground_color.is_auto_or_default() {
        write_default_fill(writer, fill.pattern.xml_name());
        return ;
    }
    let ghost w0 = writer@;
    writer.xml_start_tag_only("fill");
    let mut attrs: Vec<(String, String)> = Vec::new();
    push_attr(&mut attrs, "patternType", fill.pattern.xml_name());
    proof {
        assert(attrs.deep_view() =~= seq![("patternType"@, spec_pattern_name(fill.pattern))]);
    }
    writer.xml_start_tag("patternFill", &attrs);
    let ghost pa = spec_open_tag("fill"@);
    let ghost pb = spec_start_tag(
        "patternFill"@,
        seq![("patternType"@, spec_pattern_name(fill.pattern))],
    );
    let ghost pc: Seq<char> = if fill.foreground_color != XlsxColor::Default
        && fill.foreground_color != XlsxColor::Automatic {
        spec_empty_tag("fgColor"@, spec_color_attributes(fill.foreground_color))
    } else {
        Seq::empty()
    };
    if !fill.foreground_color.is_auto_or_default() {
        let fg = fill.foreground_color.attributes();
        writer.xml_empty_tag("fgColor", &fg);
    }
    proof {
        if fill.foreground_color == XlsxColor::Default || fill.foreground_color
            == XlsxColor::Automatic {
            lemma_append_empty(w0 + pa + pb);
        }
        assert(writer@ == w0 + pa + pb + pc);
    }
    if fill.background_color.is_auto_or_default() {
        let mut bg_attrs: Vec<(String, String)> = Vec::new();
        push_attr(&mut bg_attrs, "indexed", "64");
        proof {
            assert(bg_attrs.deep_view() =~= seq![("indexed"@, "64"@)]);
        }
        writer.xml_empty_tag("bgColor", &bg_attrs);
    } else {
        let bg = fill.background_color.attributes();
        writer.xml_empty_tag("bgColor", &bg);
    }
    let ghost pd: Seq<char> = if fill.background_color == XlsxColor::Default
        || fill.background_color == XlsxColor::Automatic {
        spec_empty_tag("bgColor"@, seq![("indexed"@, "64"@)])
    } else {
        spec_empty_tag("bgColor"@, spec_color_attributes(fill.background_color))
    };
    writer.xml_end_tag("patternFill");
    writer.xml_end_tag("fill");
    proof {
        lemma_shift(w0, pa, pb);
        lemma_shift(w0, pa + pb, pc);
        lemma_shift(w0, pa + pb + pc, pd);
        lemma_shift(w0, pa + pb + pc + pd, spec_end_tag("patternFill"@));
        lemma_shift(w0, pa + pb + pc + pd + spec_end_tag("patternFill"@), spec_end_tag("fill"@));
        assert(writer@ == w0 + spec_fill_xml(*fill));
    }
}

/// Write one border edge element.
#[verifier::spinoff_prover]
fn write_sub_border(writer: &mut XMLWriter, tag: &str, style: FormatBorder, color: XlsxColor)
    ensures
        final(writer)@ == old(writer)@ + spec_sub_border_xml(tag@, style, color),
{
    if matches!(style, FormatBorder::NoBorder) {
        writer.xml_empty_tag_only(tag);
        return ;
    }
    let ghost w0 = writer@;
    let mut attrs: Vec<(String, String)> = Vec::new();
    push_attr(&mut attrs, "style", style.xml_name());
    proof {
        assert(attrs.deep_view() =~= seq![("style"@, spec_border_name(style))]);
    }
    writer.xml_start_tag(tag, &attrs);
    let ghost pa = spec_start_tag(tag@, seq![("style"@, spec_border_name(style))]);
    if !color.is_auto_or_default() {
        let cattrs = color.attributes();
        writer.xml_empty_tag("color", &cattrs);
    } else {
        let mut cattrs: Vec<(String, String)> = Vec::new();
        push_attr(&mut cattrs, "auto", "1");
        proof {
            assert(cattrs.deep_view() =~= seq![("auto"@, "1"@)]);
        }
        writer.xml_empty_tag("color", &cattrs);
    }
    let ghost pb: Seq<char> = if color != XlsxColor::Default && color != XlsxColor::Automatic {
        spec_empty_tag("color"@, spec_color_attributes(color))
    } else {
        spec_empty_tag("color"@, seq![("auto"@, "1"@)])
    };
    writer.xml_end_tag(tag);
    proof {
        lemma_shift(w0, pa, pb);
        lemma_shift(w0, pa + pb, spec_end_tag(tag@));
        assert(writer@ == w0 + spec_sub_border_xml(tag@, style, color));
    }
}

/// Write a whole `<border>` element.
#[verifier::spinoff_prover]
#[verifier::rlimit(100)]
fn write_border(writer: &mut XMLWriter, b: &Border)
    ensures
        final(writer)@ == old(writer)@ + spec_border_xml(*b),
{
    let ghost w0 = writer@;
    match b.diagonal_type {
        FormatDiagonalBorder::NoDiagonal => {
            writer.xml_start_tag_only("border");
        },
        FormatDiagonalBorder::BorderUp => {
            let mut attrs: Vec<(String, String)> = Vec::new();
            push_attr(&mut attrs, "diagonalUp", "1");
            proof {
                assert(attrs.deep_view() =~= seq![("diagonalUp"@, "1"@)]);
            }
            writer.xml_start_tag("border", &attrs);
        },
        FormatDiagonalBorder::BorderDown => {
            let mut attrs: Vec<(String, String)> = Vec::new();
            push_attr(&mut attrs, "diagonalDown", "1");
            proof {
                assert(attrs.deep_view() =~= seq![("diagonalDown"@, "1"@)]);
            }
            writer.xml_start_tag("border", &attrs);
        },
        FormatDiagonalBorder::BorderUpDown => {
            let mut attrs: Vec<(String, String)> = Vec::new();
            push_attr(&mut attrs, "diagonalUp", "1");
            push_attr(&mut attrs, "diagonalDown", "1");
            proof {
                assert(attrs.deep_view() =~= seq![
                    ("diagonalUp"@, "1"@),
                    ("diagonalDown"@, "1"@),
                ]);
            }
            writer.xml_start_tag("border", &attrs);
        },
    }
    let ghost pa: Seq<char> = if b.diagonal_type == FormatDiagonalBorder::NoDiagonal {
        spec_open_tag("border"@)
    } else if b.diagonal_type == FormatDiagonalBorder::BorderUp {
        spec_start_tag("border"@, seq![("diagonalUp"@, "1"@)])
    } else if b.diagonal_type == FormatDiagonalBorder::BorderDown {
        spec_start_tag("border"@, seq![("diagonalDown"@, "1"@)])
    } else {
        spec_start_tag("border"@, seq![("diagonalUp"@, "1"@), ("diagonalDown"@, "1"@)])
    };
    write_sub_border(writer, "left", b.left_style, b.left_color);
    write_sub_border(writer, "right", b.right_style, b.right_color);
    write_sub_border(writer, "top", b.top_style, b.top_color);
    write_sub_border(writer, "bottom", b.bottom_style, b.bottom_color);
    write_sub_border(writer, "diagonal", b.diagonal_style, b.diagonal_color);
    writer.xml_end_tag("border");
    proof {
        let pb = spec_sub_border_xml("left"@, b.left_style, b.left_color);
        let pc = spec_sub_border_xml("right"@, b.right_style, b.right_color);
        let pd = spec_sub_border_xml("top"@, b.top_style, b.top_color);
        let pe = spec_sub_border_xml("bottom"@, b.bottom_style, b.bottom_color);
        let pf = spec_sub_border_xml("diagonal"@, b.diagonal_style, b.diagonal_color);
        lemma_shift(w0, pa, pb);
        lemma_shift(w0, pa + pb, pc);
        lemma_shift(w0, pa + pb + pc, pd);
        lemma_shift(w0, pa + pb + pc + pd, pe);
        lemma_shift(w0, pa + pb + pc + pd + pe, pf);
        lemma_shift(w0, pa + pb + pc + pd + pe + pf, spec_end_tag("border"@));
        assert(writer@ == w0 + spec_border_xml(*b));
    }
}

/// Write the `<alignment>` element of a format.
#[verifier::spinoff_prover]
#[verifier::rlimit(100)]
fn write_alignment(writer: &mut XMLWriter, a: crate::formats::Alignment)
    ensures
        final(writer)@ == old(writer)@ + spec_alignment_xml(a),
{
    let mut attrs: Vec<(String, String)> = Vec::new();
    proof {
        assert(attrs.deep_view() =~= Seq::<(Seq<char>, Seq<char>)>::empty());
    }
    let mut horizontal = a.horizontal;
    let mut shrink = a.shrink;
    if a.indent > 0 && !matches!(
        a.horizontal,
        FormatAlign::Left | FormatAlign::Right | FormatAlign::Distributed,
    ) {
        horizontal = FormatAlign::Left;
    }
    proof {
        assert(horizontal == spec_effective_horizontal(a));
    }
    if a.text_wrap || matches!(
        horizontal,
        FormatAlign::Fill | FormatAlign::Justify | FormatAlign::Distributed,
    ) {
        shrink = false;
    }
    proof {
        assert(shrink == spec_effective_shrink(a));
    }
    let ghost p1: Seq<(Seq<char>, Seq<char>)> = if spec_has_horizontal(horizontal) {
        seq![("horizontal"@, spec_horizontal_name(horizontal))]
    } else {
        Seq::empty()
    };
    match horizontal {
        FormatAlign::Center => push_attr(&mut attrs, "horizontal", "center"),
        FormatAlign::CenterAcross => push_attr(&mut attrs, "horizontal", "centerContinuous"),
        FormatAlign::Distributed => push_attr(&mut attrs, "horizontal", "distributed"),
        FormatAlign::Fill => push_attr(&mut attrs, "horizontal", "fill"),
        FormatAlign::Justify => push_attr(&mut attrs, "horizontal", "justify"),
        FormatAlign::Left => push_attr(&mut attrs, "horizontal", "left"),
        FormatAlign::Right => push_attr(&mut attrs, "horizontal", "right"),
        _ => {},
    }
    proof {
        lemma_push_concat(Seq::<(Seq<char>, Seq<char>)>::empty(), (
            "horizontal"@,
            spec_horizontal_name(horizontal),
        ));
        if !spec_has_horizontal(horizontal) {
            lemma_append_empty(Seq::<(Seq<char>, Seq<char>)>::empty());
        }
        assert(attrs.deep_view() =~= Seq::<(Seq<char>, Seq<char>)>::empty() + p1);
    }
    let ghost d1 = Seq::<(Seq<char>, Seq<char>)>::empty() + p1;
    let ghost p2: Seq<(Seq<char>, Seq<char>)> = if spec_has_vertical(a.vertical) {
        seq![("vertical"@, spec_vertical_name(a.vertical))]
    } else {
        Seq::empty()
    };
    match a.vertical {
        FormatAlign::VerticalCenter => push_attr(&mut attrs, "vertical", "center"),
        FormatAlign::VerticalDistributed => push_attr(&mut attrs, "vertical", "distributed"),
        FormatAlign::VerticalJustify => push_attr(&mut attrs, "vertical", "justify"),
        FormatAlign::Top => push_attr(&mut attrs, "vertical", "top"),
        _ => {},
    }
    proof {
        if !spec_has_vertical(a.vertical) {
            lemma_append_empty(d1);
        } else {
            lemma_push_concat(d1, ("vertical"@, spec_vertical_name(a.vertical)));
        }
        assert(attrs.deep_view() =~= d1 + p2);
    }
    let ghost d2 = d1 + p2;
    let ghost p3: Seq<(Seq<char>, Seq<char>)> = if a.indent != 0 {
        seq![("indent"@, spec_dec_u64(a.indent as nat))]
    } else {
        Seq::empty()
    };
    if a.indent != 0 {
        push_attr_string(&mut attrs, "indent", dec_u64(a.indent as u64));
    }
    proof {
        if a.indent == 0 {
            lemma_append_empty(d2);
        } else {
            lemma_push_concat(d2, ("indent"@, spec_dec_u64(a.indent as nat)));
        }
        assert(attrs.deep_view() =~= d2 + p3);
    }
    let ghost d3 = d2 + p3;
    let ghost p4: Seq<(Seq<char>, Seq<char>)> = if a.rotation != 0 {
        seq![("textRotation"@, spec_dec_i64(a.rotation as int))]
    } else {
        Seq::empty()
    };
    if a.rotation != 0 {
        push_attr_string(&mut attrs, "textRotation", dec_i64(a.rotation as i64));
    }
    proof {
        if a.rotation == 0 {
            lemma_append_empty(d3);
        } else {
            lemma_push_concat(d3, ("textRotation"@, spec_dec_i64(a.rotation as int)));
        }
        assert(attrs.deep_view() =~= d3 + p4);
    }
    let ghost d4 = d3 + p4;
    let ghost p5: Seq<(Seq<char>, Seq<char>)> = if a.text_wrap {
        seq![("wrapText"@, "1"@)]
    } else {
        Seq::empty()
    };
    if a.text_wrap {
        push_attr(&mut attrs, "wrapText", "1");
    }
    proof {
        if !a.text_wrap {
            lemma_append_empty(d4);
        } else {
            lemma_push_concat(d4, ("wrapText"@, "1"@));
        }
        assert(attrs.deep_view() =~= d4 + p5);
    }
    let ghost d5 = d4 + p5;
    let ghost p6: Seq<(Seq<char>, Seq<char>)> = if spec_effective_shrink(a) {
        seq![("shrinkToFit"@, "1"@)]
    } else {
        Seq::empty()
    };
    if shrink {
        push_attr(&mut attrs, "shrinkToFit", "1");
    }
    proof {
        if !shrink {
            lemma_append_empty(d5);
        } else {
            lemma_push_concat(d5, ("shrinkToFit"@, "1"@));
        }
        assert(attrs.deep_view() =~= d5 + p6);
    }
    let ghost d6 = d5 + p6;
    let ghost p7: Seq<(Seq<char>, Seq<char>)> = if 0 < a.reading_direction <= 2 {
        seq![("readingOrder"@, spec_dec_u64(a.reading_direction as nat))]
    } else {
        Seq::empty()
    };
    if a.reading_direction > 0 && a.reading_direction <= 2 {
        push_attr_string(&mut attrs, "readingOrder", dec_u64(a.reading_direction as u64));
    }
    proof {
        if !(0 < a.reading_direction <= 2) {
            lemma_append_empty(d6);
        } else {
            lemma_push_concat(d6, ("readingOrder"@, spec_dec_u64(a.reading_direction as nat)));
        }
        assert(attrs.deep_view() =~= d6 + p7);
        lemma_append_empty(Seq::<(Seq<char>, Seq<char>)>::empty() + p1);
        assert(Seq::<(Seq<char>, Seq<char>)>::empty() + p1 =~= p1);
        assert(attrs.deep_view() == spec_alignment_attrs(a));
    }
    writer.xml_empty_tag("alignment", &attrs);
}

/// Write the `<protection>` element of a format.
fn write_protection(writer: &mut XMLWriter, f: &Format)
    ensures
        final(writer)@ == old(writer)@ + spec_protection_xml(*f),
{
    let mut attrs: Vec<(String, String)> = Vec::new();
    if !f.locked {
        push_attr(&mut attrs, "locked", "0");
    }
    if f.hidden {
        push_attr(&mut attrs, "hidden", "1");
    }
    proof {
        assert(attrs.deep_view() =~= (if !f.locked {
            seq![("locked"@, "0"@)]
        } else {
            Seq::empty()
        }) + (if f.hidden {
            seq![("hidden"@, "1"@)]
        } else {
            Seq::empty()
        }));
    }
    writer.xml_empty_tag("protection", &attrs);
}

/// Write one cell `<xf>` record.
#[verifier::spinoff_prover]
#[verifier::rlimit(100)]
fn write_cell_xf(writer: &mut XMLWriter, f: &Format)
    ensures
        final(writer)@ == old(writer)@ + spec_cell_xf_xml(*f),
{
    let is_hyperlink = f.font.is_hyperlink;
    let mut attrs: Vec<(String, String)> = Vec::new();
    push_attr_string(&mut attrs, "numFmtId", dec_u64(f.num_format_index as u64));
    push_attr_string(&mut attrs, "fontId", dec_u64(f.font_index as u64));
    push_attr_string(&mut attrs, "fillId", dec_u64(f.fill_index as u64));
    push_attr_string(&mut attrs, "borderId", dec_u64(f.border_index as u64));
    if is_hyperlink {
        push_attr(&mut attrs, "xfId", "1");
    } else {
        push_attr(&mut attrs, "xfId", "0");
    }
    let ghost base: Seq<(Seq<char>, Seq<char>)> = seq![
        ("numFmtId"@, spec_dec_u64(f.num_format_index as nat)),
        ("fontId"@, spec_dec_u64(f.font_index as nat)),
        ("fillId"@, spec_dec_u64(f.fill_index as nat)),
        ("borderId"@, spec_dec_u64(f.border_index as nat)),
        ("xfId"@, if is_hyperlink { "1"@ } else { "0"@ }),
    ];
    proof {
        assert(attrs.deep_view() =~= base);
    }
    let ghost c1: Seq<(Seq<char>, Seq<char>)> = if f.quote_prefix {
        seq![("quotePrefix"@, "1"@)]
    } else {
        Seq::empty()
    };
    if f.quote_prefix {
        push_attr(&mut attrs, "quotePrefix", "1");
    }
    proof {
        if !f.quote_prefix {
            lemma_append_empty(base);
        } else {
            lemma_push_concat(base, ("quotePrefix"@, "1"@));
        }
        assert(attrs.deep_view() =~= base + c1);
    }
    let ghost c2: Seq<(Seq<char>, Seq<char>)> = if f.num_format_index > 0 {
        seq![("applyNumberFormat"@, "1"@)]
    } else {
        Seq::empty()
    };
    if f.num_format_index > 0 {
        push_attr(&mut attrs, "applyNumberFormat", "1");
    }
    proof {
        if !(f.num_format_index > 0) {
            lemma_append_empty(base + c1);
        } else {
            lemma_push_concat(base + c1, ("applyNumberFormat"@, "1"@));
        }
        assert(attrs.deep_view() =~= base + c1 + c2);
    }
    let ghost c3: Seq<(Seq<char>, Seq<char>)> = if f.font_index > 0 && !is_hyperlink {
        seq![("applyFont"@, "1"@)]
    } else {
        Seq::empty()
    };
    if f.font_index > 0 && !is_hyperlink {
        push_attr(&mut attrs, "applyFont", "1");
    }
    proof {
        if !(f.font_index > 0 && !is_hyperlink) {
            lemma_append_empty(base + c1 + c2);
        } else {
            lemma_push_concat(base + c1 + c2, ("applyFont"@, "1"@));
        }
        assert(attrs.deep_view() =~= base + c1 + c2 + c3);
    }
    let ghost c4: Seq<(Seq<char>, Seq<char>)> = if f.fill_index > 0 {
        seq![("applyFill"@, "1"@)]
    } else {
        Seq::empty()
    };
    if f.fill_index > 0 {
        push_attr(&mut attrs, "applyFill", "1");
    }
    proof {
        if !(f.fill_index > 0) {
            lemma_append_empty(base + c1 + c2 + c3);
        } else {
            lemma_push_concat(base + c1 + c2 + c3, ("applyFill"@, "1"@));
        }
        assert(attrs.deep_view() =~= base + c1 + c2 + c3 + c4);
    }
    let ghost c5: Seq<(Seq<char>, Seq<char>)> = if f.border_index > 0 {
        seq![("applyBorder"@, "1"@)]
    } else {
        Seq::empty()
    };
    if f.border_index > 0 {
        push_attr(&mut attrs, "applyBorder", "1");
    }
    proof {
        if !(f.border_index > 0) {
            lemma_append_empty(base + c1 + c2 + c3 + c4);
        } else {
            lemma_push_concat(base + c1 + c2 + c3 + c4, ("applyBorder"@, "1"@));
        }
        assert(attrs.deep_view() =~= base + c1 + c2 + c3 + c4 + c5);
    }
    let ghost c6: Seq<(Seq<char>, Seq<char>)> = if f.spec_apply_alignment() || is_hyperlink {
        seq![("applyAlignment"@, "1"@)]
    } else {
        Seq::empty()
    };
    if f.apply_alignment() || is_hyperlink {
        push_attr(&mut attrs, "applyAlignment", "1");
    }
    proof {
        if !(f.spec_apply_alignment() || is_hyperlink) {
            lemma_append_empty(base + c1 + c2 + c3 + c4 + c5);
        } else {
            lemma_push_concat(base + c1 + c2 + c3 + c4 + c5, ("applyAlignment"@, "1"@));
        }
        assert(attrs.deep_view() =~= base + c1 + c2 + c3 + c4 + c5 + c6);
    }
    let ghost c7: Seq<(Seq<char>, Seq<char>)> = if f.spec_has_protection() || is_hyperlink {
        seq![("applyProtection"@, "1"@)]
    } else {
        Seq::empty()
    };
    if f.has_protection() || is_hyperlink {
        push_attr(&mut attrs, "applyProtection", "1");
    }
    proof {
        if !(f.spec_has_protection() || is_hyperlink) {
            lemma_append_empty(base + c1 + c2 + c3 + c4 + c5 + c6);
        } else {
            lemma_push_concat(base + c1 + c2 + c3 + c4 + c5 + c6, ("applyProtection"@, "1"@));
        }
        assert(attrs.deep_view() =~= base + c1 + c2 + c3 + c4 + c5 + c6 + c7);
        assert(attrs.deep_view() == spec_cell_xf_attrs(*f));
    }
    if f.has_alignment() || f.has_protection() {
        let ghost w0 = writer@;
        writer.xml_start_tag("xf", &attrs);
        let ghost pa = spec_start_tag("xf"@, spec_cell_xf_attrs(*f));
        let ghost pb: Seq<char> = if f.spec_has_alignment() {
            spec_alignment_xml(f.alignment)
        } else {
            Seq::empty()
        };
        if f.has_alignment() {
            write_alignment(writer, f.alignment);
        }
        proof {
            if !f.spec_has_alignment() {
                lemma_append_empty(w0 + pa);
            }
            assert(writer@ == w0 + pa + pb);
        }
        let ghost pc: Seq<char> = if f.spec_has_protection() {
            spec_protection_xml(*f)
        } else {
            Seq::empty()
        };
        if f.has_protection() {
            write_protection(writer, f);
        }
        proof {
            if !f.spec_has_protection() {
                lemma_append_empty(w0 + pa + pb);
            }
            assert(writer@ == w0 + pa + pb + pc);
        }
        writer.xml_end_tag("xf");
        proof {
            lemma_shift(w0, pa, pb);
            lemma_shift(w0, pa + pb, pc);
            lemma_shift(w0, pa + pb + pc, spec_end_tag("xf"@));
            assert(writer@ == w0 + spec_cell_xf_xml(*f));
        }
    } else {
        writer.xml_empty_tag("xf", &attrs);
    }
}


impl<'a> Styles<'a> {
    /// Write the `numFmts` section, omitted when empty.
    #[verifier::spinoff_prover]
    #[verifier::rlimit(100)]
    fn write_num_fmts(&mut self)
        requires
            old(self).num_formats@.len() <= 0xFFFF,
        ensures
            *final(self) == (Styles { writer: final(self).writer, ..*old(self) }),
            final(self).writer@ == old(self).writer@ + spec_num_fmts_xml(
                old(self).num_formats.deep_view(),
            ),
    {
        let n = self.num_formats.len();
        if n == 0 {
            proof {
                lemma_append_empty(self.writer@);
            }
            return ;
        }
        let mut attrs: Vec<(String, String)> = Vec::new();
        push_attr_string(&mut attrs, "count", dec_u64(n as u64));
        proof {
            assert(attrs.deep_view() =~= seq![
                ("count"@, spec_dec_u64(old(self).num_formats.deep_view().len())),
            ]);
        }
        self.writer.xml_start_tag("numFmts", &attrs);
        let ghost items = self.num_formats.deep_view();
        let ghost mid = self.writer@;
        let mut i: usize = 0;
        while i < n
            invariant
                i <= n,
                n <= 0xFFFF,
                n == self.num_formats.len(),
                *self == (Styles { writer: self.writer, ..*old(self) }),
                items == self.num_formats.deep_view(),
                self.writer@ == mid + spec_num_fmt_items(items.subrange(0, i as int)),
            decreases n - i,
        {
            let mut fa: Vec<(String, String)> = Vec::new();
            push_attr_string(&mut fa, "numFmtId", dec_u64(164 + i as u64));
            push_attr_string(&mut fa, "formatCode", self.num_formats[i].clone());
            proof {
                let pre = items.subrange(0, i as int);
                let post = items.subrange(0, i + 1 as int);
                assert(post.drop_last() =~= pre);
                assert(post.last() == items[i as int]);
                assert(items[i as int] == self.num_formats@[i as int]@);
                assert((163 + post.len()) as nat == (164 + i as u64) as nat);
                assert(fa.deep_view() =~= seq![
                    ("numFmtId"@, spec_dec_u64((163 + post.len()) as nat)),
                    ("formatCode"@, post.last()),
                ]);
            }
            self.writer.xml_empty_tag("numFmt", &fa);
            proof {
                let post = items.subrange(0, i + 1 as int);
                assert(self.writer@ =~= mid + spec_num_fmt_items(post));
            }
            i = i + 1;
        }
        self.writer.xml_end_tag("numFmts");
        proof {
            assert(items.subrange(0, n as int) =~= items);
            let w0 = old(self).writer@;
            let pa = spec_start_tag("numFmts"@, seq![("count"@, spec_dec_u64(items.len()))]);
            lemma_shift(w0, pa, spec_num_fmt_items(items));
            lemma_shift(w0, pa + spec_num_fmt_items(items), spec_end_tag("numFmts"@));
            assert(self.writer@ == w0 + spec_num_fmts_xml(items));
        }
    }

    /// Write the `fonts` section.
    fn write_fonts(&mut self)
        ensures
            *final(self) == (Styles { writer: final(self).writer, ..*old(self) }),
            final(self).writer@ == old(self).writer@ + spec_fonts_section(
                old(self).xf_formats@,
                old(self).font_count,
                old(self).is_rich_string_style,
            ),
    {
        let mut attrs: Vec<(String, String)> = Vec::new();
        push_attr_string(&mut attrs, "count", dec_u64(self.font_count as u64));
        proof {
            assert(attrs.deep_view() =~= seq![
                ("count"@, spec_dec_u64(old(self).font_count as nat)),
            ]);
        }
        self.writer.xml_start_tag("fonts", &attrs);
        let formats = self.xf_formats;
        let ghost fseq = formats@;
        let ghost mid = self.writer@;
        let n = formats.len();
        let mut i: usize = 0;
        while i < n
            invariant
                i <= n,
                n == formats.len(),
                fseq == formats@,
                *self == (Styles { writer: self.writer, ..*old(self) }),
                self.is_rich_string_style == old(self).is_rich_string_style,
                self.writer@ == mid + spec_fonts_items(
                    fseq.subrange(0, i as int),
                    old(self).is_rich_string_style,
                ),
            decreases n - i,
        {
            if formats[i].has_font {
                self.write_font(&formats[i].font);
            }
            proof {
                let pre = fseq.subrange(0, i as int);
                let post = fseq.subrange(0, i + 1 as int);
                assert(post.drop_last() =~= pre);
                assert(post.last() == fseq[i as int]);
                if !fseq[i as int].has_font {
                    lemma_append_empty(mid + spec_fonts_items(
                        pre,
                        old(self).is_rich_string_style,
                    ));
                }
                assert(self.writer@ =~= mid + spec_fonts_items(
                    post,
                    old(self).is_rich_string_style,
                ));
            }
            i = i + 1;
        }
        self.writer.xml_end_tag("fonts");
        proof {
            assert(fseq.subrange(0, n as int) =~= fseq);
            let w0 = old(self).writer@;
            let pa = spec_start_tag(
                "fonts"@,
                seq![("count"@, spec_dec_u64(old(self).font_count as nat))],
            );
            let pb = spec_fonts_items(fseq, old(self).is_rich_string_style);
            lemma_shift(w0, pa, pb);
            lemma_shift(w0, pa + pb, spec_end_tag("fonts"@));
            assert(self.writer@ == w0 + spec_fonts_section(
                fseq,
                old(self).font_count,
                old(self).is_rich_string_style,
            ));
        }
    }

    /// Write the `fills` section with its two default fills.
    fn write_fills(&mut self)
        ensures
            *final(self) == (Styles { writer: final(self).writer, ..*old(self) }),
            final(self).writer@ == old(self).writer@ + spec_fills_section(
                old(self).xf_formats@,
                old(self).fill_count,
            ),
    {
        let mut attrs: Vec<(String, String)> = Vec::new();
        push_attr_string(&mut attrs, "count", dec_u64(self.fill_count as u64));
        proof {
            assert(attrs.deep_view() =~= seq![
                ("count"@, spec_dec_u64(old(self).fill_count as nat)),
            ]);
        }
        self.writer.xml_start_tag("fills", &attrs);
        write_default_fill(&mut self.writer, "none");
        write_default_fill(&mut self.writer, "gray125");
        let formats = self.xf_formats;
        let ghost fseq = formats@;
        let ghost mid = self.writer@;
        let n = formats.len();
        let mut i: usize = 0;
        while i < n
            invariant
                i <= n,
                n == formats.len(),
                fseq == formats@,
                *self == (Styles { writer: self.writer, ..*old(self) }),
                self.writer@ == mid + spec_fills_items(fseq.subrange(0, i as int)),
            decreases n - i,
        {
            if formats[i].has_fill {
                write_fill(&mut self.writer, &formats[i].fill);
            }
            proof {
                let pre = fseq.subrange(0, i as int);
                let post = fseq.subrange(0, i + 1 as int);
                assert(post.drop_last() =~= pre);
                assert(post.last() == fseq[i as int]);
                if !fseq[i as int].has_fill {
                    lemma_append_empty(mid + spec_fills_items(pre));
                }
                assert(self.writer@ =~= mid + spec_fills_items(post));
            }
            i = i + 1;
        }
        self.writer.xml_end_tag("fills");
        proof {
            assert(fseq.subrange(0, n as int) =~= fseq);
            let w0 = old(self).writer@;
            let pa = spec_start_tag(
                "fills"@,
                seq![("count"@, spec_dec_u64(old(self).fill_count as nat))],
            );
            lemma_shift(w0, pa, spec_default_fill_xml("none"@));
            lemma_shift(w0, pa + spec_default_fill_xml("none"@), spec_default_fill_xml(
                "gray125"@,
            ));
            lemma_shift(
                w0,
                pa + spec_default_fill_xml("none"@) + spec_default_fill_xml("gray125"@),
                spec_fills_items(fseq),
            );
            lemma_shift(
                w0,
                pa + spec_default_fill_xml("none"@) + spec_default_fill_xml("gray125"@)
                    + spec_fills_items(fseq),
                spec_end_tag("fills"@),
            );
            assert(self.writer@ == w0 + spec_fills_section(fseq, old(self).fill_count));
        }
    }

    /// Write the `borders` section.
    fn write_borders(&mut self)
        ensures
            *final(self) == (Styles { writer: final(self).writer, ..*old(self) }),
            final(self).writer@ == old(self).writer@ + spec_borders_section(
                old(self).xf_formats@,
                old(self).border_count,
            ),
    {
        let mut attrs: Vec<(String, String)> = Vec::new();
        push_attr_string(&mut attrs, "count", dec_u64(self.border_count as u64));
        proof {
            assert(attrs.deep_view() =~= seq![
                ("count"@, spec_dec_u64(old(self).border_count as nat)),
            ]);
        }
        self.writer.xml_start_tag("borders", &attrs);
        let formats = self.xf_formats;
        let ghost fseq = formats@;
        let ghost mid = self.writer@;
        let n = formats.len();
        let mut i: usize = 0;
        while i < n
            invariant
                i <= n,
                n == formats.len(),
                fseq == formats@,
                *self == (Styles { writer: self.writer, ..*old(self) }),
                self.writer@ == mid + spec_borders_items(fseq.subrange(0, i as int)),
            decreases n - i,
        {
            if formats[i].has_border {
                write_border(&mut self.writer, &formats[i].borders);
            }
            proof {
                let pre = fseq.subrange(0, i as int);
                let post = fseq.subrange(0, i + 1 as int);
                assert(post.drop_last() =~= pre);
                assert(post.last() == fseq[i as int]);
                if !fseq[i as int].has_border {
                    lemma_append_empty(mid + spec_borders_items(pre));
                }
                assert(self.writer@ =~= mid + spec_borders_items(post));
            }
            i = i + 1;
        }
        self.writer.xml_end_tag("borders");
        proof {
            assert(fseq.subrange(0, n as int) =~= fseq);
            let w0 = old(self).writer@;
            let pa = spec_start_tag(
                "borders"@,
                seq![("count"@, spec_dec_u64(old(self).border_count as nat))],
            );
            lemma_shift(w0, pa, spec_borders_items(fseq));
            lemma_shift(w0, pa + spec_borders_items(fseq), spec_end_tag("borders"@));
            assert(self.writer@ == w0 + spec_borders_section(fseq, old(self).border_count));
        }
    }

    /// Write the `cellStyleXfs` section.
    #[verifier::spinoff_prover]
    #[verifier::rlimit(100)]
    fn write_cell_style_xfs(&mut self)
        ensures
            *final(self) == (Styles { writer: final(self).writer, ..*old(self) }),
            final(self).writer@ == old(self).writer@ + spec_cell_style_xfs_xml(
                old(self).has_hyperlink_style,
            ),
    {
        let ghost w0 = self.writer@;
        let mut attrs: Vec<(String, String)> = Vec::new();
        if self.has_hyperlink_style {
            push_attr(&mut attrs, "count", "2");
        } else {
            push_attr(&mut attrs, "count", "1");
        }
        proof {
            assert(attrs.deep_view() =~= seq![
                ("count"@, if old(self).has_hyperlink_style { "2"@ } else { "1"@ }),
            ]);
        }
        self.writer.xml_start_tag("cellStyleXfs", &attrs);
        let mut normal: Vec<(String, String)> = Vec::new();
        push_attr(&mut normal, "numFmtId", "0");
        push_attr(&mut normal, "fontId", "0");
        push_attr(&mut normal, "fillId", "0");
        push_attr(&mut normal, "borderId", "0");
        proof {
            assert(normal.deep_view() =~= seq![
                ("numFmtId"@, "0"@),
                ("fontId"@, "0"@),
                ("fillId"@, "0"@),
                ("borderId"@, "0"@),
            ]);
        }
        self.writer.xml_empty_tag("xf", &normal);
        let ghost pa = spec_start_tag(
            "cellStyleXfs"@,
            seq![("count"@, if old(self).has_hyperlink_style { "2"@ } else { "1"@ })],
        );
        let ghost pb = spec_empty_tag(
            "xf"@,
            seq![("numFmtId"@, "0"@), ("fontId"@, "0"@), ("fillId"@, "0"@), ("borderId"@, "0"@)],
        );
        let ghost pc: Seq<char> = if old(self).has_hyperlink_style {
            spec_start_tag(
                "xf"@,
                seq![
                    ("numFmtId"@, "0"@),
                    ("fontId"@, "1"@),
                    ("fillId"@, "0"@),
                    ("borderId"@, "0"@),
                    ("applyNumberFormat"@, "0"@),
                    ("applyFill"@, "0"@),
                    ("applyBorder"@, "0"@),
                    ("applyAlignment"@, "0"@),
                    ("applyProtection"@, "0"@),
                ],
            ) + spec_empty_tag("alignment"@, seq![("vertical"@, "top"@)]) + spec_empty_tag(
                "protection"@,
                seq![("locked"@, "0"@)],
            ) + spec_end_tag("xf"@)
        } else {
            Seq::empty()
        };
        if self.has_hyperlink_style {
            let ghost wh = self.writer@;
            let mut hl: Vec<(String, String)> = Vec::new();
            push_attr(&mut hl, "numFmtId", "0");
            push_attr(&mut hl, "fontId", "1");
            push_attr(&mut hl, "fillId", "0");
            push_attr(&mut hl, "borderId", "0");
            push_attr(&mut hl, "applyNumberFormat", "0");
            push_attr(&mut hl, "applyFill", "0");
            push_attr(&mut hl, "applyBorder", "0");
            push_attr(&mut hl, "applyAlignment", "0");
            push_attr(&mut hl, "applyProtection", "0");
            proof {
                assert(hl.deep_view() =~= seq![
                    ("numFmtId"@, "0"@),
                    ("fontId"@, "1"@),
                    ("fillId"@, "0"@),
                    ("borderId"@, "0"@),
                    ("applyNumberFormat"@, "0"@),
                    ("applyFill"@, "0"@),
                    ("applyBorder"@, "0"@),
                    ("applyAlignment"@, "0"@),
                    ("applyProtection"@, "0"@),
                ]);
            }
            self.writer.xml_start_tag("xf", &hl);
            let mut al: Vec<(String, String)> = Vec::new();
            push_attr(&mut al, "vertical", "top");
            proof {
                assert(al.deep_view() =~= seq![("vertical"@, "top"@)]);
            }
            self.writer.xml_empty_tag("alignment", &al);
            let mut pr: Vec<(String, String)> = Vec::new();
            push_attr(&mut pr, "locked", "0");
            proof {
                assert(pr.deep_view() =~= seq![("locked"@, "0"@)]);
            }
            self.writer.xml_empty_tag("protection", &pr);
            self.writer.xml_end_tag("xf");
            proof {
                let q1 = spec_start_tag(
                    "xf"@,
                    seq![
                        ("numFmtId"@, "0"@),
                        ("fontId"@, "1"@),
                        ("fillId"@, "0"@),
                        ("borderId"@, "0"@),
                        ("applyNumberFormat"@, "0"@),
                        ("applyFill"@, "0"@),
                        ("applyBorder"@, "0"@),
                        ("applyAlignment"@, "0"@),
                        ("applyProtection"@, "0"@),
                    ],
                );
                let q2 = spec_empty_tag("alignment"@, seq![("vertical"@, "top"@)]);
                let q3 = spec_empty_tag("protection"@, seq![("locked"@, "0"@)]);
                lemma_shift(wh, q1, q2);
                lemma_shift(wh, q1 + q2, q3);
                lemma_shift(wh, q1 + q2 + q3, spec_end_tag("xf"@));
                assert(self.writer@ == wh + pc);
            }
        } else {
            proof {
                lemma_append_empty(w0 + pa + pb);
            }
        }
        self.writer.xml_end_tag("cellStyleXfs");
        proof {
            lemma_shift(w0, pa, pb);
            lemma_shift(w0, pa + pb, pc);
            lemma_shift(w0, pa + pb + pc, spec_end_tag("cellStyleXfs"@));
            assert(self.writer@ == w0 + spec_cell_style_xfs_xml(old(self).has_hyperlink_style));
        }
    }

    /// Write the `cellXfs` section.
    fn write_cell_xfs(&mut self)
        ensures
            *final(self) == (Styles { writer: final(self).writer, ..*old(self) }),
            final(self).writer@ == old(self).writer@ + spec_cell_xfs_section(
                old(self).xf_formats@,
            ),
    {
        let mut attrs: Vec<(String, String)> = Vec::new();
        push_attr_string(&mut attrs, "count", dec_u64(self.xf_formats.len() as u64));
        proof {
            assert(attrs.deep_view() =~= seq![
                ("count"@, spec_dec_u64(old(self).xf_formats@.len())),
            ]);
        }
        self.writer.xml_start_tag("cellXfs", &attrs);
        let formats = self.xf_formats;
        let ghost fseq = formats@;
        let ghost mid = self.writer@;
        let n = formats.len();
        let mut i: usize = 0;
        while i < n
            invariant
                i <= n,
                n == formats.len(),
                fseq == formats@,
                *self == (Styles { writer: self.writer, ..*old(self) }),
                self.writer@ == mid + spec_cell_xfs_items(fseq.subrange(0, i as int)),
            decreases n - i,
        {
            write_cell_xf(&mut self.writer, &formats[i]);
            proof {
                let pre = fseq.subrange(0, i as int);
                let post = fseq.subrange(0, i + 1 as int);
                assert(post.drop_last() =~= pre);
                assert(post.last() == fseq[i as int]);
                assert(self.writer@ =~= mid + spec_cell_xfs_items(post));
            }
            i = i + 1;
        }
        self.writer.xml_end_tag("cellXfs");
        proof {
            assert(fseq.subrange(0, n as int) =~= fseq);
            let w0 = old(self).writer@;
            let pa = spec_start_tag("cellXfs"@, seq![("count"@, spec_dec_u64(fseq.len()))]);
            lemma_shift(w0, pa, spec_cell_xfs_items(fseq));
            lemma_shift(w0, pa + spec_cell_xfs_items(fseq), spec_end_tag("cellXfs"@));
            assert(self.writer@ == w0 + spec_cell_xfs_section(fseq));
        }
    }

    /// Write the `cellStyles` section.
    fn write_cell_styles(&mut self)
        ensures
            *final(self) == (Styles { writer: final(self).writer, ..*old(self) }),
            final(self).writer@ == old(self).writer@ + spec_cell_styles_xml(
                old(self).has_hyperlink_style,
            ),
    {
        let ghost w0 = self.writer@;
        let mut attrs: Vec<(String, String)> = Vec::new();
        if self.has_hyperlink_style {
            push_attr(&mut attrs, "count", "2");
        } else {
            push_attr(&mut attrs, "count", "1");
        }
        proof {
            assert(attrs.deep_view() =~= seq![
                ("count"@, if old(self).has_hyperlink_style { "2"@ } else { "1"@ }),
            ]);
        }
        self.writer.xml_start_tag("cellStyles", &attrs);
        let ghost pa = spec_start_tag(
            "cellStyles"@,
            seq![("count"@, if old(self).has_hyperlink_style { "2"@ } else { "1"@ })],
        );
        let ghost pb: Seq<char> = if old(self).has_hyperlink_style {
            spec_empty_tag(
                "cellStyle"@,
                seq![("name"@, "Hyperlink"@), ("xfId"@, "1"@), ("builtinId"@, "8"@)],
            )
        } else {
            Seq::empty()
        };
        if self.has_hyperlink_style {
            let mut hl: Vec<(String, String)> = Vec::new();
            push_attr(&mut hl, "name", "Hyperlink");
            push_attr(&mut hl, "xfId", "1");
            push_attr(&mut hl, "builtinId", "8");
            proof {
                assert(hl.deep_view() =~= seq![
                    ("name"@, "Hyperlink"@),
                    ("xfId"@, "1"@),
                    ("builtinId"@, "8"@),
                ]);
            }
            self.writer.xml_empty_tag("cellStyle", &hl);
        } else {
            proof {
                lemma_append_empty(w0 + pa);
            }
        }
        let mut nm: Vec<(String, String)> = Vec::new();
        push_attr(&mut nm, "name", "Normal");
        push_attr(&mut nm, "xfId", "0");
        push_attr(&mut nm, "builtinId", "0");
        proof {
            assert(nm.deep_view() =~= seq![
                ("name"@, "Normal"@),
                ("xfId"@, "0"@),
                ("builtinId"@, "0"@),
            ]);
        }
        self.writer.xml_empty_tag("cellStyle", &nm);
        self.writer.xml_end_tag("cellStyles");
        proof {
            let pc = spec_empty_tag(
                "cellStyle"@,
                seq![("name"@, "Normal"@), ("xfId"@, "0"@), ("builtinId"@, "0"@)],
            );
            lemma_shift(w0, pa, pb);
            lemma_shift(w0, pa + pb, pc);
            lemma_shift(w0, pa + pb + pc, spec_end_tag("cellStyles"@));
            assert(self.writer@ == w0 + spec_cell_styles_xml(old(self).has_hyperlink_style));
        }
    }

    /// Assemble the whole `styles.xml` part.
    #[verifier::spinoff_prover]
    #[verifier::rlimit(100)]
    pub fn assemble_xml_file(&mut self)
        requires
            old(self).num_formats@.len() <= 0xFFFF,
        ensures
            *final(self) == (Styles { writer: final(self).writer, ..*old(self) }),
            final(self).writer@ == old(self).writer@ + spec_styles_xml(
                old(self).xf_formats@,
                old(self).font_count,
                old(self).fill_count,
                old(self).border_count,
                old(self).num_formats.deep_view(),
                old(self).has_hyperlink_style,
                old(self).is_rich_string_style,
            ),
    {
        let ghost w0 = self.writer@;
        self.writer.xml_declaration();
        let mut attrs: Vec<(String, String)> = Vec::new();
        push_attr(
            &mut attrs,
            "xmlns",
            "http://schemas.openxmlformats.org/spreadsheetml/2006/main",
        );
        proof {
            assert(attrs.deep_view() =~= seq![
                ("xmlns"@, "http://schemas.openxmlformats.org/spreadsheetml/2006/main"@),
            ]);
        }
        self.writer.xml_start_tag("styleSheet", &attrs);
        self.write_num_fmts();
        self.write_fonts();
        self.write_fills();
        self.write_borders();
        self.write_cell_style_xfs();
        self.write_cell_xfs();
        self.write_cell_styles();
        let mut dx: Vec<(String, String)> = Vec::new();
        push_attr(&mut dx, "count", "0");
        proof {
            assert(dx.deep_view() =~= seq![("count"@, "0"@)]);
        }
        self.writer.xml_empty_tag("dxfs", &dx);
        let mut ts: Vec<(String, String)> = Vec::new();
        push_attr(&mut ts, "count", "0");
        push_attr(&mut ts, "defaultTableStyle", "TableStyleMedium9");
        push_attr(&mut ts, "defaultPivotStyle", "PivotStyleLight16");
        proof {
            assert(ts.deep_view() =~= seq![
                ("count"@, "0"@),
                ("defaultTableStyle"@, "TableStyleMedium9"@),
                ("defaultPivotStyle"@, "PivotStyleLight16"@),
            ]);
        }
        self.writer.xml_empty_tag("tableStyles", &ts);
        self.writer.xml_end_tag("styleSheet");
        proof {
            let p1 = spec_xml_declaration();
            let p2 = spec_start_tag(
                "styleSheet"@,
                seq![("xmlns"@, "http://schemas.openxmlformats.org/spreadsheetml/2006/main"@)],
            );
            let p3 = spec_num_fmts_xml(old(self).num_formats.deep_view());
            let p4 = spec_fonts_section(
                old(self).xf_formats@,
                old(self).font_count,
                old(self).is_rich_string_style,
            );
            let p5 = spec_fills_section(old(self).xf_formats@, old(self).fill_count);
            let p6 = spec_borders_section(old(self).xf_formats@, old(self).border_count);
            let p7 = spec_cell_style_xfs_xml(old(self).has_hyperlink_style);
            let p8 = spec_cell_xfs_section(old(self).xf_formats@);
            let p9 = spec_cell_styles_xml(old(self).has_hyperlink_style);
            let p10 = spec_dxfs_xml();
            let p11 = spec_table_styles_xml();
            let p12 = spec_end_tag("styleSheet"@);
            lemma_shift(w0, p1, p2);
            lemma_shift(w0, p1 + p2, p3);
            lemma_shift(w0, p1 + p2 + p3, p4);
            lemma_shift(w0, p1 + p2 + p3 + p4, p5);
            lemma_shift(w0, p1 + p2 + p3 + p4 + p5, p6);
            lemma_shift(w0, p1 + p2 + p3 + p4 + p5 + p6, p7);
            lemma_shift(w0, p1 + p2 + p3 + p4 + p5 + p6 + p7, p8);
            lemma_shift(w0, p1 + p2 + p3 + p4 + p5 + p6 + p7 + p8, p9);
            lemma_shift(w0, p1 + p2 + p3 + p4 + p5 + p6 + p7 + p8 + p9, p10);
            lemma_shift(w0, p1 + p2 + p3 + p4 + p5 + p6 + p7 + p8 + p9 + p10, p11);
            lemma_shift(w0, p1 + p2 + p3 + p4 + p5 + p6 + p7 + p8 + p9 + p10 + p11, p12);
            assert(self.writer@ == w0 + spec_styles_xml(
                old(self).xf_formats@,
                old(self).font_count,
                old(self).fill_count,
                old(self).border_count,
                old(self).num_formats.deep_view(),
                old(self).has_hyperlink_style,
                old(self).is_rich_string_style,
            ));
        }
    }
}


} // verus!
