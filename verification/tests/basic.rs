use rust_xlsxwriter::utility;
use rust_xlsxwriter::{Format, SharedStrings, SharedStringsTable, XlsxColor};

#[test]
fn test_lib_compiles() {
    assert_eq!(true, true);
}

#[test]
fn test_hex_value() {
    assert_eq!("FF000000", XlsxColor::Default.argb_hex_value().as_str());
    assert_eq!("FF000000", XlsxColor::Black.argb_hex_value().as_str());
    assert_eq!("FF0000FF", XlsxColor::Blue.argb_hex_value().as_str());
    assert_eq!("FF800000", XlsxColor::Brown.argb_hex_value().as_str());
    assert_eq!("FF00FFFF", XlsxColor::Cyan.argb_hex_value().as_str());
    assert_eq!("FF808080", XlsxColor::Gray.argb_hex_value().as_str());
    assert_eq!("FF008000", XlsxColor::Green.argb_hex_value().as_str());
    assert_eq!("FF00FF00", XlsxColor::Lime.argb_hex_value().as_str());
    assert_eq!("FFFF00FF", XlsxColor::Magenta.argb_hex_value().as_str());
    assert_eq!("FF000080", XlsxColor::Navy.argb_hex_value().as_str());
    assert_eq!("FFFF6600", XlsxColor::Orange.argb_hex_value().as_str());
    assert_eq!("FFFFC0CB", XlsxColor::Pink.argb_hex_value().as_str());
    assert_eq!("FF800080", XlsxColor::Purple.argb_hex_value().as_str());
    assert_eq!("FFFF0000", XlsxColor::Red.argb_hex_value().as_str());
    assert_eq!("FFC0C0C0", XlsxColor::Silver.argb_hex_value().as_str());
    assert_eq!("FFFFFFFF", XlsxColor::White.argb_hex_value().as_str());
    assert_eq!("FFFFFF00", XlsxColor::Yellow.argb_hex_value().as_str());
    assert_eq!("FFABCDEF", XlsxColor::RGB(0xABCDEF).argb_hex_value().as_str());
    assert_eq!("FF000000", XlsxColor::Theme(2, 1).argb_hex_value().as_str());
}

#[test]
fn test_unset() {
    let format1 = Format::default();
    let format2 = Format::new()
        .set_bold()
        .set_italic()
        .set_font_strikethrough()
        .set_text_wrap()
        .set_shrink()
        .set_unlocked()
        .set_hidden()
        .unset_bold()
        .unset_italic()
        .unset_font_strikethrough()
        .unset_text_wrap()
        .unset_shrink()
        .set_locked()
        .unset_hidden();
    assert_eq!(format1, format2);
}

#[test]
fn test_col_to_name() {
    let tests = vec![
        (0u16, "A"),
        (1, "B"),
        (2, "C"),
        (9, "J"),
        (24, "Y"),
        (25, "Z"),
        (26, "AA"),
        (254, "IU"),
        (255, "IV"),
        (256, "IW"),
        (16383, "XFD"),
        (16384, "XFE"),
    ];
    for (col_num, col_string) in tests {
        assert_eq!(col_string, utility::col_to_name(col_num).as_str());
    }
}

#[test]
fn test_row_col_to_cell() {
    let tests = vec![
        (0u32, 0u16, "A1"),
        (0, 1, "B1"),
        (0, 2, "C1"),
        (0, 9, "J1"),
        (1, 0, "A2"),
        (2, 0, "A3"),
        (9, 0, "A10"),
        (1, 24, "Y2"),
        (7, 25, "Z8"),
        (9, 26, "AA10"),
        (1, 254, "IU2"),
        (1, 255, "IV2"),
        (1, 256, "IW2"),
        (0, 16383, "XFD1"),
        (1048576, 16384, "XFE1048577"),
    ];
    for (row_num, col_num, cell_string) in tests {
        assert_eq!(cell_string, utility::rowcol_to_cell(row_num, col_num).as_str());
    }
}

#[test]
fn test_cell_range() {
    let tests = vec![
        (0u32, 0u16, 9u32, 0u16, "A1:A10"),
        (1, 2, 8, 2, "C2:C9"),
        (0, 0, 3, 4, "A1:E4"),
        (0, 0, 0, 0, "A1"),
        (0, 0, 0, 1, "A1:B1"),
        (0, 2, 0, 9, "C1:J1"),
        (1, 0, 2, 0, "A2:A3"),
        (9, 0, 1, 24, "A10:Y2"),
        (7, 25, 9, 26, "Z8:AA10"),
        (1, 254, 1, 255, "IU2:IV2"),
        (1, 256, 0, 16383, "IW2:XFD1"),
        (0, 0, 1048576, 16384, "A1:XFE1048577"),
    ];
    for (start_row, start_col, end_row, end_col, cell_range) in tests {
        assert_eq!(
            cell_range,
            utility::cell_range(start_row, start_col, end_row, end_col).as_str()
        );
    }
}

#[test]
fn test_quote_sheetname() {
    let tests = vec![
        ("Sheet1", "Sheet1"),
        ("Sheet.2", "Sheet.2"),
        ("Sheet_3", "Sheet_3"),
        ("'Sheet4'", "'Sheet4'"),
        ("'Sheet 5'", "Sheet 5"),
        ("'Sheet!6'", "Sheet!6"),
        ("'Sheet''7'", "Sheet'7"),
        (
            "'a''''''''''''''''''''''''''''''''''''''''''''''''''''''''''b'",
            "a'''''''''''''''''''''''''''''b",
        ),
    ];
    for (exp, sheetname) in tests {
        assert_eq!(exp, utility::quote_sheetname(sheetname).as_str());
    }
}

#[test]
fn test_shared_string_table() {
    let mut string_table = SharedStringsTable::new();
    let mut shared_strings = SharedStrings::new();
    string_table.get_shared_string_index("neptune");
    string_table.get_shared_string_index("neptune");
    string_table.get_shared_string_index("neptune");
    string_table.get_shared_string_index("neptune");
    string_table.get_shared_string_index("mars");
    string_table.get_shared_string_index("venus");
    string_table.get_shared_string_index("mars");
    shared_strings.assemble_xml_file(&string_table);
    let got = shared_strings.writer.read_to_str();
    let expected = "<?xml version=\"1.0\" encoding=\"UTF-8\" standalone=\"yes\"?>\n\
        <sst xmlns=\"http://schemas.openxmlformats.org/spreadsheetml/2006/main\" count=\"7\" uniqueCount=\"3\">\
        <si><t>neptune</t></si>\
        <si><t>mars</t></si>\
        <si><t>venus</t></si>\
        </sst>";
    assert_eq!(got, expected);
}

#[test]
fn test_shared_string_table_with_preserve() {
    let mut string_table = SharedStringsTable::new();
    let mut shared_strings = SharedStrings::new();
    string_table.get_shared_string_index("abcdefg");
    string_table.get_shared_string_index("   abcdefg");
    string_table.get_shared_string_index("abcdefg   ");
    shared_strings.assemble_xml_file(&string_table);
    let got = shared_strings.writer.read_to_str();
    let expected = "<?xml version=\"1.0\" encoding=\"UTF-8\" standalone=\"yes\"?>\n\
        <sst xmlns=\"http://schemas.openxmlformats.org/spreadsheetml/2006/main\" count=\"3\" uniqueCount=\"3\">\
        <si><t>abcdefg</t></si>\
        <si><t xml:space=\"preserve\">   abcdefg</t></si>\
        <si><t xml:space=\"preserve\">abcdefg   </t></si>\
        </sst>";
    assert_eq!(got, expected);
}
