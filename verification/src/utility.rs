//! Cell-reference strings, sheet-name quoting, the weak password hash
//! and the pixel-width metrics used by autofit.

use crate::render::{dec_u64, spec_digit};
use crate::spec_dec_u64;
use vstd::prelude::*;
use vstd::string::*;

verus! {

/// The column letter for `r` in `1 ..= 26`: `'A' ..= 'Z'`.
pub open spec fn spec_col_letter(r: nat) -> char {
    if r == 1 {
        'A'
    } else if r == 2 {
        'B'
    } else if r == 3 {
        'C'
    } else if r == 4 {
        'D'
    } else if r == 5 {
        'E'
    } else if r == 6 {
        'F'
    } else if r == 7 {
        'G'
    } else if r == 8 {
        'H'
    } else if r == 9 {
        'I'
    } else if r == 10 {
        'J'
    } else if r == 11 {
        'K'
    } else if r == 12 {
        'L'
    } else if r == 13 {
        'M'
    } else if r == 14 {
        'N'
    } else if r == 15 {
        'O'
    } else if r == 16 {
        'P'
    } else if r == 17 {
        'Q'
    } else if r == 18 {
        'R'
    } else if r == 19 {
        'S'
    } else if r == 20 {
        'T'
    } else if r == 21 {
        'U'
    } else if r == 22 {
        'V'
    } else if r == 23 {
        'W'
    } else if r == 24 {
        'X'
    } else if r == 25 {
        'Y'
    } else {
        'Z'
    }
}

fn col_letter_str(r: u64) -> (s: &'static str)
    requires
        1 <= r <= 26,
    ensures
        s@ == seq![spec_col_letter(r as nat)],
{
    proof {
        reveal_strlit("A");
        reveal_strlit("B");
        reveal_strlit("C");
        reveal_strlit("D");
        reveal_strlit("E");
        reveal_strlit("F");
        reveal_strlit("G");
        reveal_strlit("H");
        reveal_strlit("I");
        reveal_strlit("J");
        reveal_strlit("K");
        reveal_strlit("L");
        reveal_strlit("M");
        reveal_strlit("N");
        reveal_strlit("O");
        reveal_strlit("P");
        reveal_strlit("Q");
        reveal_strlit("R");
        reveal_strlit("S");
        reveal_strlit("T");
        reveal_strlit("U");
        reveal_strlit("V");
        reveal_strlit("W");
        reveal_strlit("X");
        reveal_strlit("Y");
        reveal_strlit("Z");
    }
    if r == 1 {
        "A"
    } else if r == 2 {
        "B"
    } else if r == 3 {
        "C"
    } else if r == 4 {
        "D"
    } else if r == 5 {
        "E"
    } else if r == 6 {
        "F"
    } else if r == 7 {
        "G"
    } else if r == 8 {
        "H"
    } else if r == 9 {
        "I"
    } else if r == 10 {
        "J"
    } else if r == 11 {
        "K"
    } else if r == 12 {
        "L"
    } else if r == 13 {
        "M"
    } else if r == 14 {
        "N"
    } else if r == 15 {
        "O"
    } else if r == 16 {
        "P"
    } else if r == 17 {
        "Q"
    } else if r == 18 {
        "R"
    } else if r == 19 {
        "S"
    } else if r == 20 {
        "T"
    } else if r == 21 {
        "U"
    } else if r == 22 {
        "V"
    } else if r == 23 {
        "W"
    } else if r == 24 {
        "X"
    } else if r == 25 {
        "Y"
    } else {
        "Z"
    }
}

/// The letters for the one-based column number `n`, in bijective base 26:
/// 1 is `A`, 26 is `Z`, 27 is `AA`.
pub open spec fn spec_col_letters(n: nat) -> Seq<char>
    decreases n,
{
    if n == 0 {
        Seq::empty()
    } else {
        let r: nat = if n % 26 == 0 {
            26
        } else {
            n % 26
        };
        spec_col_letters(((n - 1) / 26) as nat) + seq![spec_col_letter(r)]
    }
}

/// The name of the zero-based column `col`: 0 is `A`, 16383 is `XFD`.
pub open spec fn spec_col_name(col: nat) -> Seq<char> {
    spec_col_letters(col + 1)
}

fn col_letters(n: u64) -> (s: String)
    ensures
        s@ == spec_col_letters(n as nat),
    decreases n,
{
    if n == 0 {
        String::new()
    } else {
        let rem = n % 26;
        let r: u64 = if rem == 0 {
            26
        } else {
            rem
        };
        let mut s = col_letters((n - 1) / 26);
        s.append(col_letter_str(r));
        s
    }
}

/// Convert a zero indexed column cell reference to a string.
pub fn col_to_name(col_num: u16) -> (s: String)
    ensures
        s@ == spec_col_name(col_num as nat),
{
    col_letters(col_num as u64 + 1)
}

/// The `A1`-style reference of the zero-based cell `(row, col)`.
pub open spec fn spec_cell_name(row: nat, col: nat) -> Seq<char> {
    spec_col_name(col) + spec_dec_u64(row + 1)
}

/// Convert a zero indexed row and column cell reference to an `A1`-style
/// string.
pub fn rowcol_to_cell(row_num: u32, col_num: u16) -> (s: String)
    ensures
        s@ == spec_cell_name(row_num as nat, col_num as nat),
{
    let mut s = col_to_name(col_num);
    let d = dec_u64(row_num as u64 + 1);
    s.append(d.as_str());
    s
}

/// The `$A$1`-style absolute reference of the zero-based cell
/// `(row, col)`.
pub open spec fn spec_cell_name_abs(row: nat, col: nat) -> Seq<char> {
    "$"@ + spec_col_name(col) + "$"@ + spec_dec_u64(row + 1)
}

/// Convert a zero indexed row and column cell reference to an absolute
/// `$A$1`-style string.
pub fn rowcol_to_cell_abs(row_num: u32, col_num: u16) -> (s: String)
    ensures
        s@ == spec_cell_name_abs(row_num as nat, col_num as nat),
{
    let mut s = String::from_str("$");
    let c = col_to_name(col_num);
    s.append(c.as_str());
    s.append("$");
    let d = dec_u64(row_num as u64 + 1);
    s.append(d.as_str());
    proof {
        assert(s@ =~= spec_cell_name_abs(row_num as nat, col_num as nat));
    }
    s
}

/// The `A1:B1`-style range string: a single cell when the two corners
/// coincide.
pub open spec fn spec_range_name(
    first_row: nat,
    first_col: nat,
    last_row: nat,
    last_col: nat,
) -> Seq<char> {
    if spec_cell_name(first_row, first_col) == spec_cell_name(last_row, last_col) {
        spec_cell_name(first_row, first_col)
    } else {
        spec_cell_name(first_row, first_col) + ":"@ + spec_cell_name(last_row, last_col)
    }
}

/// Convert zero indexed row and column cell references to an `A1:B1`-style
/// range string.
pub fn cell_range(first_row: u32, first_col: u16, last_row: u32, last_col: u16) -> (s: String)
    ensures
        s@ == spec_range_name(first_row as nat, first_col as nat, last_row as nat, last_col as nat),
{
    let range1 = rowcol_to_cell(first_row, first_col);
    let range2 = rowcol_to_cell(last_row, last_col);
    if range1 == range2 {
        range1
    } else {
        let mut s = range1;
        s.append(":");
        s.append(range2.as_str());
        proof {
            assert(s@ =~= spec_cell_name(first_row as nat, first_col as nat) + ":"@
                + spec_cell_name(last_row as nat, last_col as nat));
        }
        s
    }
}

/// The `$A$1:$B$1`-style absolute range string.
pub open spec fn spec_range_name_abs(
    first_row: nat,
    first_col: nat,
    last_row: nat,
    last_col: nat,
) -> Seq<char> {
    if spec_cell_name_abs(first_row, first_col) == spec_cell_name_abs(last_row, last_col) {
        spec_cell_name_abs(first_row, first_col)
    } else {
        spec_cell_name_abs(first_row, first_col) + ":"@ + spec_cell_name_abs(last_row, last_col)
    }
}

/// Convert zero indexed row and column cell references to an absolute
/// `$A$1:$B$1`-style range string.
pub fn cell_range_abs(first_row: u32, first_col: u16, last_row: u32, last_col: u16) -> (s: String)
    ensures
        s@ == spec_range_name_abs(
            first_row as nat,
            first_col as nat,
            last_row as nat,
            last_col as nat,
        ),
{
    let range1 = rowcol_to_cell_abs(first_row, first_col);
    let range2 = rowcol_to_cell_abs(last_row, last_col);
    if range1 == range2 {
        range1
    } else {
        let mut s = range1;
        s.append(":");
        s.append(range2.as_str());
        proof {
            assert(s@ =~= spec_cell_name_abs(first_row as nat, first_col as nat) + ":"@
                + spec_cell_name_abs(last_row as nat, last_col as nat));
        }
        s
    }
}

/// A sheet name with each apostrophe doubled.
pub open spec fn spec_escape_apostrophes(s: Seq<char>) -> Seq<char>
    decreases s.len(),
{
    if s.len() == 0 {
        Seq::empty()
    } else {
        spec_escape_apostrophes(s.drop_last()) + (if s.last() == '\'' {
            "''"@
        } else {
            seq![s.last()]
        })
    }
}

/// Whether Excel quotes the sheet name when it is used in a formula.
pub open spec fn spec_sheetname_needs_quoting(s: Seq<char>) -> bool {
    exists|i: int| 0 <= i < s.len() && (s[i] == ' ' || s[i] == '!' || s[i] == '\'')
}

/// The quoted form of a sheet name: names already quoted are kept;
/// names with a space, `!` or apostrophe are escaped and quoted.
pub open spec fn spec_quote_sheetname(s: Seq<char>) -> Seq<char> {
    if s.len() > 0 && s[0] == '\'' {
        s
    } else if spec_sheetname_needs_quoting(s) {
        "'"@ + spec_escape_apostrophes(s) + "'"@
    } else {
        s
    }
}

/// Create a quoted version of a worksheet name.
pub fn quote_sheetname(sheetname: &str) -> (r: String)
    ensures
        r@ == spec_quote_sheetname(sheetname@),
{
    let n = sheetname.unicode_len();
    if n > 0 && sheetname.get_char(0) == '\'' {
        return String::from_str(sheetname);
    }
    let mut escaped = String::new();
    let mut needs = false;
    let mut i: usize = 0;
    while i < n
        invariant
            i <= n,
            n == sheetname@.len(),
            escaped@ == spec_escape_apostrophes(sheetname@.subrange(0, i as int)),
            needs == spec_sheetname_needs_quoting(sheetname@.subrange(0, i as int)),
        decreases n - i,
    {
        let c = sheetname.get_char(i);
        proof {
            let pre = sheetname@.subrange(0, i as int);
            let post = sheetname@.subrange(0, i + 1 as int);
            assert(post.drop_last() =~= pre);
            assert(post.last() == sheetname@[i as int]);
            if c == ' ' || c == '!' || c == '\'' {
                assert(spec_sheetname_needs_quoting(post)) by {
                    assert(post[i as int] == c);
                }
            } else {
                assert(spec_sheetname_needs_quoting(post) == spec_sheetname_needs_quoting(pre))
                    by {
                    if spec_sheetname_needs_quoting(post) {
                        let j = choose|j: int|
                            0 <= j < post.len() && (post[j] == ' ' || post[j] == '!' || post[j]
                                == '\'');
                        assert(j < i as int);
                        assert(pre[j] == post[j]);
                    }
                    if spec_sheetname_needs_quoting(pre) {
                        let j = choose|j: int|
                            0 <= j < pre.len() && (pre[j] == ' ' || pre[j] == '!' || pre[j]
                                == '\'');
                        assert(post[j] == pre[j]);
                    }
                }
            }
        }
        if c == '\'' {
            escaped.append("''");
            needs = true;
        } else {
            crate::render::push_char(&mut escaped, c);
            if c == ' ' || c == '!' {
                needs = true;
            }
        }
        i = i + 1;
    }
    proof {
        assert(sheetname@.subrange(0, n as int) =~= sheetname@);
    }
    if needs {
        let mut s = String::from_str("'");
        s.append(escaped.as_str());
        s.append("'");
        proof {
            assert(s@ =~= "'"@ + spec_escape_apostrophes(sheetname@) + "'"@);
        }
        s
    } else {
        String::from_str(sheetname)
    }
}

/// One step of the weak password hash: rotate the 15-bit accumulator
/// left by one.
pub open spec fn spec_rotate15(h: u16) -> u16 {
    ((h >> 14) & 1u16) | ((h << 1) & 0x7fffu16)
}

/// The accumulator after folding in every byte of `bs`, last byte first.
pub open spec fn spec_hash_fold(bs: Seq<u8>) -> u16
    decreases bs.len(),
{
    if bs.len() == 0 {
        0u16
    } else {
        spec_rotate15(spec_hash_fold(bs.drop_first())) ^ (bs.first() as u16)
    }
}

/// Excel's 16-bit weak password hash: the byte fold, one more rotation,
/// then XOR with the byte length and the constant `0xCE4B`.
pub open spec fn spec_password_hash(bs: Seq<u8>) -> u16 {
    spec_rotate15(spec_hash_fold(bs)) ^ (bs.len() as u16) ^ 0xCE4Bu16
}

/// Hash a worksheet password with Excel's weak hashing scheme.
pub fn hash_password(password: &str) -> (h: u16)
    ensures
        h == spec_password_hash(password.spec_bytes()),
{
    let bytes = password.as_bytes();
    let n = bytes.len();
    let mut hash: u16 = 0;
    let mut i: usize = n;
    while i > 0
        invariant
            i <= n,
            n == bytes@.len(),
            bytes@ == password.spec_bytes(),
            hash == spec_hash_fold(bytes@.subrange(i as int, n as int)),
        decreases i,
    {
        i = i - 1;
        let b = bytes[i];
        hash = ((hash >> 14) & 1u16) | ((hash << 1) & 0x7fffu16);
        hash = hash ^ (b as u16);
        proof {
            let tail = bytes@.subrange(i + 1 as int, n as int);
            let cur = bytes@.subrange(i as int, n as int);
            assert(cur.drop_first() =~= tail);
            assert(cur.first() == bytes@[i as int]);
        }
    }
    proof {
        assert(bytes@.subrange(0, n as int) =~= bytes@);
    }
    hash = ((hash >> 14) & 1u16) | ((hash << 1) & 0x7fffu16);
    hash = hash ^ (password.len() as u16);
    hash = hash ^ 0xCE4Bu16;
    hash
}

/// The approximate pixel width of one character in Calibri 11, the
/// metrics autofit uses.
pub open spec fn spec_char_pixel_width(c: char) -> int {
    if c == ' ' || c == '\'' {
        3
    } else if c == ',' || c == '.' || c == ':' || c == ';' || c == 'I' || c == 'i' || c == 'j'
        || c == 'l' || c == '`' || c == '!' || c == '|' {
        4
    } else if c == 'M' || c == 'W' || c == '@' {
        12
    } else if c == 'm' || c == 'w' {
        11
    } else {
        7
    }
}

/// The pixel width of a string: the sum of its characters' widths.
pub open spec fn spec_pixel_width(s: Seq<char>) -> int
    decreases s.len(),
{
    if s.len() == 0 {
        0
    } else {
        spec_pixel_width(s.drop_last()) + spec_char_pixel_width(s.last())
    }
}

proof fn lemma_pixel_width_bound(s: Seq<char>)
    ensures
        0 <= spec_pixel_width(s) <= 12 * s.len(),
    decreases s.len(),
{
    if s.len() > 0 {
        lemma_pixel_width_bound(s.drop_last());
    }
}

/// Measure the pixel width of a string, for column autofit.
pub fn pixel_width(s: &str) -> (w: u32)
    requires
        s@.len() <= 0xFFFF_FFFFint / 12,
    ensures
        w == spec_pixel_width(s@),
{
    let n = s.unicode_len();
    let mut w: u32 = 0;
    let mut i: usize = 0;
    while i < n
        invariant
            i <= n,
            n == s@.len(),
            n <= 0xFFFF_FFFFint / 12,
            w == spec_pixel_width(s@.subrange(0, i as int)),
        decreases n - i,
    {
        proof {
            lemma_pixel_width_bound(s@.subrange(0, i as int));
        }
        let c = s.get_char(i);
        let cw: u32 = if c == ' ' || c == '\'' {
            3
        } else if c == ',' || c == '.' || c == ':' || c == ';' || c == 'I' || c == 'i' || c == 'j'
            || c == 'l' || c == '`' || c == '!' || c == '|' {
            4
        } else if c == 'M' || c == 'W' || c == '@' {
            12
        } else if c == 'm' || c == 'w' {
            11
        } else {
            7
        };
        w = w + cw;
        proof {
            let pre = s@.subrange(0, i as int);
            let post = s@.subrange(0, i + 1 as int);
            assert(post.drop_last() =~= pre);
            assert(post.last() == s@[i as int]);
        }
        i = i + 1;
    }
    proof {
        assert(s@.subrange(0, n as int) =~= s@);
    }
    w
}

} // verus!
