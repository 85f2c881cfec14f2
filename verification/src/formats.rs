//! Cell formats: fonts, alignment, borders, fills, number formats,
//! protection bits, and the colors they use.
//!
//! Two formats with the same properties are one format: the worksheet
//! deduplicates them by the structural equality defined here, so the
//! styles table carries every used format exactly once.

use crate::render::{dec_u64, spec_hex_fixed};
use crate::spec_dec_u64;
use vstd::prelude::*;
use vstd::string::*;

verus! {

use crate::xmlwriter::push_attr;
use crate::xmlwriter::push_attr_string;

/// A color for fonts, fills, borders and worksheet tabs.
#[derive(Clone, Copy, Debug, PartialEq, Eq, Structural)]
pub enum XlsxColor {
    /// A user defined RGB color in the range 0x000000 to 0xFFFFFF.
    RGB(u32),
    /// A theme palette color `(color, shade)` with `color` in `0 ..= 9`
    /// and `shade` in `0 ..= 5`.
    Theme(u8, u8),
    /// The default color of the property.
    Default,
    /// The automatic, system defined color.
    Automatic,
    /// Black, RGB 0x000000.
    Black,
    /// Blue, RGB 0x0000FF.
    Blue,
    /// Brown, RGB 0x800000.
    Brown,
    /// Cyan, RGB 0x00FFFF.
    Cyan,
    /// Gray, RGB 0x808080.
    Gray,
    /// Green, RGB 0x008000.
    Green,
    /// Lime, RGB 0x00FF00.
    Lime,
    /// Magenta, RGB 0xFF00FF.
    Magenta,
    /// Navy, RGB 0x000080.
    Navy,
    /// Orange, RGB 0xFF6600.
    Orange,
    /// Pink, RGB 0xFFC0CB.
    Pink,
    /// Purple, RGB 0x800080.
    Purple,
    /// Red, RGB 0xFF0000.
    Red,
    /// Silver, RGB 0xC0C0C0.
    Silver,
    /// White, RGB 0xFFFFFF.
    White,
    /// Yellow, RGB 0xFFFF00.
    Yellow,
}

/// The RGB value behind a color; theme and default colors fall back to
/// black.
pub open spec fn spec_color_rgb(c: XlsxColor) -> nat {
    match c {
        XlsxColor::RGB(v) => v as nat,
        XlsxColor::Blue => 0x0000FF,
        XlsxColor::Brown => 0x800000,
        XlsxColor::Cyan => 0x00FFFF,
        XlsxColor::Gray => 0x808080,
        XlsxColor::Green => 0x008000,
        XlsxColor::Lime => 0x00FF00,
        XlsxColor::Magenta => 0xFF00FF,
        XlsxColor::Navy => 0x000080,
        XlsxColor::Orange => 0xFF6600,
        XlsxColor::Pink => 0xFFC0CB,
        XlsxColor::Purple => 0x800080,
        XlsxColor::Red => 0xFF0000,
        XlsxColor::Silver => 0xC0C0C0,
        XlsxColor::White => 0xFFFFFF,
        XlsxColor::Yellow => 0xFFFF00,
        _ => 0,
    }
}

/// Whether the color's parameters are in range.
pub open spec fn spec_color_is_valid(c: XlsxColor) -> bool {
    match c {
        XlsxColor::RGB(v) => v <= 0xFFFFFF,
        XlsxColor::Theme(color, shade) => color <= 9 && shade <= 5,
        _ => true,
    }
}

/// The tint literal Excel writes for theme shade `(color, shade)`, or
/// the empty string for shade 0. Excel's exact decimal literals are
/// kept verbatim.
pub open spec fn spec_theme_tint(color: u8, shade: u8) -> Seq<char> {
    if color == 0 {
        if shade == 1 {
            "-4.9989318521683403E-2"@
        } else if shade == 2 {
            "-0.14999847407452621"@
        } else if shade == 3 {
            "-0.249977111117893"@
        } else if shade == 4 {
            "-0.34998626667073579"@
        } else if shade == 5 {
            "-0.499984740745262"@
        } else {
            Seq::empty()
        }
    } else if color == 1 {
        if shade == 1 {
            "0.499984740745262"@
        } else if shade == 2 {
            "0.34998626667073579"@
        } else if shade == 3 {
            "0.249977111117893"@
        } else if shade == 4 {
            "0.14999847407452621"@
        } else if shade == 5 {
            "4.9989318521683403E-2"@
        } else {
            Seq::empty()
        }
    } else if color == 2 {
        if shade == 1 {
            "-9.9978637043366805E-2"@
        } else if shade == 2 {
            "-0.249977111117893"@
        } else if shade == 3 {
            "-0.499984740745262"@
        } else if shade == 4 {
            "-0.749992370372631"@
        } else if shade == 5 {
            "-0.89999084444715716"@
        } else {
            Seq::empty()
        }
    } else {
        if shade == 1 {
            "0.79998168889431442"@
        } else if shade == 2 {
            "0.59999389629810485"@
        } else if shade == 3 {
            "0.39997558519241921"@
        } else if shade == 4 {
            "-0.249977111117893"@
        } else if shade == 5 {
            "-0.499984740745262"@
        } else {
            Seq::empty()
        }
    }
}

/// The `rgb=` or `theme=`/`tint=` attributes a color writes in
/// `styles.xml`.
pub open spec fn spec_color_attributes(c: XlsxColor) -> Seq<(Seq<char>, Seq<char>)> {
    match c {
        XlsxColor::Theme(color, shade) => {
            if shade == 0 || shade > 5 {
                seq![("theme"@, spec_dec_u64(color as nat))]
            } else {
                seq![("theme"@, spec_dec_u64(color as nat)), ("tint"@, spec_theme_tint(color, shade))]
            }
        },
        _ => seq![("rgb"@, "FF"@ + spec_hex_fixed(spec_color_rgb(c), 6))],
    }
}

impl XlsxColor {
    /// Whether the color is the default.
    pub fn is_default(&self) -> (r: bool)
        ensures
            r == (*self == XlsxColor::Default),
    {
        matches!(self, XlsxColor::Default)
    }

    /// Whether the color is anything but the default.
    pub fn is_not_default(&self) -> (r: bool)
        ensures
            r == (*self != XlsxColor::Default),
    {
        !self.is_default()
    }

    /// Whether the color is the default or the automatic color, the two
    /// that style elements omit.
    pub fn is_auto_or_default(&self) -> (r: bool)
        ensures
            r == (*self == XlsxColor::Default || *self == XlsxColor::Automatic),
    {
        matches!(self, XlsxColor::Default | XlsxColor::Automatic)
    }

    /// Check that RGB and theme parameters are in range.
    pub fn is_valid(self) -> (r: bool)
        ensures
            r == spec_color_is_valid(self),
    {
        match self {
            XlsxColor::RGB(v) => v <= 0xFFFFFF,
            XlsxColor::Theme(color, shade) => color <= 9 && shade <= 5,
            _ => true,
        }
    }

    /// The six-digit RGB hex value of the color (the value taken modulo
    /// `16^6`).
    pub fn rgb_hex_value(self) -> (r: String)
        ensures
            r@ == spec_hex_fixed(spec_color_rgb(self), 6),
    {
        let v: u32 = match self {
            XlsxColor::RGB(v) => v,
            XlsxColor::Blue => 0x0000FF,
            XlsxColor::Brown => 0x800000,
            XlsxColor::Cyan => 0x00FFFF,
            XlsxColor::Gray => 0x808080,
            XlsxColor::Green => 0x008000,
            XlsxColor::Lime => 0x00FF00,
            XlsxColor::Magenta => 0xFF00FF,
            XlsxColor::Navy => 0x000080,
            XlsxColor::Orange => 0xFF6600,
            XlsxColor::Pink => 0xFFC0CB,
            XlsxColor::Purple => 0x800080,
            XlsxColor::Red => 0xFF0000,
            XlsxColor::Silver => 0xC0C0C0,
            XlsxColor::White => 0xFFFFFF,
            XlsxColor::Yellow => 0xFFFF00,
            _ => 0,
        };
        crate::render::hex_fixed(v as u64, 6)
    }

    /// The eight-digit ARGB hex value; the alpha channel is always FF.
    pub fn argb_hex_value(self) -> (r: String)
        ensures
            r@ == "FF"@ + spec_hex_fixed(spec_color_rgb(self), 6),
    {
        let mut s = String::from_str("FF");
        let hexval = self.rgb_hex_value();
        s.append(hexval.as_str());
        s
    }

    /// The attribute list the color writes in style elements.
    pub fn attributes(self) -> (r: Vec<(String, String)>)
        ensures
            r.deep_view() == spec_color_attributes(self),
    {
        let mut attrs: Vec<(String, String)> = Vec::new();
        match self {
            XlsxColor::Theme(color, shade) => {
                push_attr_string(&mut attrs, "theme", dec_u64(color as u64));
                if shade >= 1 && shade <= 5 {
                    let tint: &str = Self::theme_tint_str(color, shade);
                    push_attr(&mut attrs, "tint", tint);
                }
            },
            _ => {
                push_attr_string(&mut attrs, "rgb", self.argb_hex_value());
            },
        }
        proof {
            assert(attrs.deep_view() =~= spec_color_attributes(self));
        }
        attrs
    }

    /// The tint literal of a theme shade.
    fn theme_tint_str(color: u8, shade: u8) -> (r: &'static str)
        requires
            1 <= shade <= 5,
    // the literals below are revealed, so the equality is by text

        ensures
            r@ == spec_theme_tint(color, shade),
    {
        proof {
            reveal_strlit("-4.9989318521683403E-2");
            reveal_strlit("-0.14999847407452621");
            reveal_strlit("-0.249977111117893");
            reveal_strlit("-0.34998626667073579");
            reveal_strlit("-0.499984740745262");
            reveal_strlit("0.499984740745262");
            reveal_strlit("0.34998626667073579");
            reveal_strlit("0.249977111117893");
            reveal_strlit("0.14999847407452621");
            reveal_strlit("4.9989318521683403E-2");
            reveal_strlit("-9.9978637043366805E-2");
            reveal_strlit("-0.749992370372631");
            reveal_strlit("-0.89999084444715716");
            reveal_strlit("0.79998168889431442");
            reveal_strlit("0.59999389629810485");
            reveal_strlit("0.39997558519241921");
        }
        if color == 0 {
            if shade == 1 {
                "-4.9989318521683403E-2"
            } else if shade == 2 {
                "-0.14999847407452621"
            } else if shade == 3 {
                "-0.249977111117893"
            } else if shade == 4 {
                "-0.34998626667073579"
            } else {
                "-0.499984740745262"
            }
        } else if color == 1 {
            if shade == 1 {
                "0.499984740745262"
            } else if shade == 2 {
                "0.34998626667073579"
            } else if shade == 3 {
                "0.249977111117893"
            } else if shade == 4 {
                "0.14999847407452621"
            } else {
                "4.9989318521683403E-2"
            }
        } else if color == 2 {
            if shade == 1 {
                "-9.9978637043366805E-2"
            } else if shade == 2 {
                "-0.249977111117893"
            } else if shade == 3 {
                "-0.499984740745262"
            } else if shade == 4 {
                "-0.749992370372631"
            } else {
                "-0.89999084444715716"
            }
        } else {
            if shade == 1 {
                "0.79998168889431442"
            } else if shade == 2 {
                "0.59999389629810485"
            } else if shade == 3 {
                "0.39997558519241921"
            } else if shade == 4 {
                "-0.249977111117893"
            } else {
                "-0.499984740745262"
            }
        }
    }

    /// The chart scheme name and luminance modulation/offset values of a
    /// theme color; other colors give an empty name.
    pub fn chart_scheme(self) -> (r: (String, u32, u32))
        ensures
            (r.0@, r.1, r.2) == spec_chart_scheme(self),
    {
        match self {
            XlsxColor::Theme(color, shade) => {
                let name: &'static str = if color == 0 {
                    "bg1"
                } else if color == 1 {
                    "tx1"
                } else if color == 2 {
                    "bg2"
                } else if color == 3 {
                    "tx2"
                } else if color == 4 {
                    "accent1"
                } else if color == 5 {
                    "accent2"
                } else if color == 6 {
                    "accent3"
                } else if color == 7 {
                    "accent4"
                } else if color == 8 {
                    "accent5"
                } else if color == 9 {
                    "accent6"
                } else {
                    ""
                };
                if color > 9 || shade > 5 {
                    (String::new(), 0, 0)
                } else {
                    let (lum_mod, lum_off) = Self::scheme_lum(color, shade);
                    proof {
                        reveal_strlit("bg1");
                        reveal_strlit("tx1");
                        reveal_strlit("bg2");
                        reveal_strlit("tx2");
                        reveal_strlit("accent1");
                        reveal_strlit("accent2");
                        reveal_strlit("accent3");
                        reveal_strlit("accent4");
                        reveal_strlit("accent5");
                        reveal_strlit("accent6");
                        reveal_strlit("");
                    }
                    (String::from_str(name), lum_mod, lum_off)
                }
            },
            _ => (String::new(), 0, 0),
        }
    }

    /// The luminance pair of a theme shade.
    fn scheme_lum(color: u8, shade: u8) -> (r: (u32, u32))
        requires
            color <= 9,
            shade <= 5,
        ensures
            r.0 == spec_scheme_lum(color, shade).0,
            r.1 == spec_scheme_lum(color, shade).1,
    {
        if color == 0 {
            if shade == 0 {
                (0, 0)
            } else if shade == 1 {
                (95000, 0)
            } else if shade == 2 {
                (85000, 0)
            } else if shade == 3 {
                (75000, 0)
            } else if shade == 4 {
                (65000, 0)
            } else {
                (50000, 0)
            }
        } else if color == 1 {
            if shade == 0 {
                (0, 0)
            } else if shade == 1 {
                (50000, 50000)
            } else if shade == 2 {
                (65000, 35000)
            } else if shade == 3 {
                (75000, 25000)
            } else if shade == 4 {
                (85000, 15000)
            } else {
                (95000, 5000)
            }
        } else if color == 2 {
            if shade == 0 {
                (0, 0)
            } else if shade == 1 {
                (90000, 0)
            } else if shade == 2 {
                (75000, 0)
            } else if shade == 3 {
                (50000, 0)
            } else if shade == 4 {
                (25000, 0)
            } else {
                (10000, 0)
            }
        } else {
            if shade == 0 {
                (0, 0)
            } else if shade == 1 {
                (20000, 80000)
            } else if shade == 2 {
                (40000, 60000)
            } else if shade == 3 {
                (60000, 40000)
            } else if shade == 4 {
                (75000, 0)
            } else {
                (50000, 0)
            }
        }
    }
}

/// The luminance modulation and offset of a theme shade in charts.
pub open spec fn spec_scheme_lum(color: u8, shade: u8) -> (u32, u32) {
    if color == 0 {
        if shade == 0 {
            (0u32, 0u32)
        } else if shade == 1 {
            (95000u32, 0u32)
        } else if shade == 2 {
            (85000u32, 0u32)
        } else if shade == 3 {
            (75000u32, 0u32)
        } else if shade == 4 {
            (65000u32, 0u32)
        } else {
            (50000u32, 0u32)
        }
    } else if color == 1 {
        if shade == 0 {
            (0u32, 0u32)
        } else if shade == 1 {
            (50000u32, 50000u32)
        } else if shade == 2 {
            (65000u32, 35000u32)
        } else if shade == 3 {
            (75000u32, 25000u32)
        } else if shade == 4 {
            (85000u32, 15000u32)
        } else {
            (95000u32, 5000u32)
        }
    } else if color == 2 {
        if shade == 0 {
            (0u32, 0u32)
        } else if shade == 1 {
            (90000u32, 0u32)
        } else if shade == 2 {
            (75000u32, 0u32)
        } else if shade == 3 {
            (50000u32, 0u32)
        } else if shade == 4 {
            (25000u32, 0u32)
        } else {
            (10000u32, 0u32)
        }
    } else {
        if shade == 0 {
            (0u32, 0u32)
        } else if shade == 1 {
            (20000u32, 80000u32)
        } else if shade == 2 {
            (40000u32, 60000u32)
        } else if shade == 3 {
            (60000u32, 40000u32)
        } else if shade == 4 {
            (75000u32, 0u32)
        } else {
            (50000u32, 0u32)
        }
    }
}

/// The chart scheme triple of a color: name, luminance modulation,
/// luminance offset.
pub open spec fn spec_chart_scheme(c: XlsxColor) -> (Seq<char>, u32, u32) {
    match c {
        XlsxColor::Theme(color, shade) => {
            if color > 9 || shade > 5 {
                (Seq::<char>::empty(), 0u32, 0u32)
            } else {
                let name = if color == 0 {
                    "bg1"@
                } else if color == 1 {
                    "tx1"@
                } else if color == 2 {
                    "bg2"@
                } else if color == 3 {
                    "tx2"@
                } else if color == 4 {
                    "accent1"@
                } else if color == 5 {
                    "accent2"@
                } else if color == 6 {
                    "accent3"@
                } else if color == 7 {
                    "accent4"@
                } else if color == 8 {
                    "accent5"@
                } else {
                    "accent6"@
                };
                (name, spec_scheme_lum(color, shade).0, spec_scheme_lum(color, shade).1)
            }
        },
        _ => (Seq::<char>::empty(), 0u32, 0u32),
    }
}

/// Types that convert into an [`XlsxColor`].
pub trait IntoColor {
    /// The color the value stands for.
    spec fn spec_color(self) -> XlsxColor;

    /// Turn the value into a color.
    fn new_color(self) -> (r: XlsxColor)
        ensures
            r == self.spec_color(),
    ;
}

impl IntoColor for XlsxColor {
    open spec fn spec_color(self) -> XlsxColor {
        self
    }

    fn new_color(self) -> XlsxColor {
        self
    }
}

impl IntoColor for u32 {
    open spec fn spec_color(self) -> XlsxColor {
        XlsxColor::RGB(self)
    }

    fn new_color(self) -> XlsxColor {
        XlsxColor::RGB(self)
    }
}

/// The value of a hexadecimal digit character, or -1.
pub open spec fn spec_hex_char_val(c: char) -> int {
    if '0' <= c <= '9' {
        c as int - '0' as int
    } else if 'a' <= c <= 'f' {
        c as int - 'a' as int + 10
    } else if 'A' <= c <= 'F' {
        c as int - 'A' as int + 10
    } else {
        -1
    }
}

/// Whether every character of `s` is a hexadecimal digit, and `s` is
/// not empty.
pub open spec fn spec_hex_valid(s: Seq<char>) -> bool {
    s.len() > 0 && forall|i: int| 0 <= i < s.len() ==> spec_hex_char_val(s[i]) >= 0
}

/// The value of a hexadecimal digit string.
pub open spec fn spec_hex_value(s: Seq<char>) -> int
    decreases s.len(),
{
    if s.len() == 0 {
        0
    } else {
        spec_hex_value(s.drop_last()) * 16 + spec_hex_char_val(s.last())
    }
}

/// The color an HTML-style string stands for: its hex value with an
/// optional `#` prefix, or the default color when it does not parse.
pub open spec fn spec_str_color(s: Seq<char>) -> XlsxColor {
    let t = if s.len() > 0 && s[0] == '#' {
        s.drop_first()
    } else {
        s
    };
    if spec_hex_valid(t) && spec_hex_value(t) <= u32::MAX {
        XlsxColor::RGB(spec_hex_value(t) as u32)
    } else {
        XlsxColor::Default
    }
}

proof fn lemma_hex_value_nonneg(s: Seq<char>)
    requires
        forall|i: int| 0 <= i < s.len() ==> spec_hex_char_val(s[i]) >= 0,
    ensures
        spec_hex_value(s) >= 0,
    decreases s.len(),
{
    if s.len() > 0 {
        lemma_hex_value_nonneg(s.drop_last());
    }
}

fn parse_hex_digits(s: &str, from: usize) -> (r: XlsxColor)
    requires
        from <= s@.len(),
    ensures
        ({
            let t = s@.subrange(from as int, s@.len() as int);
            r == (if spec_hex_valid(t) && spec_hex_value(t) <= u32::MAX {
                XlsxColor::RGB(spec_hex_value(t) as u32)
            } else {
                XlsxColor::Default
            })
        }),
{
    let n = s.unicode_len();
    let ghost t = s@.subrange(from as int, n as int);
    if from == n {
        return XlsxColor::Default;
    }
    let mut acc: u64 = 0;
    let mut i: usize = from;
    while i < n
        invariant
            from <= i <= n,
            n == s@.len(),
            t == s@.subrange(from as int, n as int),
            acc == spec_hex_value(s@.subrange(from as int, i as int)),
            acc <= u32::MAX,
            forall|j: int| 0 <= j < i - from ==> #[trigger] spec_hex_char_val(t[j]) >= 0,
        decreases n - i,
    {
        let c = s.get_char(i);
        let d: u64 = if c >= '0' && c <= '9' {
            (c as u32 - '0' as u32) as u64
        } else if c >= 'a' && c <= 'f' {
            (c as u32 - 'a' as u32 + 10) as u64
        } else if c >= 'A' && c <= 'F' {
            (c as u32 - 'A' as u32 + 10) as u64
        } else {
            proof {
                assert(t[i - from] == s@[i as int]);
                assert(spec_hex_char_val(t[i - from]) < 0);
                assert(!spec_hex_valid(t));
            }
            return XlsxColor::Default;
        };
        acc = acc * 16 + d;
        proof {
            let pre = s@.subrange(from as int, i as int);
            let post = s@.subrange(from as int, i + 1 as int);
            assert(post.drop_last() =~= pre);
            assert(post.last() == s@[i as int]);
            assert(spec_hex_char_val(s@[i as int]) == d);
            assert(t[i - from] == s@[i as int]);
        }
        if acc > u32::MAX as u64 {
            proof {
                let post = s@.subrange(from as int, i + 1 as int);
                assert(t.subrange(0, i + 1 - from) =~= post);
                lemma_hex_value_bigger_suffix(t, i + 1 - from);
            }
            return XlsxColor::Default;
        }
        i = i + 1;
    }
    proof {
        assert(s@.subrange(from as int, n as int) =~= s@.subrange(from as int, i as int));
        assert(spec_hex_valid(t)) by {
            assert(forall|j: int| 0 <= j < t.len() ==> spec_hex_char_val(t[j]) >= 0);
        }
    }
    XlsxColor::RGB(acc as u32)
}

/// When a prefix of a hex string already exceeds `u32::MAX`, so does
/// any longer prefix, and in particular the whole string whenever it
/// is valid.
proof fn lemma_hex_value_bigger_suffix(s: Seq<char>, k: int)
    requires
        0 <= k <= s.len(),
        spec_hex_value(s.subrange(0, k)) > u32::MAX,
    ensures
        spec_hex_valid(s) ==> spec_hex_value(s) > u32::MAX,
    decreases s.len() - k,
{
    if k < s.len() {
        let next = s.subrange(0, k + 1);
        assert(next.drop_last() =~= s.subrange(0, k));
        if spec_hex_valid(s) {
            assert(spec_hex_char_val(next.last()) >= 0) by {
                assert(next.last() == s[k]);
            }
            assert(spec_hex_value(next) == spec_hex_value(s.subrange(0, k)) * 16
                + spec_hex_char_val(next.last()));
        }
        lemma_hex_value_bigger_suffix(s, k + 1);
    } else {
        assert(s.subrange(0, k) =~= s);
    }
}

impl IntoColor for &str {
    open spec fn spec_color(self) -> XlsxColor {
        spec_str_color(self@)
    }

    fn new_color(self) -> (r: XlsxColor) {
        let n = self.unicode_len();
        if n > 0 && self.get_char(0) == '#' {
            let r = parse_hex_digits(self, 1);
            proof {
                assert(self@.subrange(1, n as int) =~= self@.drop_first());
            }
            r
        } else {
            let r = parse_hex_digits(self, 0);
            proof {
                assert(self@.subrange(0, n as int) =~= self@);
            }
            r
        }
    }
}

/// The pattern of a cell fill.
#[derive(Clone, Copy, Debug, PartialEq, Eq, Structural)]
pub enum FormatPattern {
    /// No pattern.
    NoPattern,
    /// A solid fill.
    Solid,
    /// Medium gray pattern.
    MediumGray,
    /// Dark gray pattern.
    DarkGray,
    /// Light gray pattern.
    LightGray,
    /// Dark horizontal lines.
    DarkHorizontal,
    /// Dark vertical lines.
    DarkVertical,
    /// Dark diagonal down lines.
    DarkDown,
    /// Dark diagonal up lines.
    DarkUp,
    /// Dark grid.
    DarkGrid,
    /// Dark trellis.
    DarkTrellis,
    /// Light horizontal lines.
    LightHorizontal,
    /// Light vertical lines.
    LightVertical,
    /// Light diagonal down lines.
    LightDown,
    /// Light diagonal up lines.
    LightUp,
    /// Light grid.
    LightGrid,
    /// Light trellis.
    LightTrellis,
    /// 12.5% gray.
    Gray125,
    /// 6.25% gray.
    Gray0625,
}

/// The SpreadsheetML name of a fill pattern.
pub open spec fn spec_pattern_name(p: FormatPattern) -> Seq<char> {
    match p {
        FormatPattern::NoPattern => "none"@,
        FormatPattern::Solid => "solid"@,
        FormatPattern::MediumGray => "mediumGray"@,
        FormatPattern::DarkGray => "darkGray"@,
        FormatPattern::LightGray => "lightGray"@,
        FormatPattern::DarkHorizontal => "darkHorizontal"@,
        FormatPattern::DarkVertical => "darkVertical"@,
        FormatPattern::DarkDown => "darkDown"@,
        FormatPattern::DarkUp => "darkUp"@,
        FormatPattern::DarkGrid => "darkGrid"@,
        FormatPattern::DarkTrellis => "darkTrellis"@,
        FormatPattern::LightHorizontal => "lightHorizontal"@,
        FormatPattern::LightVertical => "lightVertical"@,
        FormatPattern::LightDown => "lightDown"@,
        FormatPattern::LightUp => "lightUp"@,
        FormatPattern::LightGrid => "lightGrid"@,
        FormatPattern::LightTrellis => "lightTrellis"@,
        FormatPattern::Gray125 => "gray125"@,
        FormatPattern::Gray0625 => "gray0625"@,
    }
}

impl FormatPattern {
    /// The SpreadsheetML name of the pattern.
    pub fn xml_name(self) -> (r: &'static str)
        ensures
            r@ == spec_pattern_name(self),
    {
        match self {
            FormatPattern::NoPattern => "none",
            FormatPattern::Solid => "solid",
            FormatPattern::MediumGray => "mediumGray",
            FormatPattern::DarkGray => "darkGray",
            FormatPattern::LightGray => "lightGray",
            FormatPattern::DarkHorizontal => "darkHorizontal",
            FormatPattern::DarkVertical => "darkVertical",
            FormatPattern::DarkDown => "darkDown",
            FormatPattern::DarkUp => "darkUp",
            FormatPattern::DarkGrid => "darkGrid",
            FormatPattern::DarkTrellis => "darkTrellis",
            FormatPattern::LightHorizontal => "lightHorizontal",
            FormatPattern::LightVertical => "lightVertical",
            FormatPattern::LightDown => "lightDown",
            FormatPattern::LightUp => "lightUp",
            FormatPattern::LightGrid => "lightGrid",
            FormatPattern::LightTrellis => "lightTrellis",
            FormatPattern::Gray125 => "gray125",
            FormatPattern::Gray0625 => "gray0625",
        }
    }
}

/// The style of a cell border edge.
#[derive(Clone, Copy, Debug, PartialEq, Eq, Structural)]
pub enum FormatBorder {
    /// No border.
    NoBorder,
    /// Thin border.
    Thin,
    /// Medium border.
    Medium,
    /// Dashed border.
    Dashed,
    /// Dotted border.
    Dotted,
    /// Thick border.
    Thick,
    /// Double border.
    Double,
    /// Hairline border.
    Hair,
    /// Medium dashed border.
    MediumDashed,
    /// Dash-dot border.
    DashDot,
    /// Medium dash-dot border.
    MediumDashDot,
    /// Dash-dot-dot border.
    DashDotDot,
    /// Medium dash-dot-dot border.
    MediumDashDotDot,
    /// Slanted dash-dot border.
    SlantDashDot,
}

/// The SpreadsheetML name of a border style.
pub open spec fn spec_border_name(b: FormatBorder) -> Seq<char> {
    match b {
        FormatBorder::NoBorder => "none"@,
        FormatBorder::Thin => "thin"@,
        FormatBorder::Medium => "medium"@,
        FormatBorder::Dashed => "dashed"@,
        FormatBorder::Dotted => "dotted"@,
        FormatBorder::Thick => "thick"@,
        FormatBorder::Double => "double"@,
        FormatBorder::Hair => "hair"@,
        FormatBorder::MediumDashed => "mediumDashed"@,
        FormatBorder::DashDot => "dashDot"@,
        FormatBorder::MediumDashDot => "mediumDashDot"@,
        FormatBorder::DashDotDot => "dashDotDot"@,
        FormatBorder::MediumDashDotDot => "mediumDashDotDot"@,
        FormatBorder::SlantDashDot => "slantDashDot"@,
    }
}

impl FormatBorder {
    /// The SpreadsheetML name of the border style.
    pub fn xml_name(self) -> (r: &'static str)
        ensures
            r@ == spec_border_name(self),
    {
        match self {
            FormatBorder::NoBorder => "none",
            FormatBorder::Thin => "thin",
            FormatBorder::Medium => "medium",
            FormatBorder::Dashed => "dashed",
            FormatBorder::Dotted => "dotted",
            FormatBorder::Thick => "thick",
            FormatBorder::Double => "double",
            FormatBorder::Hair => "hair",
            FormatBorder::MediumDashed => "mediumDashed",
            FormatBorder::DashDot => "dashDot",
            FormatBorder::MediumDashDot => "mediumDashDot",
            FormatBorder::DashDotDot => "dashDotDot",
            FormatBorder::MediumDashDotDot => "mediumDashDotDot",
            FormatBorder::SlantDashDot => "slantDashDot",
        }
    }
}

/// The diagonal border kind of a cell.
#[derive(Clone, Copy, Debug, PartialEq, Eq, Structural)]
pub enum FormatDiagonalBorder {
    /// No diagonal border.
    NoDiagonal,
    /// A border from bottom left to top right.
    BorderUp,
    /// A border from top left to bottom right.
    BorderDown,
    /// Borders in both directions.
    BorderUpDown,
}

/// The underline style of a font.
#[derive(Clone, Copy, Debug, PartialEq, Eq, Structural)]
pub enum FormatUnderline {
    /// No underline.
    NoUnderline,
    /// A single underline under the text.
    Single,
    /// A double underline under the text.
    Double,
    /// A single accounting underline under the whole cell.
    SingleAccounting,
    /// A double accounting underline under the whole cell.
    DoubleAccounting,
}

/// The super/subscript property of a font.
#[derive(Clone, Copy, Debug, PartialEq, Eq, Structural)]
pub enum FormatScript {
    /// Normal text.
    NoScript,
    /// Superscript.
    Superscript,
    /// Subscript.
    Subscript,
}

/// Horizontal and vertical cell alignment.
#[derive(Clone, Copy, Debug, PartialEq, Eq, Structural)]
pub enum FormatAlign {
    /// The default alignment of the data type.
    General,
    /// Align left.
    Left,
    /// Center horizontally.
    Center,
    /// Align right.
    Right,
    /// Fill the cell with repeated text.
    Fill,
    /// Justify horizontally.
    Justify,
    /// Center across the selection.
    CenterAcross,
    /// Distribute the words across the cell.
    Distributed,
    /// Align to the top.
    Top,
    /// Align to the bottom.
    Bottom,
    /// Center vertically.
    VerticalCenter,
    /// Justify vertically.
    VerticalJustify,
    /// Distribute the words from top to bottom.
    VerticalDistributed,
}

/// The alignment properties of a format.
#[derive(Clone, Copy, Debug, PartialEq, Eq, Structural)]
pub struct Alignment {
    /// The horizontal alignment.
    pub horizontal: FormatAlign,
    /// The vertical alignment.
    pub vertical: FormatAlign,
    /// Wrap the cell text.
    pub text_wrap: bool,
    /// The text rotation: `0 ..= 180` or the vertical marker 255.
    pub rotation: i16,
    /// The indentation level.
    pub indent: u8,
    /// Shrink the text to fit the cell.
    pub shrink: bool,
    /// The reading direction: 0, 1 (left to right) or 2 (right to left).
    pub reading_direction: u8,
}

impl Alignment {
    /// The default alignment.
    pub fn new() -> (r: Alignment)
        ensures
            r == Alignment::spec_default(),
    {
        Alignment {
            horizontal: FormatAlign::General,
            vertical: FormatAlign::General,
            text_wrap: false,
            rotation: 0,
            indent: 0,
            shrink: false,
            reading_direction: 0,
        }
    }

    /// The default alignment value.
    pub open spec fn spec_default() -> Alignment {
        Alignment {
            horizontal: FormatAlign::General,
            vertical: FormatAlign::General,
            text_wrap: false,
            rotation: 0,
            indent: 0,
            shrink: false,
            reading_direction: 0,
        }
    }
}

/// The border properties of a format.
#[derive(Clone, Copy, Debug, PartialEq, Eq, Structural)]
pub struct Border {
    /// The bottom edge style.
    pub bottom_style: FormatBorder,
    /// The top edge style.
    pub top_style: FormatBorder,
    /// The left edge style.
    pub left_style: FormatBorder,
    /// The right edge style.
    pub right_style: FormatBorder,
    /// The bottom edge color.
    pub bottom_color: XlsxColor,
    /// The top edge color.
    pub top_color: XlsxColor,
    /// The left edge color.
    pub left_color: XlsxColor,
    /// The right edge color.
    pub right_color: XlsxColor,
    /// The diagonal border style.
    pub diagonal_style: FormatBorder,
    /// The diagonal border color.
    pub diagonal_color: XlsxColor,
    /// The diagonal border kind.
    pub diagonal_type: FormatDiagonalBorder,
}

impl Border {
    /// A border with no edges drawn.
    pub fn new() -> (r: Border)
        ensures
            r == Border::spec_default(),
    {
        Border {
            bottom_style: FormatBorder::NoBorder,
            top_style: FormatBorder::NoBorder,
            left_style: FormatBorder::NoBorder,
            right_style: FormatBorder::NoBorder,
            bottom_color: XlsxColor::Default,
            top_color: XlsxColor::Default,
            left_color: XlsxColor::Default,
            right_color: XlsxColor::Default,
            diagonal_style: FormatBorder::NoBorder,
            diagonal_color: XlsxColor::Default,
            diagonal_type: FormatDiagonalBorder::NoDiagonal,
        }
    }

    /// The default border value.
    pub open spec fn spec_default() -> Border {
        Border {
            bottom_style: FormatBorder::NoBorder,
            top_style: FormatBorder::NoBorder,
            left_style: FormatBorder::NoBorder,
            right_style: FormatBorder::NoBorder,
            bottom_color: XlsxColor::Default,
            top_color: XlsxColor::Default,
            left_color: XlsxColor::Default,
            right_color: XlsxColor::Default,
            diagonal_style: FormatBorder::NoBorder,
            diagonal_color: XlsxColor::Default,
            diagonal_type: FormatDiagonalBorder::NoDiagonal,
        }
    }
}

/// The fill properties of a format.
#[derive(Clone, Copy, Debug, PartialEq, Eq, Structural)]
pub struct Fill {
    /// The foreground (pattern) color.
    pub foreground_color: XlsxColor,
    /// The background color.
    pub background_color: XlsxColor,
    /// The fill pattern.
    pub pattern: FormatPattern,
}

impl Fill {
    /// An empty fill.
    pub fn new() -> (r: Fill)
        ensures
            r == Fill::spec_default(),
    {
        Fill {
            foreground_color: XlsxColor::Default,
            background_color: XlsxColor::Default,
            pattern: FormatPattern::NoPattern,
        }
    }

    /// The default fill value.
    pub open spec fn spec_default() -> Fill {
        Fill {
            foreground_color: XlsxColor::Default,
            background_color: XlsxColor::Default,
            pattern: FormatPattern::NoPattern,
        }
    }
}

/// The font properties of a format.
#[derive(Clone, Debug)]
pub struct Font {
    /// Bold text.
    pub bold: bool,
    /// Italic text.
    pub italic: bool,
    /// The underline style.
    pub underline: FormatUnderline,
    /// The font name.
    pub name: String,
    /// The font size, as the decimal text Excel writes.
    pub size: String,
    /// The font color.
    pub color: XlsxColor,
    /// Struck-through text.
    pub strikethrough: bool,
    /// Super/subscript.
    pub script: FormatScript,
    /// The font family.
    pub family: u8,
    /// The font character set.
    pub charset: u8,
    /// The font scheme.
    pub scheme: String,
    /// Whether the font is the hyperlink style font.
    pub is_hyperlink: bool,
}

/// Whether two fonts have the same properties, comparing text fields
/// by content.
pub open spec fn spec_font_eq(a: Font, b: Font) -> bool {
    a.bold == b.bold && a.italic == b.italic && a.underline == b.underline && a.name@ == b.name@
        && a.size@ == b.size@ && a.color == b.color && a.strikethrough == b.strikethrough
        && a.script == b.script && a.family == b.family && a.charset == b.charset && a.scheme@
        == b.scheme@ && a.is_hyperlink == b.is_hyperlink
}

/// Whether a font has its default properties.
pub open spec fn spec_font_is_default(f: Font) -> bool {
    !f.bold && !f.italic && f.underline == FormatUnderline::NoUnderline && f.name@ == "Calibri"@ && f.size@
        == "11"@ && f.color == XlsxColor::Default && !f.strikethrough && f.script
        == FormatScript::NoScript && f.family == 2 && f.charset == 0 && f.scheme@ == "minor"@
        && !f.is_hyperlink
}

impl Font {
    /// The default font: Calibri 11 on the minor scheme.
    pub fn new() -> (r: Font)
        ensures
            spec_font_is_default(r),
    {
        Font {
            bold: false,
            italic: false,
            underline: FormatUnderline::NoUnderline,
            name: String::from_str("Calibri"),
            size: String::from_str("11"),
            color: XlsxColor::Default,
            strikethrough: false,
            script: FormatScript::NoScript,
            family: 2,
            charset: 0,
            scheme: String::from_str("minor"),
            is_hyperlink: false,
        }
    }

    /// Whether two fonts have the same properties.
    pub fn eq_fields(&self, other: &Font) -> (r: bool)
        ensures
            r == spec_font_eq(*self, *other),
    {
        self.bold == other.bold && self.italic == other.italic && self.underline == other.underline
            && self.name == other.name && self.size == other.size && self.color == other.color
            && self.strikethrough == other.strikethrough && self.script == other.script
            && self.family == other.family && self.charset == other.charset && self.scheme
            == other.scheme && self.is_hyperlink == other.is_hyperlink
    }
}

/// A cell format: number format, font, alignment, fill, borders and
/// protection bits, plus the style-table indices the workbook assigns
/// at save time.
#[derive(Clone, Debug)]
pub struct Format {
    /// The workbook-global format index, set when styles are assembled.
    pub xf_index: u32,
    /// The index into the deduplicated font table.
    pub font_index: u16,
    /// The index into the deduplicated fill table.
    pub fill_index: u16,
    /// The index into the deduplicated border table.
    pub border_index: u16,
    /// Whether this format owns the font at `font_index`.
    pub has_font: bool,
    /// Whether this format owns the fill at `fill_index`.
    pub has_fill: bool,
    /// Whether this format owns the border at `border_index`.
    pub has_border: bool,
    /// A number format string, or empty for none.
    pub num_format: String,
    /// A builtin number format index, 0 for none.
    pub num_format_index: u16,
    /// The font properties.
    pub font: Font,
    /// The alignment properties.
    pub alignment: Alignment,
    /// The border properties.
    pub borders: Border,
    /// The fill properties.
    pub fill: Fill,
    /// Hide formulas in a protected sheet.
    pub hidden: bool,
    /// Lock the cell in a protected sheet.
    pub locked: bool,
    /// Prefix the cell content with an apostrophe.
    pub quote_prefix: bool,
}

/// Whether two formats have the same properties. The style-table
/// indices do not take part: they are assigned from these properties.
/// Kept opaque so that contracts carrying it stay cheap; proofs that
/// need its parts reveal it.
#[verifier::opaque]
pub open spec fn spec_format_eq(a: Format, b: Format) -> bool {
    spec_font_eq(a.font, b.font) && a.alignment == b.alignment && a.borders == b.borders && a.fill
        == b.fill && a.num_format@ == b.num_format@ && a.num_format_index == b.num_format_index
        && a.hidden == b.hidden && a.locked == b.locked && a.quote_prefix == b.quote_prefix
}

/// Whether a format has only default properties.
pub open spec fn spec_format_is_default(f: Format) -> bool {
    spec_font_is_default(f.font) && f.alignment == Alignment::spec_default() && f.borders
        == Border::spec_default() && f.fill == Fill::spec_default() && f.num_format@
        == Seq::<char>::empty() && f.num_format_index == 0 && !f.hidden && f.locked
        && !f.quote_prefix
}

impl PartialEq for Format {
    /// Formats are equal when their properties are, whatever indices
    /// the style table has assigned so far.
    fn eq(&self, other: &Self) -> (r: bool) {
        self.eq_fields(other)
    }
}

impl vstd::std_specs::cmp::PartialEqSpecImpl for Format {
    open spec fn obeys_eq_spec() -> bool {
        true
    }

    open spec fn eq_spec(&self, other: &Format) -> bool {
        spec_format_eq(*self, *other)
    }
}

impl Eq for Format {}

impl Format {
    /// A format with every property at its default.
    pub fn new() -> (r: Format)
        ensures
            spec_format_is_default(r),
            r.xf_index == 0,
            r.font_index == 0,
            r.fill_index == 0,
            r.border_index == 0,
            !r.has_font,
            !r.has_fill,
            !r.has_border,
    {
        Format {
            xf_index: 0,
            font_index: 0,
            fill_index: 0,
            border_index: 0,
            has_font: false,
            has_fill: false,
            has_border: false,
            num_format: String::new(),
            num_format_index: 0,
            font: Font::new(),
            alignment: Alignment::new(),
            borders: Border::new(),
            fill: Fill::new(),
            hidden: false,
            locked: true,
            quote_prefix: false,
        }
    }

    /// An exact copy of the format.
    pub fn duplicate(&self) -> (r: Format)
        ensures
            r == *self,
    {
        Format {
            xf_index: self.xf_index,
            font_index: self.font_index,
            fill_index: self.fill_index,
            border_index: self.border_index,
            has_font: self.has_font,
            has_fill: self.has_fill,
            has_border: self.has_border,
            num_format: self.num_format.clone(),
            num_format_index: self.num_format_index,
            font: Font {
                bold: self.font.bold,
                italic: self.font.italic,
                underline: self.font.underline,
                name: self.font.name.clone(),
                size: self.font.size.clone(),
                color: self.font.color,
                strikethrough: self.font.strikethrough,
                script: self.font.script,
                family: self.font.family,
                charset: self.font.charset,
                scheme: self.font.scheme.clone(),
                is_hyperlink: self.font.is_hyperlink,
            },
            alignment: self.alignment,
            borders: self.borders,
            fill: self.fill,
            hidden: self.hidden,
            locked: self.locked,
            quote_prefix: self.quote_prefix,
        }
    }

    /// Whether two formats have the same properties.
    pub fn eq_fields(&self, other: &Format) -> (r: bool)
        ensures
            r == spec_format_eq(*self, *other),
    {
        proof {
            reveal(spec_format_eq);
        }
        self.font.eq_fields(&other.font) && self.alignment == other.alignment && self.borders
            == other.borders && self.fill == other.fill && self.num_format == other.num_format
            && self.num_format_index == other.num_format_index && self.hidden == other.hidden
            && self.locked == other.locked && self.quote_prefix == other.quote_prefix
    }

    /// Whether the format has only default properties.
    pub fn is_default(&self) -> (r: bool)
        ensures
            r == spec_format_is_default(*self),
    {
        proof {
            reveal(spec_format_eq);
        }
        let d = Format::new();
        self.eq_fields(&d)
    }

    /// Record the workbook-global format index.
    pub fn set_xf_index(&mut self, index: u32)
        ensures
            *final(self) == (Format { xf_index: index, ..*old(self) }),
    {
        self.xf_index = index;
    }

    /// Record the font table index.
    pub fn set_font_index(&mut self, font_index: u16, has_font: bool)
        ensures
            *final(self) == (Format { font_index, has_font, ..*old(self) }),
    {
        self.font_index = font_index;
        self.has_font = has_font;
    }

    /// Record the fill table index.
    pub fn set_fill_index(&mut self, fill_index: u16, has_fill: bool)
        ensures
            *final(self) == (Format { fill_index, has_fill, ..*old(self) }),
    {
        self.fill_index = fill_index;
        self.has_fill = has_fill;
    }

    /// Record the border table index.
    pub fn set_border_index(&mut self, border_index: u16, has_border: bool)
        ensures
            *final(self) == (Format { border_index, has_border, ..*old(self) }),
    {
        self.border_index = border_index;
        self.has_border = has_border;
    }

    /// Record the resolved number format index.
    pub fn set_num_format_index_u16(&mut self, num_format_index: u16)
        ensures
            *final(self) == (Format { num_format_index, ..*old(self) }),
    {
        self.num_format_index = num_format_index;
    }

    /// Whether the format needs an `<alignment>` element. Excel treats
    /// bottom vertical alignment as the default.
    pub open spec fn spec_has_alignment(self) -> bool {
        self.alignment.horizontal != FormatAlign::General || !(self.alignment.vertical
            == FormatAlign::General || self.alignment.vertical == FormatAlign::Bottom)
            || self.alignment.indent != 0 || self.alignment.rotation != 0
            || self.alignment.text_wrap || self.alignment.shrink
            || self.alignment.reading_direction != 0
    }

    /// Whether the format needs an `<alignment>` element.
    pub fn has_alignment(&self) -> (r: bool)
        ensures
            r == self.spec_has_alignment(),
    {
        self.alignment.horizontal != FormatAlign::General || !(self.alignment.vertical
            == FormatAlign::General || self.alignment.vertical == FormatAlign::Bottom)
            || self.alignment.indent != 0 || self.alignment.rotation != 0
            || self.alignment.text_wrap || self.alignment.shrink
            || self.alignment.reading_direction != 0
    }

    /// Whether the format needs the `applyAlignment` attribute.
    pub open spec fn spec_apply_alignment(self) -> bool {
        self.alignment.horizontal != FormatAlign::General || self.alignment.vertical
            != FormatAlign::General || self.alignment.indent != 0 || self.alignment.rotation != 0
            || self.alignment.text_wrap || self.alignment.shrink
            || self.alignment.reading_direction != 0
    }

    /// Whether the format needs the `applyAlignment` attribute.
    pub fn apply_alignment(&self) -> (r: bool)
        ensures
            r == self.spec_apply_alignment(),
    {
        self.alignment.horizontal != FormatAlign::General || self.alignment.vertical
            != FormatAlign::General || self.alignment.indent != 0 || self.alignment.rotation != 0
            || self.alignment.text_wrap || self.alignment.shrink
            || self.alignment.reading_direction != 0
    }

    /// Whether the format sets protection properties.
    pub open spec fn spec_has_protection(self) -> bool {
        self.hidden || !self.locked
    }

    /// Whether the format sets protection properties.
    pub fn has_protection(&self) -> (r: bool)
        ensures
            r == self.spec_has_protection(),
    {
        self.hidden || !self.locked
    }

    /// Set the number format string.
    pub fn set_num_format(self, num_format: &str) -> (r: Format)
        ensures
            r == (Format { num_format: r.num_format, ..self }),
            r.num_format@ == num_format@,
    {
        let mut f = self;
        f.num_format = String::from_str(num_format);
        f
    }

    /// Set a builtin number format index.
    pub fn set_num_format_index(self, num_format_index: u8) -> (r: Format)
        ensures
            r == (Format { num_format_index: num_format_index as u16, ..self }),
    {
        let mut f = self;
        f.num_format_index = num_format_index as u16;
        f
    }

    /// Turn bold on.
    pub fn set_bold(self) -> (r: Format)
        ensures
            r == (Format { font: Font { bold: true, ..self.font }, ..self }),
    {
        let mut f = self;
        f.font.bold = true;
        f
    }

    /// Turn bold off.
    pub fn unset_bold(self) -> (r: Format)
        ensures
            r == (Format { font: Font { bold: false, ..self.font }, ..self }),
    {
        let mut f = self;
        f.font.bold = false;
        f
    }

    /// Turn italic on.
    pub fn set_italic(self) -> (r: Format)
        ensures
            r == (Format { font: Font { italic: true, ..self.font }, ..self }),
    {
        let mut f = self;
        f.font.italic = true;
        f
    }

    /// Turn italic off.
    pub fn unset_italic(self) -> (r: Format)
        ensures
            r == (Format { font: Font { italic: false, ..self.font }, ..self }),
    {
        let mut f = self;
        f.font.italic = false;
        f
    }

    /// Set the font color; out-of-range colors leave it unchanged.
    pub fn set_font_color<T: IntoColor>(self, color: T) -> (r: Format)
        ensures
            r == if spec_color_is_valid(color.spec_color()) {
                Format { font: Font { color: color.spec_color(), ..self.font }, ..self }
            } else {
                self
            },
    {
        let c = color.new_color();
        if c.is_valid() {
            let mut f = self;
            f.font.color = c;
            f
        } else {
            self
        }
    }

    /// Set the font name; a font other than Calibri clears the scheme.
    pub fn set_font_name(self, font_name: &str) -> (r: Format)
        ensures
            r.font.name@ == font_name@,
            font_name@ == "Calibri"@ ==> r == (Format {
                font: Font { name: r.font.name, ..self.font },
                ..self
            }),
            font_name@ != "Calibri"@ ==> r == (Format {
                font: Font { name: r.font.name, scheme: r.font.scheme, ..self.font },
                ..self
            }) && r.font.scheme@ == Seq::<char>::empty(),
    {
        let mut f = self;
        f.font.name = String::from_str(font_name);
        let calibri = String::from_str("Calibri");
        if !(f.font.name == calibri) {
            f.font.scheme = String::new();
        }
        f
    }

    /// Set the font size, given in hundredths of a point.
    pub fn set_font_size(self, size_hundredths: u32) -> (r: Format)
        ensures
            r == (Format { font: Font { size: r.font.size, ..self.font }, ..self }),
            r.font.size@ == spec_render_hundredths(size_hundredths as nat),
    {
        let mut f = self;
        f.font.size = render_hundredths(size_hundredths);
        f
    }

    /// Set the font scheme.
    pub fn set_font_scheme(self, font_scheme: &str) -> (r: Format)
        ensures
            r == (Format { font: Font { scheme: r.font.scheme, ..self.font }, ..self }),
            r.font.scheme@ == font_scheme@,
    {
        let mut f = self;
        f.font.scheme = String::from_str(font_scheme);
        f
    }

    /// Set the font family.
    pub fn set_font_family(self, font_family: u8) -> (r: Format)
        ensures
            r == (Format { font: Font { family: font_family, ..self.font }, ..self }),
    {
        let mut f = self;
        f.font.family = font_family;
        f
    }

    /// Set the font character set.
    pub fn set_font_charset(self, font_charset: u8) -> (r: Format)
        ensures
            r == (Format { font: Font { charset: font_charset, ..self.font }, ..self }),
    {
        let mut f = self;
        f.font.charset = font_charset;
        f
    }

    /// Set the underline style.
    pub fn set_underline(self, underline: FormatUnderline) -> (r: Format)
        ensures
            r == (Format { font: Font { underline, ..self.font }, ..self }),
    {
        let mut f = self;
        f.font.underline = underline;
        f
    }

    /// Turn strikethrough on.
    pub fn set_font_strikethrough(self) -> (r: Format)
        ensures
            r == (Format { font: Font { strikethrough: true, ..self.font }, ..self }),
    {
        let mut f = self;
        f.font.strikethrough = true;
        f
    }

    /// Turn strikethrough off.
    pub fn unset_font_strikethrough(self) -> (r: Format)
        ensures
            r == (Format { font: Font { strikethrough: false, ..self.font }, ..self }),
    {
        let mut f = self;
        f.font.strikethrough = false;
        f
    }

    /// Set super/subscript.
    pub fn set_font_script(self, font_script: FormatScript) -> (r: Format)
        ensures
            r == (Format { font: Font { script: font_script, ..self.font }, ..self }),
    {
        let mut f = self;
        f.font.script = font_script;
        f
    }

    /// Set a horizontal or vertical alignment; `General` resets both.
    pub fn set_align(self, align: FormatAlign) -> (r: Format)
        ensures
            r == (Format { alignment: spec_aligned(self.alignment, align), ..self }),
    {
        let mut f = self;
        match align {
            FormatAlign::General => {
                f.alignment.horizontal = FormatAlign::General;
                f.alignment.vertical = FormatAlign::General;
            },
            FormatAlign::Center
            | FormatAlign::CenterAcross
            | FormatAlign::Distributed
            | FormatAlign::Fill
            | FormatAlign::Justify
            | FormatAlign::Left
            | FormatAlign::Right => {
                f.alignment.horizontal = align;
            },
            FormatAlign::Bottom
            | FormatAlign::Top
            | FormatAlign::VerticalCenter
            | FormatAlign::VerticalDistributed
            | FormatAlign::VerticalJustify => {
                f.alignment.vertical = align;
            },
        }
        f
    }

    /// Turn text wrapping on.
    pub fn set_text_wrap(self) -> (r: Format)
        ensures
            r == (Format { alignment: Alignment { text_wrap: true, ..self.alignment }, ..self }),
    {
        let mut f = self;
        f.alignment.text_wrap = true;
        f
    }

    /// Turn text wrapping off.
    pub fn unset_text_wrap(self) -> (r: Format)
        ensures
            r == (Format { alignment: Alignment { text_wrap: false, ..self.alignment }, ..self }),
    {
        let mut f = self;
        f.alignment.text_wrap = false;
        f
    }

    /// Set the indentation level.
    pub fn set_indent(self, indent: u8) -> (r: Format)
        ensures
            r == (Format { alignment: Alignment { indent, ..self.alignment }, ..self }),
    {
        let mut f = self;
        f.alignment.indent = indent;
        f
    }

    /// Set the text rotation: `-90 ..= 90` degrees or 270 for stacked
    /// text; anything else leaves the format unchanged.
    pub fn set_rotation(self, rotation: i16) -> (r: Format)
        ensures
            r == (Format { alignment: spec_rotated(self.alignment, rotation as int), ..self }),
    {
        let mut f = self;
        if rotation == 270 {
            f.alignment.rotation = 255;
        } else if -90 <= rotation && rotation <= -1 {
            f.alignment.rotation = -rotation + 90;
        } else if 0 <= rotation && rotation <= 90 {
            f.alignment.rotation = rotation;
        }
        f
    }

    /// Set the reading direction: 0, 1 or 2; anything else leaves the
    /// format unchanged.
    pub fn set_reading_direction(self, reading_direction: u8) -> (r: Format)
        ensures
            r == if reading_direction <= 2 {
                Format {
                    alignment: Alignment { reading_direction, ..self.alignment },
                    ..self
                }
            } else {
                self
            },
    {
        if reading_direction > 2 {
            return self;
        }
        let mut f = self;
        f.alignment.reading_direction = reading_direction;
        f
    }

    /// Turn shrink-to-fit on.
    pub fn set_shrink(self) -> (r: Format)
        ensures
            r == (Format { alignment: Alignment { shrink: true, ..self.alignment }, ..self }),
    {
        let mut f = self;
        f.alignment.shrink = true;
        f
    }

    /// Turn shrink-to-fit off.
    pub fn unset_shrink(self) -> (r: Format)
        ensures
            r == (Format { alignment: Alignment { shrink: false, ..self.alignment }, ..self }),
    {
        let mut f = self;
        f.alignment.shrink = false;
        f
    }

    /// Set the fill pattern.
    pub fn set_pattern(self, pattern: FormatPattern) -> (r: Format)
        ensures
            r == (Format { fill: Fill { pattern, ..self.fill }, ..self }),
    {
        let mut f = self;
        f.fill.pattern = pattern;
        f
    }

    /// Set the background color; out-of-range colors leave it unchanged.
    pub fn set_background_color<T: IntoColor>(self, color: T) -> (r: Format)
        ensures
            r == if spec_color_is_valid(color.spec_color()) {
                Format { fill: Fill { background_color: color.spec_color(), ..self.fill }, ..self }
            } else {
                self
            },
    {
        let c = color.new_color();
        if c.is_valid() {
            let mut f = self;
            f.fill.background_color = c;
            f
        } else {
            self
        }
    }

    /// Set the foreground color; out-of-range colors leave it unchanged.
    pub fn set_foreground_color<T: IntoColor>(self, color: T) -> (r: Format)
        ensures
            r == if spec_color_is_valid(color.spec_color()) {
                Format { fill: Fill { foreground_color: color.spec_color(), ..self.fill }, ..self }
            } else {
                self
            },
    {
        let c = color.new_color();
        if c.is_valid() {
            let mut f = self;
            f.fill.foreground_color = c;
            f
        } else {
            self
        }
    }

    /// Set all four border edges to one style.
    pub fn set_border(self, border: FormatBorder) -> (r: Format)
        ensures
            r == (Format {
                borders: Border {
                    top_style: border,
                    left_style: border,
                    right_style: border,
                    bottom_style: border,
                    ..self.borders
                },
                ..self
            }),
    {
        let mut f = self;
        f.borders.top_style = border;
        f.borders.left_style = border;
        f.borders.right_style = border;
        f.borders.bottom_style = border;
        f
    }

    /// Set all four border edge colors; out-of-range colors leave them
    /// unchanged.
    pub fn set_border_color<T: IntoColor>(self, color: T) -> (r: Format)
        ensures
            r == if spec_color_is_valid(color.spec_color()) {
                Format {
                    borders: Border {
                        top_color: color.spec_color(),
                        left_color: color.spec_color(),
                        right_color: color.spec_color(),
                        bottom_color: color.spec_color(),
                        ..self.borders
                    },
                    ..self
                }
            } else {
                self
            },
    {
        let c = color.new_color();
        if !c.is_valid() {
            return self;
        }
        let mut f = self;
        f.borders.top_color = c;
        f.borders.left_color = c;
        f.borders.right_color = c;
        f.borders.bottom_color = c;
        f
    }

    /// Set the top border style.
    pub fn set_border_top(self, border: FormatBorder) -> (r: Format)
        ensures
            r == (Format { borders: Border { top_style: border, ..self.borders }, ..self }),
    {
        let mut f = self;
        f.borders.top_style = border;
        f
    }

    /// Set the top border color; out-of-range colors leave it unchanged.
    pub fn set_border_top_color<T: IntoColor>(self, color: T) -> (r: Format)
        ensures
            r == if spec_color_is_valid(color.spec_color()) {
                Format {
                    borders: Border { top_color: color.spec_color(), ..self.borders },
                    ..self
                }
            } else {
                self
            },
    {
        let c = color.new_color();
        if !c.is_valid() {
            return self;
        }
        let mut f = self;
        f.borders.top_color = c;
        f
    }

    /// Set the bottom border style.
    pub fn set_border_bottom(self, border: FormatBorder) -> (r: Format)
        ensures
            r == (Format { borders: Border { bottom_style: border, ..self.borders }, ..self }),
    {
        let mut f = self;
        f.borders.bottom_style = border;
        f
    }

    /// Set the bottom border color; out-of-range colors leave it
    /// unchanged.
    pub fn set_border_bottom_color<T: IntoColor>(self, color: T) -> (r: Format)
        ensures
            r == if spec_color_is_valid(color.spec_color()) {
                Format {
                    borders: Border { bottom_color: color.spec_color(), ..self.borders },
                    ..self
                }
            } else {
                self
            },
    {
        let c = color.new_color();
        if !c.is_valid() {
            return self;
        }
        let mut f = self;
        f.borders.bottom_color = c;
        f
    }

    /// Set the left border style.
    pub fn set_border_left(self, border: FormatBorder) -> (r: Format)
        ensures
            r == (Format { borders: Border { left_style: border, ..self.borders }, ..self }),
    {
        let mut f = self;
        f.borders.left_style = border;
        f
    }

    /// Set the left border color; out-of-range colors leave it unchanged.
    pub fn set_border_left_color<T: IntoColor>(self, color: T) -> (r: Format)
        ensures
            r == if spec_color_is_valid(color.spec_color()) {
                Format {
                    borders: Border { left_color: color.spec_color(), ..self.borders },
                    ..self
                }
            } else {
                self
            },
    {
        let c = color.new_color();
        if !c.is_valid() {
            return self;
        }
        let mut f = self;
        f.borders.left_color = c;
        f
    }

    /// Set the right border style.
    pub fn set_border_right(self, border: FormatBorder) -> (r: Format)
        ensures
            r == (Format { borders: Border { right_style: border, ..self.borders }, ..self }),
    {
        let mut f = self;
        f.borders.right_style = border;
        f
    }

    /// Set the right border color; out-of-range colors leave it
    /// unchanged.
    pub fn set_border_right_color<T: IntoColor>(self, color: T) -> (r: Format)
        ensures
            r == if spec_color_is_valid(color.spec_color()) {
                Format {
                    borders: Border { right_color: color.spec_color(), ..self.borders },
                    ..self
                }
            } else {
                self
            },
    {
        let c = color.new_color();
        if !c.is_valid() {
            return self;
        }
        let mut f = self;
        f.borders.right_color = c;
        f
    }

    /// Set the diagonal border style.
    pub fn set_border_diagonal(self, border: FormatBorder) -> (r: Format)
        ensures
            r == (Format { borders: Border { diagonal_style: border, ..self.borders }, ..self }),
    {
        let mut f = self;
        f.borders.diagonal_style = border;
        f
    }

    /// Set the diagonal border color; out-of-range colors leave it
    /// unchanged.
    pub fn set_border_diagonal_color<T: IntoColor>(self, color: T) -> (r: Format)
        ensures
            r == if spec_color_is_valid(color.spec_color()) {
                Format {
                    borders: Border { diagonal_color: color.spec_color(), ..self.borders },
                    ..self
                }
            } else {
                self
            },
    {
        let c = color.new_color();
        if !c.is_valid() {
            return self;
        }
        let mut f = self;
        f.borders.diagonal_color = c;
        f
    }

    /// Set the diagonal border kind.
    pub fn set_border_diagonal_type(self, border_type: FormatDiagonalBorder) -> (r: Format)
        ensures
            r == (Format {
                borders: Border { diagonal_type: border_type, ..self.borders },
                ..self
            }),
    {
        let mut f = self;
        f.borders.diagonal_type = border_type;
        f
    }

    /// Give the format the hyperlink font style: theme color 10, single
    /// underline, no scheme.
    pub fn set_hyperlink(self) -> (r: Format)
        ensures
            r == (Format {
                font: Font {
                    is_hyperlink: true,
                    color: XlsxColor::Theme(10, 0),
                    underline: FormatUnderline::Single,
                    scheme: r.font.scheme,
                    ..self.font
                },
                ..self
            }),
            r.font.scheme@ == Seq::<char>::empty(),
    {
        let mut f = self;
        f.font.is_hyperlink = true;
        f.font.color = XlsxColor::Theme(10, 0);
        f.font.underline = FormatUnderline::Single;
        f.font.scheme = String::new();
        f
    }

    /// Unset the hyperlink style: the font no longer counts as the
    /// hyperlink style font.
    pub fn unset_hyperlink_style(self) -> (r: Format)
        ensures
            r == (Format { font: Font { is_hyperlink: false, ..self.font }, ..self }),
    {
        let mut f = self;
        f.font.is_hyperlink = false;
        f
    }

    /// Unlock the cell for editing in a protected sheet.
    pub fn set_unlocked(self) -> (r: Format)
        ensures
            r == (Format { locked: false, ..self }),
    {
        let mut f = self;
        f.locked = false;
        f
    }

    /// Lock the cell in a protected sheet.
    pub fn set_locked(self) -> (r: Format)
        ensures
            r == (Format { locked: true, ..self }),
    {
        let mut f = self;
        f.locked = true;
        f
    }

    /// Hide formulas in a protected sheet.
    pub fn set_hidden(self) -> (r: Format)
        ensures
            r == (Format { hidden: true, ..self }),
    {
        let mut f = self;
        f.hidden = true;
        f
    }

    /// Show formulas again.
    pub fn unset_hidden(self) -> (r: Format)
        ensures
            r == (Format { hidden: false, ..self }),
    {
        let mut f = self;
        f.hidden = false;
        f
    }

    /// Turn the quote prefix on.
    pub fn set_quote_prefix(self) -> (r: Format)
        ensures
            r == (Format { quote_prefix: true, ..self }),
    {
        let mut f = self;
        f.quote_prefix = true;
        f
    }

    /// Turn the quote prefix off.
    pub fn unset_quote_prefix(self) -> (r: Format)
        ensures
            r == (Format { quote_prefix: false, ..self }),
    {
        let mut f = self;
        f.quote_prefix = false;
        f
    }
}

impl Default for Format {
    /// The default format, as `Format::new` builds it.
    fn default() -> (r: Format)
        ensures
            spec_format_is_default(r),
    {
        Format::new()
    }
}

/// The alignment after `set_align`: `General` resets both directions,
/// a horizontal value sets the horizontal one, a vertical value the
/// vertical one.
pub open spec fn spec_aligned(a: Alignment, align: FormatAlign) -> Alignment {
    match align {
        FormatAlign::General => Alignment {
            horizontal: FormatAlign::General,
            vertical: FormatAlign::General,
            ..a
        },
        FormatAlign::Center
        | FormatAlign::CenterAcross
        | FormatAlign::Distributed
        | FormatAlign::Fill
        | FormatAlign::Justify
        | FormatAlign::Left
        | FormatAlign::Right => Alignment { horizontal: align, ..a },
        _ => Alignment { vertical: align, ..a },
    }
}

/// The alignment after `set_rotation`: 270 becomes the stacked marker
/// 255, `-90 ..= -1` maps to `91 ..= 180`, `0 ..= 90` is kept, and
/// anything else leaves the alignment unchanged.
pub open spec fn spec_rotated(a: Alignment, rotation: int) -> Alignment {
    if rotation == 270 {
        Alignment { rotation: 255, ..a }
    } else if -90 <= rotation <= -1 {
        Alignment { rotation: (90 - rotation) as i16, ..a }
    } else if 0 <= rotation <= 90 {
        Alignment { rotation: rotation as i16, ..a }
    } else {
        a
    }
}

/// The decimal text of `h / 100`, with trailing zeros of the fraction
/// removed: 1100 is `11`, 1150 is `11.5`.
pub open spec fn spec_render_hundredths(h: nat) -> Seq<char> {
    if h % 100 == 0 {
        spec_dec_u64(h / 100)
    } else {
        spec_dec_u64(h / 100) + "."@ + crate::number::spec_trim_zeros(
            crate::render::spec_dec_fixed(h % 100, 2),
        )
    }
}

/// Render a value in hundredths as its exact decimal text.
pub fn render_hundredths(h: u32) -> (r: String)
    ensures
        r@ == spec_render_hundredths(h as nat),
{
    let mut s = dec_u64(h as u64 / 100);
    if h % 100 != 0 {
        s.append(".");
        let digits = crate::render::dec_fixed(h as u64 % 100, 2);
        let trimmed = crate::number::trim_trailing_zeros(&digits);
        s.append(trimmed.as_str());
        proof {
            assert(s@ =~= spec_render_hundredths(h as nat));
        }
    }
    s
}


} // verus!
