//! A small streaming XML emitter that appends elements to an in-memory
//! buffer, escaping text as SpreadsheetML requires.

use crate::render::{hex_fixed, push_char, spec_hex_fixed};
use vstd::prelude::*;
use vstd::string::*;

verus! {

/// How one character of element data is escaped: the XML entities for
/// `& < >`, and the `_xHHHH_` convention for control characters.
pub open spec fn spec_esc_data_char(c: char) -> Seq<char> {
    if c == '&' {
        "&amp;"@
    } else if c == '<' {
        "&lt;"@
    } else if c == '>' {
        "&gt;"@
    } else if (c as u32) < 0x20 && c != '\t' && c != '\n' && c != '\r' {
        "_x"@ + spec_hex_fixed(c as nat, 4) + "_"@
    } else {
        seq![c]
    }
}

/// Element data with every character escaped as `spec_esc_data_char` says.
pub open spec fn spec_escape_data(s: Seq<char>) -> Seq<char>
    decreases s.len(),
{
    if s.len() == 0 {
        Seq::empty()
    } else {
        spec_escape_data(s.drop_last()) + spec_esc_data_char(s.last())
    }
}

/// How one character of an attribute value is escaped: as in element
/// data, plus `"` and the newline.
pub open spec fn spec_esc_attr_char(c: char) -> Seq<char> {
    if c == '"' {
        "&quot;"@
    } else if c == '\n' {
        "&#xA;"@
    } else {
        spec_esc_data_char(c)
    }
}

/// An attribute value with every character escaped.
pub open spec fn spec_escape_attr(s: Seq<char>) -> Seq<char>
    decreases s.len(),
{
    if s.len() == 0 {
        Seq::empty()
    } else {
        spec_escape_attr(s.drop_last()) + spec_esc_attr_char(s.last())
    }
}

/// Whether a character belongs to the set that URLs escape.
pub open spec fn spec_is_url_escaped_char(c: char) -> bool {
    c == ' ' || c == '"' || c == '<' || c == '>' || c == '\\' || c == '[' || c == ']' || c == '`'
        || c == '^' || c == '{' || c == '}'
}

/// How one character of a URL is escaped: `%XX` for the reserved set.
pub open spec fn spec_esc_url_char(c: char) -> Seq<char> {
    if spec_is_url_escaped_char(c) {
        "%"@ + spec_hex_fixed(c as nat, 2)
    } else {
        seq![c]
    }
}

/// A URL with every reserved character percent-escaped.
pub open spec fn spec_escape_url(s: Seq<char>) -> Seq<char>
    decreases s.len(),
{
    if s.len() == 0 {
        Seq::empty()
    } else {
        spec_escape_url(s.drop_last()) + spec_esc_url_char(s.last())
    }
}

/// One rendered attribute: a space, the name, `="` the escaped value `"`.
pub open spec fn spec_one_attr(name: Seq<char>, value: Seq<char>) -> Seq<char> {
    " "@ + name + "=\""@ + spec_escape_attr(value) + "\""@
}

/// A rendered attribute list, in order, over the name and value texts.
pub open spec fn spec_attrs(attrs: Seq<(Seq<char>, Seq<char>)>) -> Seq<char>
    decreases attrs.len(),
{
    if attrs.len() == 0 {
        Seq::empty()
    } else {
        spec_attrs(attrs.drop_last()) + spec_one_attr(attrs.last().0, attrs.last().1)
    }
}

/// A start tag with attributes: `<tag a="v">`.
pub open spec fn spec_start_tag(tag: Seq<char>, attrs: Seq<(Seq<char>, Seq<char>)>) -> Seq<char> {
    "<"@ + tag + spec_attrs(attrs) + ">"@
}

/// An empty (self-closing) tag with attributes: `<tag a="v"/>`.
pub open spec fn spec_empty_tag(tag: Seq<char>, attrs: Seq<(Seq<char>, Seq<char>)>) -> Seq<char> {
    "<"@ + tag + spec_attrs(attrs) + "/>"@
}

/// An end tag: `</tag>`.
pub open spec fn spec_end_tag(tag: Seq<char>) -> Seq<char> {
    "</"@ + tag + ">"@
}

/// A data element: `<tag a="v">escaped data</tag>`.
pub open spec fn spec_data_element(
    tag: Seq<char>,
    data: Seq<char>,
    attrs: Seq<(Seq<char>, Seq<char>)>,
) -> Seq<char> {
    spec_start_tag(tag, attrs) + spec_escape_data(data) + spec_end_tag(tag)
}

/// The `<si>` shared-string item, with `xml:space="preserve"` when asked.
pub open spec fn spec_si_element(data: Seq<char>, preserve: bool) -> Seq<char> {
    if preserve {
        "<si><t xml:space=\"preserve\">"@ + spec_escape_data(data) + "</t></si>"@
    } else {
        "<si><t>"@ + spec_escape_data(data) + "</t></si>"@
    }
}

/// The fixed XML declaration line.
pub open spec fn spec_xml_declaration() -> Seq<char> {
    "<?xml version=\"1.0\" encoding=\"UTF-8\" standalone=\"yes\"?>\n"@
}

/// Appending the empty sequence changes nothing.
pub proof fn lemma_append_empty<T>(w: Seq<T>)
    ensures
        w + Seq::<T>::empty() == w,
{
    assert(w + Seq::<T>::empty() =~= w);
}

/// Shift one appended part into the accumulated suffix.
pub proof fn lemma_shift<T>(w: Seq<T>, pre: Seq<T>, p: Seq<T>)
    ensures
        w + pre + p == w + (pre + p),
{
    assert(w + pre + p =~= w + (pre + p));
}

/// Pushing one element is appending a singleton.
pub proof fn lemma_push_concat<T>(s: Seq<T>, x: T)
    ensures
        s.push(x) == s + seq![x],
{
    assert(s.push(x) =~= s + seq![x]);
}

/// Push one `(name, value)` attribute pair onto a list.
pub fn push_attr(attrs: &mut Vec<(String, String)>, name: &str, value: &str)
    ensures
        final(attrs).deep_view() =~= old(attrs).deep_view().push((name@, value@)),
{
    attrs.push((String::from_str(name), String::from_str(value)));
    proof {
        assert(attrs.deep_view() =~= old(attrs).deep_view().push((name@, value@)));
    }
}

/// Push one attribute pair whose value was built at run time.
pub fn push_attr_string(attrs: &mut Vec<(String, String)>, name: &str, value: String)
    ensures
        final(attrs).deep_view() =~= old(attrs).deep_view().push((name@, value@)),
{
    attrs.push((String::from_str(name), value));
    proof {
        assert(attrs.deep_view() =~= old(attrs).deep_view().push((name@, value@)));
    }
}

/// Append the escaped form of one data character.
fn append_esc_data_char(out: &mut String, c: char)
    ensures
        final(out)@ == old(out)@ + spec_esc_data_char(c),
{
    if c == '&' {
        out.append("&amp;");
    } else if c == '<' {
        out.append("&lt;");
    } else if c == '>' {
        out.append("&gt;");
    } else if (c as u32) < 0x20 && c != '\t' && c != '\n' && c != '\r' {
        out.append("_x");
        let h = hex_fixed(c as u64, 4);
        out.append(h.as_str());
        out.append("_");
        proof {
            assert(out@ =~= old(out)@ + spec_esc_data_char(c));
        }
    } else {
        push_char(out, c);
    }
}

/// Append the escaped form of one attribute-value character.
fn append_esc_attr_char(out: &mut String, c: char)
    ensures
        final(out)@ == old(out)@ + spec_esc_attr_char(c),
{
    if c == '"' {
        out.append("&quot;");
    } else if c == '\n' {
        out.append("&#xA;");
    } else {
        append_esc_data_char(out, c);
    }
}

/// Append `s` with element-data escaping.
pub fn append_escape_data(out: &mut String, s: &str)
    ensures
        final(out)@ == old(out)@ + spec_escape_data(s@),
{
    let n = s.unicode_len();
    let mut i: usize = 0;
    while i < n
        invariant
            i <= n,
            n == s@.len(),
            out@ == old(out)@ + spec_escape_data(s@.subrange(0, i as int)),
        decreases n - i,
    {
        let c = s.get_char(i);
        append_esc_data_char(out, c);
        proof {
            let pre = s@.subrange(0, i as int);
            let post = s@.subrange(0, i + 1 as int);
            assert(post.drop_last() =~= pre);
            assert(post.last() == s@[i as int]);
        }
        i = i + 1;
    }
    proof {
        assert(s@.subrange(0, n as int) =~= s@);
    }
}

/// Append `s` with attribute-value escaping.
pub fn append_escape_attr(out: &mut String, s: &str)
    ensures
        final(out)@ == old(out)@ + spec_escape_attr(s@),
{
    let n = s.unicode_len();
    let mut i: usize = 0;
    while i < n
        invariant
            i <= n,
            n == s@.len(),
            out@ == old(out)@ + spec_escape_attr(s@.subrange(0, i as int)),
        decreases n - i,
    {
        let c = s.get_char(i);
        append_esc_attr_char(out, c);
        proof {
            let pre = s@.subrange(0, i as int);
            let post = s@.subrange(0, i + 1 as int);
            assert(post.drop_last() =~= pre);
            assert(post.last() == s@[i as int]);
        }
        i = i + 1;
    }
    proof {
        assert(s@.subrange(0, n as int) =~= s@);
    }
}

/// The percent-escaped form of a URL.
pub fn escape_url(s: &str) -> (r: String)
    ensures
        r@ == spec_escape_url(s@),
{
    let n = s.unicode_len();
    let mut out = String::new();
    let mut i: usize = 0;
    while i < n
        invariant
            i <= n,
            n == s@.len(),
            out@ == spec_escape_url(s@.subrange(0, i as int)),
        decreases n - i,
    {
        let c = s.get_char(i);
        if c == ' ' || c == '"' || c == '<' || c == '>' || c == '\\' || c == '[' || c == ']'
            || c == '`' || c == '^' || c == '{' || c == '}' {
            out.append("%");
            let h = hex_fixed(c as u64, 2);
            out.append(h.as_str());
        } else {
            push_char(&mut out, c);
        }
        proof {
            let pre = s@.subrange(0, i as int);
            let post = s@.subrange(0, i + 1 as int);
            assert(post.drop_last() =~= pre);
            assert(post.last() == s@[i as int]);
            assert(out@ =~= spec_escape_url(post));
        }
        i = i + 1;
    }
    proof {
        assert(s@.subrange(0, n as int) =~= s@);
    }
    out
}

/// Append the rendered attribute list.
fn append_attrs(out: &mut String, attrs: &Vec<(String, String)>)
    ensures
        final(out)@ == old(out)@ + spec_attrs(attrs.deep_view()),
{
    let n = attrs.len();
    let mut i: usize = 0;
    while i < n
        invariant
            i <= n,
            n == attrs@.len(),
            out@ == old(out)@ + spec_attrs(attrs.deep_view().subrange(0, i as int)),
        decreases n - i,
    {
        out.append(" ");
        out.append(attrs[i].0.as_str());
        out.append("=\"");
        append_escape_attr(out, attrs[i].1.as_str());
        out.append("\"");
        proof {
            let dv = attrs.deep_view();
            let pre = dv.subrange(0, i as int);
            let post = dv.subrange(0, i + 1 as int);
            assert(post.drop_last() =~= pre);
            assert(post.last() == dv[i as int]);
            assert(dv[i as int].0 == attrs@[i as int].0@);
            assert(dv[i as int].1 == attrs@[i as int].1@);
            assert(out@ =~= old(out)@ + spec_attrs(post));
        }
        i = i + 1;
    }
    proof {
        assert(attrs.deep_view().subrange(0, n as int) =~= attrs.deep_view());
    }
}

/// A buffered XML writer. Its view is the text written so far.
pub struct XMLWriter {
    buf: String,
}

impl View for XMLWriter {
    type V = Seq<char>;

    closed spec fn view(&self) -> Seq<char> {
        self.buf@
    }
}

impl XMLWriter {
    /// A writer with an empty buffer.
    pub fn new() -> (r: XMLWriter)
        ensures
            r@ == Seq::<char>::empty(),
    {
        XMLWriter { buf: String::new() }
    }

    /// Discard everything written so far.
    pub fn reset(&mut self)
        ensures
            final(self)@ == Seq::<char>::empty(),
    {
        self.buf = String::new();
    }

    /// The text written so far.
    pub fn read_to_str(&self) -> (r: &str)
        ensures
            r@ == self@,
    {
        self.buf.as_str()
    }

    /// Write the XML declaration line.
    pub fn xml_declaration(&mut self)
        ensures
            final(self)@ == old(self)@ + spec_xml_declaration(),
    {
        self.buf.append("<?xml version=\"1.0\" encoding=\"UTF-8\" standalone=\"yes\"?>\n");
    }

    /// Write `<tag>`.
    pub fn xml_start_tag_only(&mut self, tag: &str)
        ensures
            final(self)@ == old(self)@ + "<"@ + tag@ + ">"@,
    {
        self.buf.append("<");
        self.buf.append(tag);
        self.buf.append(">");
    }

    /// Write `<tag a="v">`.
    pub fn xml_start_tag(&mut self, tag: &str, attrs: &Vec<(String, String)>)
        ensures
            final(self)@ == old(self)@ + spec_start_tag(tag@, attrs.deep_view()),
    {
        self.buf.append("<");
        self.buf.append(tag);
        append_attrs(&mut self.buf, attrs);
        self.buf.append(">");
        proof {
            assert(self.buf@ =~= old(self)@ + spec_start_tag(tag@, attrs.deep_view()));
        }
    }

    /// Write `<tag/>`.
    pub fn xml_empty_tag_only(&mut self, tag: &str)
        ensures
            final(self)@ == old(self)@ + "<"@ + tag@ + "/>"@,
    {
        self.buf.append("<");
        self.buf.append(tag);
        self.buf.append("/>");
    }

    /// Write `<tag a="v"/>`.
    pub fn xml_empty_tag(&mut self, tag: &str, attrs: &Vec<(String, String)>)
        ensures
            final(self)@ == old(self)@ + spec_empty_tag(tag@, attrs.deep_view()),
    {
        self.buf.append("<");
        self.buf.append(tag);
        append_attrs(&mut self.buf, attrs);
        self.buf.append("/>");
        proof {
            assert(self.buf@ =~= old(self)@ + spec_empty_tag(tag@, attrs.deep_view()));
        }
    }

    /// Write `</tag>`.
    pub fn xml_end_tag(&mut self, tag: &str)
        ensures
            final(self)@ == old(self)@ + spec_end_tag(tag@),
    {
        self.buf.append("</");
        self.buf.append(tag);
        self.buf.append(">");
        proof {
            assert(self.buf@ =~= old(self)@ + spec_end_tag(tag@));
        }
    }

    /// Write `<tag>escaped data</tag>`.
    pub fn xml_data_element_only(&mut self, tag: &str, data: &str)
        ensures
            final(self)@ == old(self)@ + spec_data_element(tag@, data@, Seq::empty()),
    {
        let attrs: Vec<(String, String)> = Vec::new();
        self.xml_data_element(tag, data, &attrs);
    }

    /// Write `<tag a="v">escaped data</tag>`.
    pub fn xml_data_element(&mut self, tag: &str, data: &str, attrs: &Vec<(String, String)>)
        ensures
            final(self)@ == old(self)@ + spec_data_element(tag@, data@, attrs.deep_view()),
    {
        self.buf.append("<");
        self.buf.append(tag);
        append_attrs(&mut self.buf, attrs);
        self.buf.append(">");
        append_escape_data(&mut self.buf, data);
        self.buf.append("</");
        self.buf.append(tag);
        self.buf.append(">");
        proof {
            assert(self.buf@ =~= old(self)@ + spec_data_element(tag@, data@, attrs.deep_view()));
        }
    }

    /// Write the `<si>` element of the shared string table.
    pub fn xml_si_element(&mut self, string: &str, preserve_whitespace: bool)
        ensures
            final(self)@ == old(self)@ + spec_si_element(string@, preserve_whitespace),
    {
        if preserve_whitespace {
            self.buf.append("<si><t xml:space=\"preserve\">");
        } else {
            self.buf.append("<si><t>");
        }
        append_escape_data(&mut self.buf, string);
        self.buf.append("</t></si>");
        proof {
            assert(self.buf@ =~= old(self)@ + spec_si_element(string@, preserve_whitespace));
        }
    }

    /// Append already-rendered text unchanged.
    pub fn xml_raw(&mut self, s: &str)
        ensures
            final(self)@ == old(self)@ + s@,
    {
        self.buf.append(s);
    }
}

} // verus!
