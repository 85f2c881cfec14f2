//! The shared string table and the `sharedStrings.xml` part.
//!
//! Strings are interned once each, in insertion order; the table keeps
//! the total number of interning operations beside the set of unique
//! strings, and the emitter writes one `<si>` per unique string in
//! index order.

use crate::render::dec_u64;
use crate::spec_dec_u64;
use crate::xmlwriter::{
    push_attr, push_attr_string, spec_end_tag, spec_si_element, spec_start_tag,
    spec_xml_declaration, XMLWriter,
};
use vstd::prelude::*;
use vstd::string::*;

verus! {

/// Whether `c` has Unicode's White_Space property, the test `trim`
/// and whitespace checks use.
pub open spec fn spec_is_whitespace(c: char) -> bool {
    c == ' ' || ('\u{09}' <= c <= '\u{0D}') || c == '\u{85}' || c == '\u{A0}' || c == '\u{1680}'
        || ('\u{2000}' <= c <= '\u{200A}') || c == '\u{2028}' || c == '\u{2029}' || c == '\u{202F}'
        || c == '\u{205F}' || c == '\u{3000}'
}

/// Check the White_Space property of a character.
pub fn is_whitespace_char(c: char) -> (r: bool)
    ensures
        r == spec_is_whitespace(c),
{
    c == ' ' || (c >= '\u{09}' && c <= '\u{0D}') || c == '\u{85}' || c == '\u{A0}'
        || c == '\u{1680}' || (c >= '\u{2000}' && c <= '\u{200A}') || c == '\u{2028}'
        || c == '\u{2029}' || c == '\u{202F}' || c == '\u{205F}' || c == '\u{3000}'
}

/// Whether a string begins or ends with whitespace, which forces
/// `xml:space="preserve"` on its `<si>` element.
pub open spec fn spec_preserve_whitespace(s: Seq<char>) -> bool {
    s.len() > 0 && (spec_is_whitespace(s.first()) || spec_is_whitespace(s.last()))
}

/// Whether a string begins or ends with whitespace.
pub fn preserve_whitespace(s: &str) -> (r: bool)
    ensures
        r == spec_preserve_whitespace(s@),
{
    let n = s.unicode_len();
    if n == 0 {
        false
    } else {
        is_whitespace_char(s.get_char(0)) || is_whitespace_char(s.get_char(n - 1))
    }
}

/// The table of interned strings.
pub struct SharedStringsTable {
    /// The unique strings, in insertion order; the index of a string
    /// is its shared string index.
    pub strings: Vec<String>,
    /// The total number of interning operations.
    pub count: u32,
}

/// The index of `s` in `strings`, which holds it.
pub open spec fn spec_string_index(strings: Seq<Seq<char>>, s: Seq<char>) -> int {
    choose|i: int| 0 <= i < strings.len() && strings[i] == s
}

impl SharedStringsTable {
    /// The interned strings as text, in index order.
    pub open spec fn view_strings(&self) -> Seq<Seq<char>> {
        self.strings.deep_view()
    }

    /// Well-formed: the strings are pairwise distinct, and the
    /// operation count is at least the number of unique strings.
    pub open spec fn wf(&self) -> bool {
        (forall|i: int, j: int|
            0 <= i < j < self.view_strings().len() ==> self.view_strings()[i]
                != self.view_strings()[j]) && self.view_strings().len() <= self.count
    }

    /// An empty table.
    pub fn new() -> (r: SharedStringsTable)
        ensures
            r.wf(),
            r.view_strings() == Seq::<Seq<char>>::empty(),
            r.count == 0,
    {
        let r = SharedStringsTable { strings: Vec::new(), count: 0 };
        proof {
            assert(r.view_strings() =~= Seq::<Seq<char>>::empty());
        }
        r
    }

    /// The number of unique strings.
    pub fn unique_count(&self) -> (r: usize)
        ensures
            r == self.view_strings().len(),
    {
        self.strings.len()
    }

    /// Intern a string: a known string keeps its index, a new one is
    /// appended; either way the operation count grows by one.
    pub fn get_shared_string_index(&mut self, key: &str) -> (index: u32)
        requires
            old(self).wf(),
            old(self).count < u32::MAX,
            old(self).view_strings().len() < 0xFFFF_FFFF,
        ensures
            final(self).wf(),
            final(self).count == old(self).count + 1,
            old(self).view_strings().contains(key@) ==> final(self).view_strings() == old(
                self,
            ).view_strings() && index == spec_string_index(old(self).view_strings(), key@),
            !old(self).view_strings().contains(key@) ==> final(self).view_strings() == old(
                self,
            ).view_strings().push(key@) && index == old(self).view_strings().len(),
            final(self).view_strings().contains(key@),
            0 <= index < final(self).view_strings().len(),
            final(self).view_strings()[index as int] == key@,
    {
        self.count = self.count + 1;
        let key_string = String::from_str(key);
        let n = self.strings.len();
        let mut i: usize = 0;
        while i < n
            invariant
                i <= n,
                n == self.strings.len(),
                old(self).wf(),
                self.strings == old(self).strings,
                self.count == old(self).count + 1,
                self.count <= u32::MAX,
                key_string@ == key@,
                forall|j: int| 0 <= j < i ==> #[trigger] self.view_strings()[j] != key@,
            decreases n - i,
        {
            if self.strings[i] == key_string {
                proof {
                    assert(self.view_strings()[i as int] == key@);
                    assert(self.view_strings().contains(key@)) by {
                        assert(self.view_strings()[i as int] == key@);
                    }
                    let w = spec_string_index(self.view_strings(), key@);
                    assert(self.view_strings()[w] == key@);
                    assert(self.view_strings()[w] == self.view_strings()[i as int]);
                    if w < i as int {
                        assert(self.view_strings()[w] != self.view_strings()[i as int]);
                    } else if w > i as int {
                        assert(self.view_strings()[i as int] != self.view_strings()[w]);
                    }
                }
                return i as u32;
            }
            i = i + 1;
        }
        let ghost oldv = self.view_strings();
        proof {
            assert(forall|j: int| 0 <= j < n ==> #[trigger] oldv[j] != key@);
            if oldv.contains(key@) {
                let w = choose|w: int| 0 <= w < oldv.len() && oldv[w] == key@;
                assert(oldv[w] != key@);
            }
        }
        self.strings.push(String::from_str(key));
        proof {
            let newv = self.view_strings();
            assert(newv =~= oldv.push(key@));
            assert(newv[n as int] == key@);
            assert(newv.contains(key@)) by {
                assert(newv[n as int] == key@);
            }
            assert forall|a: int, b: int| 0 <= a < b < newv.len() implies newv[a] != newv[b] by {
                if b < n {
                    assert(oldv[a] != oldv[b]);
                } else {
                    assert(newv[b] == key@);
                    assert(newv[a] == oldv[a]);
                    assert(oldv[a] != key@);
                }
            }
        }
        n as u32
    }
}

/// The `<si>` elements of the table, in index order.
pub open spec fn spec_sst_items(items: Seq<Seq<char>>) -> Seq<char>
    decreases items.len(),
{
    if items.len() == 0 {
        Seq::empty()
    } else {
        spec_sst_items(items.drop_last()) + spec_si_element(
            items.last(),
            spec_preserve_whitespace(items.last()),
        )
    }
}

/// The whole `sharedStrings.xml` text for a table.
pub open spec fn spec_sst_xml(items: Seq<Seq<char>>, count: nat) -> Seq<char> {
    spec_xml_declaration() + spec_start_tag(
        "sst"@,
        seq![
            ("xmlns"@, "http://schemas.openxmlformats.org/spreadsheetml/2006/main"@),
            ("count"@, spec_dec_u64(count)),
            ("uniqueCount"@, spec_dec_u64(items.len())),
        ],
    ) + spec_sst_items(items) + spec_end_tag("sst"@)
}

/// The writer of the `sharedStrings.xml` part.
pub struct SharedStrings {
    /// The XML output buffer.
    pub writer: XMLWriter,
}

impl SharedStrings {
    /// A writer with an empty buffer.
    pub fn new() -> (r: SharedStrings)
        ensures
            r.writer@ == Seq::<char>::empty(),
    {
        SharedStrings { writer: XMLWriter::new() }
    }

    /// Assemble the `sharedStrings.xml` part: the `<sst>` element with
    /// the total and unique counts, and one `<si>` per unique string
    /// in index order.
    pub fn assemble_xml_file(&mut self, string_table: &SharedStringsTable)
        ensures
            final(self).writer@ == old(self).writer@ + spec_sst_xml(
                string_table.view_strings(),
                string_table.count as nat,
            ),
    {
        self.writer.xml_declaration();
        let mut attrs: Vec<(String, String)> = Vec::new();
        push_attr(
            &mut attrs,
            "xmlns",
            "http://schemas.openxmlformats.org/spreadsheetml/2006/main",
        );
        push_attr_string(&mut attrs, "count", dec_u64(string_table.count as u64));
        push_attr_string(
            &mut attrs,
            "uniqueCount",
            dec_u64(string_table.strings.len() as u64),
        );
        proof {
            assert(attrs.deep_view() =~= seq![
                ("xmlns"@, "http://schemas.openxmlformats.org/spreadsheetml/2006/main"@),
                ("count"@, spec_dec_u64(string_table.count as nat)),
                ("uniqueCount"@, spec_dec_u64(string_table.view_strings().len())),
            ]);
        }
        self.writer.xml_start_tag("sst", &attrs);
        let n = string_table.strings.len();
        let ghost items = string_table.view_strings();
        let ghost mid = self.writer@;
        let mut i: usize = 0;
        while i < n
            invariant
                i <= n,
                n == string_table.strings.len(),
                items == string_table.view_strings(),
                self.writer@ == mid + spec_sst_items(items.subrange(0, i as int)),
            decreases n - i,
        {
            let s = string_table.strings[i].as_str();
            let preserve = preserve_whitespace(s);
            self.writer.xml_si_element(s, preserve);
            proof {
                let pre = items.subrange(0, i as int);
                let post = items.subrange(0, i + 1 as int);
                assert(post.drop_last() =~= pre);
                assert(post.last() == items[i as int]);
                assert(items[i as int] == s@);
                assert(self.writer@ =~= mid + spec_sst_items(post));
            }
            i = i + 1;
        }
        self.writer.xml_end_tag("sst");
        proof {
            assert(items.subrange(0, n as int) =~= items);
            assert(self.writer@ =~= old(self).writer@ + spec_sst_xml(
                items,
                string_table.count as nat,
            ));
        }
    }
}

} // verus!
