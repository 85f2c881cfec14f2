//! The `.rels` relationship parts that tie the package files together.

use crate::render::dec_u64;
use crate::spec_dec_u64;
use crate::xmlwriter::{
    push_attr_string, spec_empty_tag, spec_end_tag, spec_start_tag, spec_xml_declaration,
    XMLWriter,
};
use vstd::prelude::*;
use vstd::string::*;

verus! {

/// The document relationship schema prefix.
pub open spec fn spec_document_schema() -> Seq<char> {
    "http://schemas.openxmlformats.org/officeDocument/2006/relationships"@
}

/// One `<Relationship>` element: `Id` is `rId` with the one-based
/// position, then the type, the target, and the target mode when one
/// was set.
pub open spec fn spec_relationship(
    rel: (Seq<char>, Seq<char>, Seq<char>),
    id_num: nat,
) -> Seq<char> {
    if rel.2.len() == 0 {
        spec_empty_tag(
            "Relationship"@,
            seq![("Id"@, "rId"@ + spec_dec_u64(id_num)), ("Type"@, rel.0), ("Target"@, rel.1)],
        )
    } else {
        spec_empty_tag(
            "Relationship"@,
            seq![
                ("Id"@, "rId"@ + spec_dec_u64(id_num)),
                ("Type"@, rel.0),
                ("Target"@, rel.1),
                ("TargetMode"@, rel.2),
            ],
        )
    }
}

/// The `<Relationship>` elements of a list, numbered from 1.
pub open spec fn spec_relationships(rels: Seq<(Seq<char>, Seq<char>, Seq<char>)>) -> Seq<char>
    decreases rels.len(),
{
    if rels.len() == 0 {
        Seq::empty()
    } else {
        spec_relationships(rels.drop_last()) + spec_relationship(rels.last(), rels.len() as nat)
    }
}

/// The whole `.rels` part for a list of relationships.
pub open spec fn spec_rels_xml(rels: Seq<(Seq<char>, Seq<char>, Seq<char>)>) -> Seq<char> {
    spec_xml_declaration() + spec_start_tag(
        "Relationships"@,
        seq![("xmlns"@, "http://schemas.openxmlformats.org/package/2006/relationships"@)],
    ) + spec_relationships(rels) + spec_end_tag("Relationships"@)
}

/// A `.rels` relationship file: an ordered list of `(type, target,
/// target mode)` triples, numbered `rId1`, `rId2`, ... on emission.
pub struct Relationship {
    /// The XML output buffer.
    pub writer: XMLWriter,
    /// The recorded `(type, target, target mode)` triples.
    pub relationships: Vec<(String, String, String)>,
}

impl Relationship {
    /// The recorded relationships as text triples.
    pub open spec fn view_rels(&self) -> Seq<(Seq<char>, Seq<char>, Seq<char>)> {
        self.relationships.deep_view()
    }

    /// An empty relationship file.
    pub fn new() -> (r: Relationship)
        ensures
            r.writer@ == Seq::<char>::empty(),
            r.view_rels() == Seq::<(Seq<char>, Seq<char>, Seq<char>)>::empty(),
    {
        let r = Relationship { writer: XMLWriter::new(), relationships: Vec::new() };
        proof {
            assert(r.view_rels() =~= Seq::<(Seq<char>, Seq<char>, Seq<char>)>::empty());
        }
        r
    }

    /// Record a document relationship: the type is the document schema
    /// plus `rel_type`, and no target mode is set.
    pub fn add_document_relationship(&mut self, rel_type: &str, target: &str)
        ensures
            final(self).writer@ == old(self).writer@,
            final(self).view_rels() =~= old(self).view_rels().push(
                (spec_document_schema() + rel_type@, target@, Seq::<char>::empty()),
            ),
    {
        let mut full_type = String::from_str(
            "http://schemas.openxmlformats.org/officeDocument/2006/relationships",
        );
        full_type.append(rel_type);
        self.relationships.push((full_type, String::from_str(target), String::new()));
        proof {
            assert(self.view_rels() =~= old(self).view_rels().push(
                (spec_document_schema() + rel_type@, target@, Seq::<char>::empty()),
            ));
        }
    }

    /// Assemble the `.rels` XML: the declaration, the `Relationships`
    /// element, and the recorded entries numbered from `rId1`.
    pub fn assemble_xml_file(&mut self)
        ensures
            final(self).writer@ == old(self).writer@ + spec_rels_xml(old(self).view_rels()),
            final(self).view_rels() == old(self).view_rels(),
    {
        self.writer.xml_declaration();
        let mut attrs: Vec<(String, String)> = Vec::new();
        crate::xmlwriter::push_attr(
            &mut attrs,
            "xmlns",
            "http://schemas.openxmlformats.org/package/2006/relationships",
        );
        proof {
            assert(attrs.deep_view() =~= seq![
                ("xmlns"@, "http://schemas.openxmlformats.org/package/2006/relationships"@),
            ]);
        }
        self.writer.xml_start_tag("Relationships", &attrs);
        let ghost rels = self.view_rels();
        let ghost mid = self.writer@;
        let n = self.relationships.len();
        let mut i: usize = 0;
        while i < n
            invariant
                i <= n,
                n == self.relationships.len(),
                rels == self.view_rels(),
                self.writer@ == mid + spec_relationships(rels.subrange(0, i as int)),
            decreases n - i,
        {
            let mut rel_attrs: Vec<(String, String)> = Vec::new();
            let mut id = String::from_str("rId");
            let idnum = dec_u64(i as u64 + 1);
            id.append(idnum.as_str());
            push_attr_string(&mut rel_attrs, "Id", id);
            push_attr_string(&mut rel_attrs, "Type", self.relationships[i].0.clone());
            push_attr_string(&mut rel_attrs, "Target", self.relationships[i].1.clone());
            if self.relationships[i].2.as_str().unicode_len() > 0 {
                push_attr_string(&mut rel_attrs, "TargetMode", self.relationships[i].2.clone());
            }
            self.writer.xml_empty_tag("Relationship", &rel_attrs);
            proof {
                let pre = rels.subrange(0, i as int);
                let post = rels.subrange(0, i + 1 as int);
                assert(post.drop_last() =~= pre);
                assert(post.last() == rels[i as int]);
                assert(rels[i as int].0 == self.relationships@[i as int].0@);
                assert(rels[i as int].1 == self.relationships@[i as int].1@);
                assert(rels[i as int].2 == self.relationships@[i as int].2@);
                assert(rel_attrs.deep_view() =~= (if rels[i as int].2.len() == 0 {
                    seq![
                        ("Id"@, "rId"@ + spec_dec_u64((i + 1) as nat)),
                        ("Type"@, rels[i as int].0),
                        ("Target"@, rels[i as int].1),
                    ]
                } else {
                    seq![
                        ("Id"@, "rId"@ + spec_dec_u64((i + 1) as nat)),
                        ("Type"@, rels[i as int].0),
                        ("Target"@, rels[i as int].1),
                        ("TargetMode"@, rels[i as int].2),
                    ]
                }));
                assert(self.writer@ =~= mid + spec_relationships(post));
            }
            i = i + 1;
        }
        self.writer.xml_end_tag("Relationships");
        proof {
            assert(rels.subrange(0, n as int) =~= rels);
            assert(self.writer@ =~= old(self).writer@ + spec_rels_xml(rels));
        }
    }
}

} // verus!
