//! The parsed document tree as the pipeline consumes it: a rooted tree of
//! nodes (document root, elements, doctype declarations, text), each carrying
//! a stable numeric identity unique within one parse. The external document
//! parser produces this tree; everything downstream keys its lookups by the
//! node identities.

use vstd::prelude::*;
use vstd::string::StrSliceExecFns;

verus! {

/// One node of the parsed document tree.
#[derive(Debug)]
pub enum DocNode {
    Document { id: u64, children: Vec<DocNode> },
    Element { id: u64, tag: String, attrs: Vec<(String, String)>, children: Vec<DocNode> },
    Doctype { id: u64 },
    Text { id: u64, text: String },
}

impl DocNode {
    /// The node's stable identity.
    pub open spec fn spec_id(&self) -> u64 {
        match self {
            DocNode::Document { id, .. } => *id,
            DocNode::Element { id, .. } => *id,
            DocNode::Doctype { id, .. } => *id,
            DocNode::Text { id, .. } => *id,
        }
    }

    /// The executable identity accessor.
    pub fn id(&self) -> (r: u64)
        ensures
            r == self.spec_id(),
    {
        match self {
            DocNode::Document { id, .. } => *id,
            DocNode::Element { id, .. } => *id,
            DocNode::Doctype { id, .. } => *id,
            DocNode::Text { id, .. } => *id,
        }
    }
}

/// String equality over the character views.
pub fn str_eq(a: &str, b: &str) -> (r: bool)
    ensures
        r == (a@ == b@),
{
    let la = a.unicode_len();
    let lb = b.unicode_len();
    if la != lb {
        return false;
    }
    let mut i: usize = 0;
    while i < la
        invariant
            i <= la,
            la == a@.len(),
            lb == b@.len(),
            la == lb,
            forall|j: int| 0 <= j < i ==> a@[j] == b@[j],
        decreases la - i,
    {
        if a.get_char(i) != b.get_char(i) {
            return false;
        }
        i = i + 1;
    }
    proof {
        assert(a@ =~= b@);
    }
    true
}

/// The first value bound to `name` in an attribute list (attribute keys are
/// unique within one element, so the first match is the only one).
pub open spec fn spec_attr_value(attrs: Seq<(Seq<char>, Seq<char>)>, name: Seq<char>) -> Option<
    Seq<char>,
>
    decreases attrs.len(),
{
    if attrs.len() == 0 {
        Option::None
    } else if attrs[0].0 == name {
        Option::Some(attrs[0].1)
    } else {
        spec_attr_value(attrs.drop_first(), name)
    }
}

/// The view of an attribute list: each pair of strings as a pair of
/// character sequences.
pub open spec fn attrs_view(attrs: Seq<(String, String)>) -> Seq<(Seq<char>, Seq<char>)> {
    attrs.map_values(|p: (String, String)| (p.0@, p.1@))
}

/// Look up an attribute by name.
pub fn attr_value(attrs: &Vec<(String, String)>, name: &str) -> (r: Option<String>)
    ensures
        match r {
            Option::Some(v) => spec_attr_value(attrs_view(attrs@), name@) == Option::Some(v@),
            Option::None => spec_attr_value(attrs_view(attrs@), name@) is None,
        },
{
    let mut i: usize = 0;
    proof {
        assert(attrs_view(attrs@).skip(0) =~= attrs_view(attrs@));
    }
    while i < attrs.len()
        invariant
            i <= attrs.len(),
            spec_attr_value(attrs_view(attrs@), name@) == spec_attr_value(
                attrs_view(attrs@).skip(i as int),
                name@,
            ),
        decreases attrs.len() - i,
    {
        proof {
            assert(attrs_view(attrs@).skip(i as int)[0] == (attrs@[i as int].0@, attrs@[
                i as int].1@));
            assert(attrs_view(attrs@).skip(i as int).drop_first() =~= attrs_view(attrs@).skip(
                i + 1 as int,
            ));
        }
        if str_eq(attrs[i].0.as_str(), name) {
            return Option::Some(attrs[i].1.clone());
        }
        i = i + 1;
    }
    proof {
        assert(attrs_view(attrs@).skip(attrs@.len() as int).len() == 0);
    }
    Option::None
}

/// The identities of the elements with the given tag, in depth-first
/// document order. This resolves the tag selectors of the built-in default
/// stylesheet; author stylesheets come with externally resolved identity
/// sets.
pub open spec fn spec_tag_matched(n: DocNode, tag: Seq<char>) -> Seq<u64>
    decreases n,
{
    match n {
        DocNode::Element { id, tag: t, children, .. } => {
            let rest = spec_tag_matched_list(children@, tag);
            if t@ == tag {
                seq![id] + rest
            } else {
                rest
            }
        },
        DocNode::Document { children, .. } => spec_tag_matched_list(children@, tag),
        _ => Seq::empty(),
    }
}

/// Tag matching over a child list, left to right.
pub open spec fn spec_tag_matched_list(s: Seq<DocNode>, tag: Seq<char>) -> Seq<u64>
    decreases s,
{
    if s.len() == 0 {
        Seq::empty()
    } else {
        spec_tag_matched(s[0], tag) + spec_tag_matched_list(s.drop_first(), tag)
    }
}

/// Collect the identities of all elements with the given tag, depth first.
pub fn tag_matched(n: &DocNode, tag: &str, out: &mut Vec<u64>)
    ensures
        final(out)@ == old(out)@ + spec_tag_matched(*n, tag@),
    decreases *n,
{
    match n {
        DocNode::Element { id, tag: t, children, .. } => {
            if str_eq(t.as_str(), tag) {
                out.push(*id);
            }
            tag_matched_list(children, tag, out);
        },
        DocNode::Document { children, .. } => {
            tag_matched_list(children, tag, out);
        },
        DocNode::Doctype { .. } => {
            proof {
                assert(out@ =~= old(out)@ + spec_tag_matched(*n, tag@));
            }
        },
        DocNode::Text { .. } => {
            proof {
                assert(out@ =~= old(out)@ + spec_tag_matched(*n, tag@));
            }
        },
    }
}

/// Collect tag matches over a child list, left to right.
pub fn tag_matched_list(s: &Vec<DocNode>, tag: &str, out: &mut Vec<u64>)
    ensures
        final(out)@ == old(out)@ + spec_tag_matched_list(s@, tag@),
    decreases s@,
{
    let mut i: usize = 0;
    while i < s.len()
        invariant
            i <= s.len(),
            out@ == old(out)@ + spec_tag_matched_list(s@.take(i as int), tag@),
        decreases s.len() - i,
    {
        tag_matched(&s[i], tag, out);
        proof {
            lemma_tag_matched_list_take_step(s@, tag@, i as int);
        }
        i = i + 1;
    }
    proof {
        assert(s@.take(s@.len() as int) =~= s@);
    }
}

/// Whether an element with this tag and attribute list links an external
/// stylesheet: the external-resource-link tag whose relation attribute
/// marks it as a stylesheet.
pub open spec fn spec_links_stylesheet(tag: Seq<char>, attrs: Seq<(Seq<char>, Seq<char>)>) -> bool {
    tag == "link"@ && spec_attr_value(attrs, "rel"@) == Option::Some("stylesheet"@)
}

/// The reference path such a linking element carries, or the empty path
/// when it carries none.
pub open spec fn spec_href_of(attrs: Seq<(Seq<char>, Seq<char>)>) -> Seq<char> {
    match spec_attr_value(attrs, "href"@) {
        Option::Some(h) => h,
        Option::None => Seq::empty(),
    }
}

/// The reference paths of every linked stylesheet in the document, in
/// depth-first document order: the loader reads and registers these, in
/// this order, after the default stylesheet.
pub open spec fn spec_linked_refs(n: DocNode) -> Seq<Seq<char>>
    decreases n,
{
    match n {
        DocNode::Element { tag, attrs, children, .. } => {
            let rest = spec_linked_refs_list(children@);
            if spec_links_stylesheet(tag@, attrs_view(attrs@)) {
                seq![spec_href_of(attrs_view(attrs@))] + rest
            } else {
                rest
            }
        },
        DocNode::Document { children, .. } => spec_linked_refs_list(children@),
        _ => Seq::empty(),
    }
}

/// Linked stylesheet references over a child list, left to right.
pub open spec fn spec_linked_refs_list(s: Seq<DocNode>) -> Seq<Seq<char>>
    decreases s,
{
    if s.len() == 0 {
        Seq::empty()
    } else {
        spec_linked_refs(s[0]) + spec_linked_refs_list(s.drop_first())
    }
}

/// The view of a list of strings.
pub open spec fn strings_view(s: Seq<String>) -> Seq<Seq<char>> {
    s.map_values(|x: String| x@)
}

/// Collect the reference paths of the document's linked stylesheets, in
/// document order.
pub fn linked_stylesheet_refs(n: &DocNode, out: &mut Vec<String>)
    ensures
        strings_view(final(out)@) == strings_view(old(out)@) + spec_linked_refs(*n),
    decreases *n,
{
    match n {
        DocNode::Element { tag, attrs, children, .. } => {
            if str_eq(tag.as_str(), "link") {
                let rel = attr_value(attrs, "rel");
                let is_sheet = match &rel {
                    Option::Some(v) => str_eq(v.as_str(), "stylesheet"),
                    Option::None => false,
                };
                if is_sheet {
                    let href = attr_value(attrs, "href");
                    let ghost out0 = out@;
                    match href {
                        Option::Some(h) => out.push(h),
                        Option::None => out.push(String::new()),
                    }
                    proof {
                        assert(strings_view(out@) =~= strings_view(out0).push(
                            spec_href_of(attrs_view(attrs@)),
                        ));
                        assert(strings_view(out0).push(spec_href_of(attrs_view(attrs@)))
                            =~= strings_view(out0) + seq![spec_href_of(attrs_view(attrs@))]);
                    }
                }
            }
            linked_refs_list(children, out);
            proof {
                assert(strings_view(out@) =~= strings_view(old(out)@) + spec_linked_refs(
                    *n,
                ));
            }
        },
        DocNode::Document { children, .. } => {
            linked_refs_list(children, out);
        },
        DocNode::Doctype { .. } => {
            proof {
                assert(strings_view(out@) =~= strings_view(old(out)@) + spec_linked_refs(*n));
            }
        },
        DocNode::Text { .. } => {
            proof {
                assert(strings_view(out@) =~= strings_view(old(out)@) + spec_linked_refs(*n));
            }
        },
    }
}

/// Collect linked stylesheet references over a child list.
fn linked_refs_list(s: &Vec<DocNode>, out: &mut Vec<String>)
    ensures
        strings_view(final(out)@) == strings_view(old(out)@) + spec_linked_refs_list(s@),
    decreases s@,
{
    let mut i: usize = 0;
    while i < s.len()
        invariant
            i <= s.len(),
            strings_view(out@) == strings_view(old(out)@) + spec_linked_refs_list(
                s@.take(i as int),
            ),
        decreases s.len() - i,
    {
        linked_stylesheet_refs(&s[i], out);
        proof {
            lemma_linked_refs_list_take_step(s@, i as int);
        }
        i = i + 1;
    }
    proof {
        assert(s@.take(s@.len() as int) =~= s@);
    }
}

/// Unrolling linked-reference collection over a prefix.
proof fn lemma_linked_refs_list_take_step(s: Seq<DocNode>, i: int)
    requires
        0 <= i < s.len(),
    ensures
        spec_linked_refs_list(s.take(i + 1)) == spec_linked_refs_list(s.take(i))
            + spec_linked_refs(s[i]),
    decreases i,
{
    if i == 0 {
        assert(s.take(1).drop_first() =~= s.take(0));
        assert(s.take(1)[0] == s[0]);
        assert(spec_linked_refs_list(s.take(0)) == Seq::<Seq<char>>::empty());
        assert(spec_linked_refs_list(s.take(1)) =~= spec_linked_refs(s[0]));
        assert(spec_linked_refs_list(s.take(0)) + spec_linked_refs(s[0]) =~= spec_linked_refs(
            s[0],
        ));
    } else {
        lemma_linked_refs_list_take_step(s.drop_first(), i - 1);
        assert(s.take(i + 1).drop_first() =~= s.drop_first().take(i));
        assert(s.take(i).drop_first() =~= s.drop_first().take(i - 1));
        assert(s.drop_first()[i - 1] == s[i]);
        assert(spec_linked_refs_list(s.take(i + 1)) == spec_linked_refs(s[0])
            + spec_linked_refs_list(s.drop_first().take(i)));
        assert(spec_linked_refs_list(s.take(i)) == spec_linked_refs(s[0])
            + spec_linked_refs_list(s.drop_first().take(i - 1)));
        assert(spec_linked_refs_list(s.take(i)) + spec_linked_refs(s[i]) =~= spec_linked_refs(
            s[0],
        ) + (spec_linked_refs_list(s.drop_first().take(i - 1)) + spec_linked_refs(
            s.drop_first()[i - 1],
        )));
    }
}

/// Unrolling tag matching over a prefix: matching over the first `i + 1`
/// children is matching over the first `i`, then the child at `i`.
proof fn lemma_tag_matched_list_take_step(s: Seq<DocNode>, tag: Seq<char>, i: int)
    requires
        0 <= i < s.len(),
    ensures
        spec_tag_matched_list(s.take(i + 1), tag) == spec_tag_matched_list(s.take(i), tag)
            + spec_tag_matched(s[i], tag),
    decreases i,
{
    if i == 0 {
        assert(s.take(1).drop_first() =~= s.take(0));
        assert(spec_tag_matched_list(s.take(0), tag) == Seq::<u64>::empty());
        assert(s.take(1)[0] == s[0]);
        assert(spec_tag_matched_list(s.take(1), tag) =~= spec_tag_matched(s[0], tag));
        assert(spec_tag_matched_list(s.take(0), tag) + spec_tag_matched(s[0], tag)
            =~= spec_tag_matched(s[0], tag));
    } else {
        lemma_tag_matched_list_take_step(s.drop_first(), tag, i - 1);
        assert(s.take(i + 1).drop_first() =~= s.drop_first().take(i));
        assert(s.take(i).drop_first() =~= s.drop_first().take(i - 1));
        assert(s.drop_first()[i - 1] == s[i]);
        assert(spec_tag_matched_list(s.take(i + 1), tag) == spec_tag_matched(s[0], tag)
            + spec_tag_matched_list(s.drop_first().take(i), tag));
        assert(spec_tag_matched_list(s.take(i), tag) == spec_tag_matched(s[0], tag)
            + spec_tag_matched_list(s.drop_first().take(i - 1), tag));
        assert(spec_tag_matched_list(s.take(i), tag) + spec_tag_matched(s[i], tag)
            =~= spec_tag_matched(s[0], tag) + (spec_tag_matched_list(
            s.drop_first().take(i - 1),
            tag,
        ) + spec_tag_matched(s.drop_first()[i - 1], tag)));
    }
}

} // verus!

