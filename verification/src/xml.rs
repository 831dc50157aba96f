//! The parsed profile document and the lookup of a field by its path.
//!
//! A document is held as the tree that the markup parser produced: of every
//! element what the parser gave for its name, its inner text and its children
//! in document order. A field is named by a path of element names, read from
//! the children of the root downwards; at each level the first sibling of the
//! wanted name is taken.

use vstd::prelude::*;

use crate::error::{AnyResult, WlanError};

verus! {

/// One element of a parsed document, as the parser's accessors gave it.
#[derive(Debug, PartialEq, Eq)]
pub struct Element {
    /// The element's name, or `None` where the parser could not give it.
    pub name: Option<String>,
    /// The element's inner text, or `None` where the parser could not give it.
    pub text: Option<String>,
    /// The element's children in document order, or `None` where the parser
    /// could not give them.
    pub children: Option<Vec<Element>>,
}

/// A parsed document: its root element, or none for an empty document.
#[derive(Debug, PartialEq, Eq)]
pub struct Xml {
    root: Option<Element>,
}

/// View of an optional string.
pub open spec fn text_view(text: Option<String>) -> Option<Seq<char>> {
    match text {
        Some(s) => Some(s@),
        None => None,
    }
}

/// View of a path: the characters of each segment.
pub open spec fn path_view(path: Seq<&str>) -> Seq<Seq<char>> {
    Seq::new(path.len(), |i: int| path[i]@)
}

/// Whether the element is named `name`. An element whose name the parser could
/// not give has no name at all.
pub open spec fn is_named(element: Element, name: Seq<char>) -> bool {
    text_view(element.name) == Some(name)
}

/// The children of an element. An element whose children the parser could not
/// give has none.
pub open spec fn children_of(element: Element) -> Seq<Element> {
    match element.children {
        Some(children) => children@,
        None => Seq::empty(),
    }
}

/// Index of the first of `siblings` that is named `name`, if there is one.
pub open spec fn first_named(siblings: Seq<Element>, name: Seq<char>) -> Option<int>
    decreases siblings.len(),
{
    if siblings.len() == 0 {
        None
    } else if is_named(siblings[0], name) {
        Some(0)
    } else {
        match first_named(siblings.drop_first(), name) {
            Some(i) => Some(i + 1),
            None => None,
        }
    }
}

/// The field that `path` names below `siblings`. Each segment picks the first
/// sibling of that name; the last segment gives that element's inner text, every
/// other one goes on among that element's children. A segment that names no
/// sibling ends the lookup without a result, and so does an empty path.
pub open spec fn lookup(siblings: Seq<Element>, path: Seq<Seq<char>>) -> Option<Seq<char>>
    decreases path.len(),
{
    if path.len() == 0 {
        None
    } else {
        match first_named(siblings, path[0]) {
            None => None,
            Some(i) => if path.len() == 1 {
                text_view(siblings[i].text)
            } else {
                lookup(children_of(siblings[i]), path.drop_first())
            },
        }
    }
}

/// `first_named` finds the first sibling of the name and nothing else: it answers
/// `Some(i)` exactly when sibling `i` has the name and no earlier one has, and
/// `None` exactly when no sibling has it.
pub proof fn lemma_first_named(siblings: Seq<Element>, name: Seq<char>)
    ensures
        match first_named(siblings, name) {
            Some(i) => {
                &&& 0 <= i < siblings.len()
                &&& is_named(siblings[i], name)
                &&& forall|j: int| 0 <= j < i ==> !is_named(siblings[j], name)
            },
            None => forall|j: int| 0 <= j < siblings.len() ==> !is_named(siblings[j], name),
        },
    decreases siblings.len(),
{
    if siblings.len() != 0 && !is_named(siblings[0], name) {
        let rest = siblings.drop_first();
        lemma_first_named(rest, name);
        match first_named(rest, name) {
            Some(i) => {
                assert forall|j: int| 0 <= j < i + 1 implies !is_named(siblings[j], name) by {
                    if j > 0 {
                        assert(siblings[j] == rest[j - 1]);
                    }
                }
                assert(siblings[i + 1] == rest[i]);
            },
            None => {
                assert forall|j: int| 0 <= j < siblings.len() implies !is_named(
                    siblings[j],
                    name,
                ) by {
                    if j > 0 {
                        assert(siblings[j] == rest[j - 1]);
                    }
                }
            },
        }
    }
}

/// A sibling of the name with none of that name in front of it is the one
/// that `first_named` finds.
pub proof fn lemma_first_named_at(siblings: Seq<Element>, name: Seq<char>, i: int)
    requires
        0 <= i < siblings.len(),
        is_named(siblings[i], name),
        forall|j: int| 0 <= j < i ==> !is_named(siblings[j], name),
    ensures
        first_named(siblings, name) == Some(i),
{
    lemma_first_named(siblings, name);
}

/// Where no sibling has the name, `first_named` finds none.
pub proof fn lemma_none_named(siblings: Seq<Element>, name: Seq<char>)
    requires
        forall|j: int| 0 <= j < siblings.len() ==> !is_named(siblings[j], name),
    ensures
        first_named(siblings, name) is None,
{
    lemma_first_named(siblings, name);
}

/// Lookup takes the first sibling of a name and never looks at a later one:
/// where sibling `i` stands in front of sibling `j` and both have the same name,
/// any element of that name may stand in place of sibling `j`, whatever it
/// holds, and every path still names the same field.
pub proof fn lemma_later_sibling_is_never_inspected(
    siblings: Seq<Element>,
    i: int,
    j: int,
    other: Element,
    path: Seq<Seq<char>>,
)
    requires
        0 <= i < j < siblings.len(),
        text_view(siblings[i].name) == text_view(siblings[j].name),
        text_view(other.name) == text_view(siblings[j].name),
    ensures
        lookup(siblings.update(j, other), path) == lookup(siblings, path),
{
    if path.len() > 0 {
        let changed = siblings.update(j, other);
        lemma_first_named(siblings, path[0]);
        match first_named(siblings, path[0]) {
            Some(k) => {
                assert(k != j);
                assert(changed[k] == siblings[k]);
                assert forall|m: int| 0 <= m < k implies !is_named(changed[m], path[0]) by {
                    assert(!is_named(siblings[m], path[0]));
                }
                lemma_first_named_at(changed, path[0], k);
            },
            None => {
                assert forall|m: int| 0 <= m < changed.len() implies !is_named(
                    changed[m],
                    path[0],
                ) by {
                    assert(!is_named(siblings[m], path[0]));
                }
                lemma_none_named(changed, path[0]);
            },
        }
    }
}

/// The field that a path names is found through the first sibling that has
/// the name of the path's first segment: its inner text for a path of one
/// segment, else what the rest of the path names among its children.
pub proof fn lemma_lookup_goes_through_first(siblings: Seq<Element>, path: Seq<Seq<char>>, i: int)
    requires
        path.len() > 0,
        0 <= i < siblings.len(),
        is_named(siblings[i], path[0]),
        forall|j: int| 0 <= j < i ==> !is_named(siblings[j], path[0]),
    ensures
        path.len() == 1 ==> lookup(siblings, path) == text_view(siblings[i].text),
        path.len() > 1 ==> lookup(siblings, path) == lookup(
            children_of(siblings[i]),
            path.drop_first(),
        ),
{
    lemma_first_named_at(siblings, path[0], i);
}

/// Tells whether the element is named `name`.
fn has_name(element: &Element, name: &String) -> (named: bool)
    ensures
        named == is_named(*element, name@),
{
    match &element.name {
        Some(own) => *own == *name,
        None => false,
    }
}

/// Finds the first of `siblings` that is named `name`.
fn find_child(siblings: &Vec<Element>, name: &String) -> (found: Option<usize>)
    ensures
        match found {
            Some(i) => i < siblings@.len() && first_named(siblings@, name@) == Some(i as int),
            None => first_named(siblings@, name@) is None,
        },
{
    let mut i: usize = 0;
    while i < siblings.len()
        invariant
            i <= siblings@.len(),
            forall|j: int| 0 <= j < i ==> !is_named(siblings@[j], name@),
        decreases siblings@.len() - i,
    {
        if has_name(&siblings[i], name) {
            proof {
                lemma_first_named_at(siblings@, name@, i as int);
            }
            return Some(i);
        }
        i = i + 1;
    }
    proof {
        lemma_none_named(siblings@, name@);
    }
    None
}

impl Xml {
    /// The document's root element.
    pub closed spec fn root(&self) -> Option<Element> {
        self.root
    }

    /// The children of the root, where every lookup starts. A document without
    /// a root has none.
    pub open spec fn top_level(&self) -> Seq<Element> {
        match self.root() {
            Some(root) => children_of(root),
            None => Seq::empty(),
        }
    }

    /// The field that `path` names in the document.
    pub open spec fn lookup(&self, path: Seq<Seq<char>>) -> Option<Seq<char>> {
        lookup(self.top_level(), path)
    }

    /// The document with the given root.
    pub fn new(root: Option<Element>) -> (document: Xml)
        ensures
            document.root() == root,
    {
        Xml { root }
    }

    /// The document that a parser's outcome stands for: the root it produced,
    /// or a markup failure with the parser's code.
    pub fn try_from(parsed: Result<Option<Element>, i32>) -> (document: AnyResult<Xml>)
        ensures
            match parsed {
                Ok(root) => document matches Ok(xml) && xml.root() == root,
                Err(code) => document == Err::<Xml, WlanError>(WlanError::Markup(code)),
            },
    {
        match parsed {
            Ok(root) => Ok(Xml { root }),
            Err(code) => Err(WlanError::Markup(code)),
        }
    }

    /// Looks up the field that `path` names and gives its inner text.
    pub fn get(&self, path: &[&str]) -> (text: Option<String>)
        ensures
            text_view(text) == self.lookup(path_view(path@)),
    {
        let ghost names = path_view(path@);
        let mut siblings: &Vec<Element> = match &self.root {
            Some(Element { children: Some(children), .. }) => children,
            _ => {
                return None;
            },
        };
        let mut depth: usize = 0;
        assert(names.skip(0) =~= names);
        while depth < path.len()
            invariant
                depth <= path@.len(),
                names == path_view(path@),
                self.lookup(names) == lookup(siblings@, names.skip(depth as int)),
            decreases path@.len() - depth,
        {
            let ghost rest = names.skip(depth as int);
            let wanted: String = path[depth].to_owned();
            assert(rest.len() > 0 && rest[0] == wanted@);
            let found = match find_child(siblings, &wanted) {
                Some(i) => &siblings[i],
                None => {
                    return None;
                },
            };
            if depth + 1 == path.len() {
                return match &found.text {
                    Some(text) => Some(text.clone()),
                    None => None,
                };
            }
            assert(rest.drop_first() =~= names.skip(depth as int + 1));
            siblings = match &found.children {
                Some(children) => children,
                None => {
                    assert(lookup(children_of(*found), rest.drop_first()) is None);
                    return None;
                },
            };
            depth = depth + 1;
        }
        None
    }
}

impl Default for Xml {
    /// The empty document, in which no path names a field.
    fn default() -> (document: Xml)
        ensures
            document.root() is None,
    {
        Xml { root: None }
    }
}

} // verus!
