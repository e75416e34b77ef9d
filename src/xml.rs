//! A small XML element tree and its indented serialization.
//!
//! An element holds either character data or child elements, never both.
//! Serialization puts text content inline (`<a>text</a>`) and places each
//! child element on a line of its own, indented two spaces deeper than its
//! parent.
use vstd::prelude::*;

verus! {

/// One `name="value"` pair of a start tag.
pub struct Attribute {
    pub name: String,
    pub value: String,
}

/// What stands between an element's start tag and its end tag.
pub enum Content {
    Text(String),
    Children(Vec<Element>),
}

pub struct Element {
    pub name: String,
    pub attributes: Vec<Attribute>,
    pub content: Content,
}

/// The mathematical model of an element: names, values and text as
/// character sequences.
pub struct ElementModel {
    pub name: Seq<char>,
    pub attributes: Seq<(Seq<char>, Seq<char>)>,
    pub content: ContentModel,
}

pub enum ContentModel {
    Text(Seq<char>),
    Children(Seq<ElementModel>),
}

pub open spec fn attribute_model(a: Attribute) -> (Seq<char>, Seq<char>) {
    (a.name@, a.value@)
}

pub open spec fn attributes_model(attrs: Seq<Attribute>) -> Seq<(Seq<char>, Seq<char>)> {
    attrs.map_values(|a: Attribute| attribute_model(a))
}

pub open spec fn element_model(e: Element) -> ElementModel
    decreases e,
{
    ElementModel {
        name: e.name@,
        attributes: attributes_model(e.attributes@),
        content: match e.content {
            Content::Text(t) => ContentModel::Text(t@),
            Content::Children(cs) => ContentModel::Children(children_model(cs@)),
        },
    }
}

pub open spec fn children_model(cs: Seq<Element>) -> Seq<ElementModel>
    decreases cs,
{
    if cs.len() == 0 {
        Seq::empty()
    } else {
        children_model(cs.subrange(0, cs.len() - 1)).push(element_model(cs[cs.len() - 1]))
    }
}

impl View for Element {
    type V = ElementModel;

    open spec fn view(&self) -> ElementModel {
        element_model(*self)
    }
}

/// Each child's model stands at the child's own position.
pub proof fn lemma_children_model(cs: Seq<Element>)
    ensures
        children_model(cs).len() == cs.len(),
        forall|i: int| 0 <= i < cs.len() ==> #[trigger] children_model(cs)[i] == element_model(cs[i]),
    decreases cs.len(),
{
    if cs.len() > 0 {
        let prefix = cs.subrange(0, cs.len() - 1);
        lemma_children_model(prefix);
        assert forall|i: int| 0 <= i < cs.len() implies #[trigger] children_model(cs)[i]
            == element_model(cs[i]) by {
            if i < cs.len() - 1 {
                assert(prefix[i] == cs[i]);
            }
        }
    }
}

/// What one nesting level adds to the indentation.
pub open spec fn indent_step() -> Seq<char> {
    seq![' ', ' ']
}

pub open spec fn attribute_text(a: (Seq<char>, Seq<char>)) -> Seq<char> {
    seq![' '] + a.0 + seq!['=', '"'] + a.1 + seq!['"']
}

/// The attributes as they stand in a start tag, each preceded by a space.
pub open spec fn attributes_text(attrs: Seq<(Seq<char>, Seq<char>)>) -> Seq<char>
    decreases attrs.len(),
{
    if attrs.len() == 0 {
        Seq::empty()
    } else {
        attributes_text(attrs.subrange(0, attrs.len() - 1)) + attribute_text(attrs[attrs.len() - 1])
    }
}

pub open spec fn start_tag(e: ElementModel) -> Seq<char> {
    seq!['<'] + e.name + attributes_text(e.attributes) + seq!['>']
}

pub open spec fn end_tag(e: ElementModel) -> Seq<char> {
    seq!['<', '/'] + e.name + seq!['>']
}

/// The text of `e` when its start tag stands after `indent` on its line.
pub open spec fn element_text(e: ElementModel, indent: Seq<char>) -> Seq<char>
    decreases e,
{
    match e.content {
        ContentModel::Text(t) => start_tag(e) + t + end_tag(e),
        ContentModel::Children(cs) => start_tag(e) + children_text(cs, indent + indent_step()) + seq![
            '\n',
        ] + indent + end_tag(e),
    }
}

/// Each child on a new line, after `indent`.
pub open spec fn children_text(cs: Seq<ElementModel>, indent: Seq<char>) -> Seq<char>
    decreases cs,
{
    if cs.len() == 0 {
        Seq::empty()
    } else {
        children_text(cs.subrange(0, cs.len() - 1), indent) + seq!['\n'] + indent + element_text(
            cs[cs.len() - 1],
            indent,
        )
    }
}

/// The leading line of a standalone UTF-8 document.
pub open spec fn declaration_text() -> Seq<char> {
    "<?xml version=\"1.0\" encoding=\"UTF-8\" standalone=\"yes\"?>"@
}

/// A whole document: the declaration, then the root element, each on a line
/// of its own.
pub open spec fn document_text(root: ElementModel) -> Seq<char> {
    declaration_text() + seq!['\n'] + element_text(root, Seq::empty()) + seq!['\n']
}

pub open spec fn is_name_start_char(c: char) -> bool {
    ('a' <= c && c <= 'z') || ('A' <= c && c <= 'Z') || c == '_' || c == ':'
}

pub open spec fn is_name_char(c: char) -> bool {
    is_name_start_char(c) || ('0' <= c && c <= '9') || c == '-' || c == '.'
}

/// A name made of ASCII name characters, as XML allows for element and
/// attribute names.
pub open spec fn is_xml_name(s: Seq<char>) -> bool {
    &&& s.len() > 0
    &&& is_name_start_char(s[0])
    &&& forall|i: int| 0 <= i < s.len() ==> is_name_char(#[trigger] s[i])
}

/// A value that may stand between double quotes without escaping.
pub open spec fn is_attribute_value(s: Seq<char>) -> bool {
    forall|i: int| 0 <= i < s.len() ==> #[trigger] s[i] != '<' && s[i] != '&' && s[i] != '"'
}

/// Text that may stand as character data without escaping.
pub open spec fn is_character_data(s: Seq<char>) -> bool {
    forall|i: int| 0 <= i < s.len() ==> #[trigger] s[i] != '<' && s[i] != '&' && s[i] != '>'
}

/// Valid names and values, and no name given twice.
pub open spec fn attributes_well_formed(attrs: Seq<(Seq<char>, Seq<char>)>) -> bool {
    &&& forall|i: int|
        0 <= i < attrs.len() ==> is_xml_name(#[trigger] attrs[i].0) && is_attribute_value(
            attrs[i].1,
        )
    &&& forall|i: int, j: int|
        0 <= i < j < attrs.len() ==> #[trigger] attrs[i].0 != #[trigger] attrs[j].0
}

/// An element whose serialization is well-formed XML: every name is an XML
/// name, the attributes of each start tag are distinct, and no value or text
/// needs escaping.
pub open spec fn is_well_formed(e: ElementModel) -> bool
    decreases e,
{
    &&& is_xml_name(e.name)
    &&& attributes_well_formed(e.attributes)
    &&& match e.content {
        ContentModel::Text(t) => is_character_data(t),
        ContentModel::Children(cs) => children_well_formed(cs),
    }
}

pub open spec fn children_well_formed(cs: Seq<ElementModel>) -> bool
    decreases cs,
{
    if cs.len() == 0 {
        true
    } else {
        children_well_formed(cs.subrange(0, cs.len() - 1)) && is_well_formed(cs[cs.len() - 1])
    }
}

/// Appends each attribute as ` name="value"`.
fn write_attributes(attrs: &Vec<Attribute>, out: &mut String)
    ensures
        final(out)@ == old(out)@ + attributes_text(attributes_model(attrs@)),
{
    proof {
        reveal_strlit(" ");
        reveal_strlit("=\"");
        reveal_strlit("\"");
        assert(" "@ =~= seq![' ']);
        assert("=\""@ =~= seq!['=', '"']);
        assert("\""@ =~= seq!['"']);
    }
    let ghost start = out@;
    let mut i: usize = 0;
    while i < attrs.len()
        invariant
            i <= attrs.len(),
            out@ == start + attributes_text(attributes_model(attrs@.subrange(0, i as int))),
            " "@ == seq![' '],
            "=\""@ == seq!['=', '"'],
            "\""@ == seq!['"'],
        decreases attrs.len() - i,
    {
        let a = &attrs[i];
        let ghost prev = out@;
        out.append(" ");
        out.append(a.name.as_str());
        out.append("=\"");
        out.append(a.value.as_str());
        out.append("\"");
        proof {
            let next = attributes_model(attrs@.subrange(0, i + 1));
            assert(next.subrange(0, i as int) =~= attributes_model(attrs@.subrange(0, i as int)));
            assert(next[i as int] == attribute_model(*a));
            assert(out@ =~= prev + attribute_text(attribute_model(*a)));
            assert(attributes_text(next) == attributes_text(next.subrange(0, i as int))
                + attribute_text(next[i as int]));
            assert(out@ =~= start + attributes_text(next));
        }
        i = i + 1;
    }
    assert(attrs@.subrange(0, attrs.len() as int) =~= attrs@);
}

impl Element {
    /// Appends the serialization of this element, whose start tag stands
    /// after `indent` on its line.
    pub fn write_to(&self, indent: &str, out: &mut String)
        ensures
            final(out)@ == old(out)@ + element_text(self@, indent@),
        decreases self,
    {
        proof {
            reveal_strlit("<");
            reveal_strlit(">");
            reveal_strlit("</");
            reveal_strlit("\n");
            reveal_strlit("  ");
            assert("<"@ =~= seq!['<']);
            assert(">"@ =~= seq!['>']);
            assert("</"@ =~= seq!['<', '/']);
            assert("\n"@ =~= seq!['\n']);
            assert("  "@ =~= indent_step());
        }
        let ghost start = out@;
        out.append("<");
        out.append(self.name.as_str());
        write_attributes(&self.attributes, out);
        out.append(">");
        assert(out@ =~= start + start_tag(self@));
        match &self.content {
            Content::Text(t) => {
                out.append(t.as_str());
            },
            Content::Children(cs) => {
                let mut inner = String::from_str(indent);
                inner.append("  ");
                assert(inner@ =~= indent@ + indent_step());
                let ghost before = out@;
                let mut i: usize = 0;
                while i < cs.len()
                    invariant
                        self.content == Content::Children(*cs),
                        i <= cs.len(),
                        inner@ == indent@ + indent_step(),
                        "\n"@ == seq!['\n'],
                        out@ == before + children_text(children_model(cs@.subrange(0, i as int)), inner@),
                    decreases cs.len() - i,
                {
                    let ghost prev = out@;
                    out.append("\n");
                    out.append(inner.as_str());
                    proof {
                        assert(decreases_to!(self.content => self.content->Children_0));
                        assert(decreases_to!(*cs => cs@));
                        assert(decreases_to!(cs@ => cs@[i as int]));
                    }
                    cs[i].write_to(inner.as_str(), out);
                    proof {
                        let next = cs@.subrange(0, i + 1);
                        assert(next.subrange(0, i as int) =~= cs@.subrange(0, i as int));
                        let prefix = children_model(cs@.subrange(0, i as int));
                        let models = children_model(next);
                        lemma_children_model(cs@.subrange(0, i as int));
                        assert(models == prefix.push(cs@[i as int]@));
                        assert(models.subrange(0, i as int) =~= prefix);
                        assert(children_text(models, inner@) == children_text(prefix, inner@)
                            + seq!['\n'] + inner@ + element_text(cs@[i as int]@, inner@));
                        assert(out@ =~= before + children_text(models, inner@));
                    }
                    i = i + 1;
                }
                assert(cs@.subrange(0, cs.len() as int) =~= cs@);
                out.append("\n");
                out.append(indent);
            },
        }
        out.append("</");
        out.append(self.name.as_str());
        out.append(">");
        assert(out@ =~= start + element_text(self@, indent@));
    }

    /// The whole document: the declaration line, then this element as the
    /// root, then a final line break.
    pub fn to_document(&self) -> (r: String)
        ensures
            r@ == document_text(self@),
    {
        proof {
            reveal_strlit("\n");
            reveal_strlit("");
        }
        let mut out = String::from_str("<?xml version=\"1.0\" encoding=\"UTF-8\" standalone=\"yes\"?>");
        out.append("\n");
        self.write_to("", &mut out);
        out.append("\n");
        assert(""@ =~= Seq::<char>::empty());
        assert(out@ =~= document_text(self@));
        out
    }
}

} // verus!
