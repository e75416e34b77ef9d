//! The manifest that makes Windows run an executable with UTF-8 as its
//! active code page.
use crate::xml::{
    Attribute, Content, ContentModel, Element, ElementModel, attribute_text, attributes_model,
    attributes_text, children_model, children_text, children_well_formed, declaration_text,
    document_text, element_text, end_tag, indent_step, is_well_formed, lemma_children_model,
    start_tag,
};
use vstd::prelude::*;

verus! {

/// The first child named `name`, if any.
pub open spec fn find_child(cs: Seq<ElementModel>, name: Seq<char>) -> Option<ElementModel>
    decreases cs.len(),
{
    if cs.len() == 0 {
        None
    } else if cs[0].name == name {
        Some(cs[0])
    } else {
        find_child(cs.subrange(1, cs.len() as int), name)
    }
}

pub open spec fn child(e: ElementModel, name: Seq<char>) -> Option<ElementModel> {
    match e.content {
        ContentModel::Children(cs) => find_child(cs, name),
        ContentModel::Text(_) => None,
    }
}

pub open spec fn text_content(e: ElementModel) -> Option<Seq<char>> {
    match e.content {
        ContentModel::Text(t) => Some(t),
        ContentModel::Children(_) => None,
    }
}

/// The code page that a manifest rooted at `root` sets, found under
/// `assembly/application/windowsSettings/activeCodePage`.
pub open spec fn active_code_page(root: ElementModel) -> Option<Seq<char>> {
    if root.name != "assembly"@ {
        None
    } else {
        match child(root, "application"@) {
            None => None,
            Some(app) => match child(app, "windowsSettings"@) {
                None => None,
                Some(settings) => match child(settings, "activeCodePage"@) {
                    None => None,
                    Some(page) => text_content(page),
                },
            },
        }
    }
}

pub open spec fn active_code_page_model() -> ElementModel {
    ElementModel {
        name: "activeCodePage"@,
        attributes: seq![("xmlns"@, "http://schemas.microsoft.com/SMI/2019/WindowsSettings"@)],
        content: ContentModel::Text("UTF-8"@),
    }
}

pub open spec fn windows_settings_model() -> ElementModel {
    ElementModel {
        name: "windowsSettings"@,
        attributes: Seq::empty(),
        content: ContentModel::Children(seq![active_code_page_model()]),
    }
}

pub open spec fn application_model() -> ElementModel {
    ElementModel {
        name: "application"@,
        attributes: Seq::empty(),
        content: ContentModel::Children(seq![windows_settings_model()]),
    }
}

/// The manifest: an `assembly` whose application settings declare UTF-8 as
/// the active code page.
pub open spec fn utf8_manifest() -> ElementModel {
    ElementModel {
        name: "assembly"@,
        attributes: seq![
            ("manifestVersion"@, "1.0"@),
            ("xmlns"@, "urn:schemas-microsoft-com:asm.v1"@),
        ],
        content: ContentModel::Children(seq![application_model()]),
    }
}

proof fn lemma_single_child_model(e: Element)
    requires
        e.content is Children,
        e.content->Children_0@.len() == 1,
    ensures
        e@.content == ContentModel::Children(seq![e.content->Children_0@[0]@]),
{
    let cs = e.content->Children_0@;
    lemma_children_model(cs);
    assert(children_model(cs) =~= seq![cs[0]@]);
}

fn attribute(name: &str, value: &str) -> (r: Attribute)
    ensures
        r.name@ == name@,
        r.value@ == value@,
{
    Attribute { name: String::from_str(name), value: String::from_str(value) }
}

/// The manifest as an element tree.
pub fn manifest_element() -> (r: Element)
    ensures
        r@ == utf8_manifest(),
{
    let page = Element {
        name: String::from_str("activeCodePage"),
        attributes: vec![
            attribute("xmlns", "http://schemas.microsoft.com/SMI/2019/WindowsSettings"),
        ],
        content: Content::Text(String::from_str("UTF-8")),
    };
    assert(attributes_model(page.attributes@) =~= active_code_page_model().attributes);
    assert(page@ =~= active_code_page_model());
    let settings = Element {
        name: String::from_str("windowsSettings"),
        attributes: Vec::new(),
        content: Content::Children(vec![page]),
    };
    proof {
        lemma_single_child_model(settings);
    }
    assert(attributes_model(settings.attributes@) =~= Seq::empty());
    assert(settings@ =~= windows_settings_model());
    let application = Element {
        name: String::from_str("application"),
        attributes: Vec::new(),
        content: Content::Children(vec![settings]),
    };
    proof {
        lemma_single_child_model(application);
    }
    assert(attributes_model(application.attributes@) =~= Seq::empty());
    assert(application@ =~= application_model());
    let assembly = Element {
        name: String::from_str("assembly"),
        attributes: vec![
            attribute("manifestVersion", "1.0"),
            attribute("xmlns", "urn:schemas-microsoft-com:asm.v1"),
        ],
        content: Content::Children(vec![application]),
    };
    proof {
        lemma_single_child_model(assembly);
    }
    assert(attributes_model(assembly.attributes@) =~= utf8_manifest().attributes);
    assert(assembly@ =~= utf8_manifest());
    assembly
}

/// The text of the manifest file.
pub fn generate_manifest() -> (r: String)
    ensures
        r@ == document_text(utf8_manifest()),
{
    manifest_element().to_document()
}

/// The manifest is well-formed XML, and it sets the active code page to
/// `UTF-8`.
pub proof fn lemma_manifest_is_utf8_document()
    ensures
        is_well_formed(utf8_manifest()),
        active_code_page(utf8_manifest()) == Some("UTF-8"@),
{
    reveal_strlit("assembly");
    reveal_strlit("application");
    reveal_strlit("windowsSettings");
    reveal_strlit("activeCodePage");
    reveal_strlit("manifestVersion");
    reveal_strlit("xmlns");
    reveal_strlit("1.0");
    reveal_strlit("urn:schemas-microsoft-com:asm.v1");
    reveal_strlit("http://schemas.microsoft.com/SMI/2019/WindowsSettings");
    reveal_strlit("UTF-8");
    let page = active_code_page_model();
    let settings = windows_settings_model();
    let application = application_model();
    let root = utf8_manifest();
    assert(is_well_formed(page));
    assert(seq![page].subrange(0, 0) =~= Seq::<ElementModel>::empty());
    assert(children_well_formed(Seq::<ElementModel>::empty()));
    assert(children_well_formed(seq![page]));
    assert(is_well_formed(settings));
    assert(seq![settings].subrange(0, 0) =~= Seq::<ElementModel>::empty());
    assert(children_well_formed(seq![settings]));
    assert(is_well_formed(application));
    assert(seq![application].subrange(0, 0) =~= Seq::<ElementModel>::empty());
    assert(children_well_formed(seq![application]));
    assert(root.attributes[0].0[0] != root.attributes[1].0[0]);
    assert(is_well_formed(root));
}

/// `t` occurs in `s` as a contiguous run of characters.
pub open spec fn contains(s: Seq<char>, t: Seq<char>) -> bool {
    exists|i: int| 0 <= i <= s.len() - t.len() && #[trigger] s.subrange(i, i + t.len()) == t
}

/// The line that sets the active code page to `UTF-8`.
pub open spec fn active_code_page_line() -> Seq<char> {
    "<activeCodePage xmlns=\"http://schemas.microsoft.com/SMI/2019/WindowsSettings\">UTF-8</activeCodePage>"@
}

proof fn lemma_active_code_page_text(indent: Seq<char>)
    ensures
        element_text(active_code_page_model(), indent) == active_code_page_line(),
{
    reveal_strlit(
        "<activeCodePage xmlns=\"http://schemas.microsoft.com/SMI/2019/WindowsSettings\">UTF-8</activeCodePage>",
    );
    reveal_strlit("activeCodePage");
    reveal_strlit("xmlns");
    reveal_strlit("http://schemas.microsoft.com/SMI/2019/WindowsSettings");
    reveal_strlit("UTF-8");
    let attrs = active_code_page_model().attributes;
    assert(attrs.subrange(0, 0) =~= Seq::<(Seq<char>, Seq<char>)>::empty());
    assert(attributes_text(Seq::<(Seq<char>, Seq<char>)>::empty()) =~= Seq::<char>::empty());
    assert(attributes_text(attrs) =~= attributes_text(attrs.subrange(0, 0)) + attribute_text(
        attrs[0],
    ));
    assert(attributes_text(attrs) =~= seq![' '] + "xmlns"@ + seq!['=', '"']
        + "http://schemas.microsoft.com/SMI/2019/WindowsSettings"@ + seq!['"']);
    assert(element_text(active_code_page_model(), indent) =~= active_code_page_line());
}

proof fn lemma_contains_middle(a: Seq<char>, b: Seq<char>, c: Seq<char>, t: Seq<char>)
    requires
        contains(b, t),
    ensures
        contains(a + b + c, t),
{
    let i = choose|i: int| 0 <= i <= b.len() - t.len() && #[trigger] b.subrange(i, i + t.len()) == t;
    let s = a + b + c;
    assert(s.subrange(a.len() + i, a.len() + i + t.len()) =~= b.subrange(i, i + t.len()));
}

/// What the text of a child contains, the text of its parent contains.
proof fn lemma_contains_through_child(
    e: ElementModel,
    c: ElementModel,
    indent: Seq<char>,
    t: Seq<char>,
)
    requires
        e.content == ContentModel::Children(seq![c]),
        contains(element_text(c, indent + indent_step()), t),
    ensures
        contains(element_text(e, indent), t),
{
    let inner = indent + indent_step();
    let cs = seq![c];
    assert(cs.subrange(0, 0) =~= Seq::<ElementModel>::empty());
    assert(children_text(Seq::<ElementModel>::empty(), inner) =~= Seq::<char>::empty());
    assert(children_text(cs, inner) =~= seq!['\n'] + inner + element_text(c, inner));
    let a = start_tag(e) + seq!['\n'] + inner;
    let z = seq!['\n'] + indent + end_tag(e);
    assert(element_text(e, indent) =~= a + element_text(c, inner) + z);
    lemma_contains_middle(a, element_text(c, inner), z, t);
}

/// The manifest text holds the line that sets the active code page to
/// `UTF-8`.
pub proof fn lemma_manifest_text_sets_utf8()
    ensures
        contains(document_text(utf8_manifest()), active_code_page_line()),
{
    let line = active_code_page_line();
    let i2 = Seq::<char>::empty() + indent_step();
    let i4 = i2 + indent_step();
    let i6 = i4 + indent_step();
    lemma_active_code_page_text(i6);
    assert(line.subrange(0int, 0int + line.len()) =~= line);
    assert(contains(element_text(active_code_page_model(), i6), line));
    lemma_contains_through_child(windows_settings_model(), active_code_page_model(), i4, line);
    lemma_contains_through_child(application_model(), windows_settings_model(), i2, line);
    lemma_contains_through_child(utf8_manifest(), application_model(), Seq::empty(), line);
    lemma_contains_middle(
        declaration_text() + seq!['\n'],
        element_text(utf8_manifest(), Seq::empty()),
        seq!['\n'],
        line,
    );
}

} // verus!
