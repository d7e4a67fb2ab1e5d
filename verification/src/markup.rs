//! The markup that the renderers produce: a tree of elements and text.

use vstd::prelude::*;

verus! {

/// The elements that a rendered form can hold.
#[derive(Clone, Copy, Debug, PartialEq, Eq, Structural)]
pub enum Tag {
    A,
    Button,
    Code,
    Div,
    Fieldset,
    Form,
    H1,
    Img,
    Input,
    Label,
    Legend,
    Li,
    P,
    Script,
    Span,
    Table,
    Tbody,
    Td,
    Th,
    Thead,
    Tr,
    Ul,
}

/// The attributes that a rendered element can carry.
#[derive(Clone, Copy, Debug, PartialEq, Eq, Structural)]
pub enum AttrName {
    Action,
    Alt,
    Async,
    Autocomplete,
    Checked,
    Class,
    Crossorigin,
    Disabled,
    For,
    Height,
    Href,
    Id,
    Integrity,
    Method,
    Name,
    Nonce,
    Pattern,
    Placeholder,
    Referrerpolicy,
    Required,
    Role,
    Src,
    Type,
    Value,
    Width,
}

/// What an attribute holds: a text, or a flag that is set or not.
#[derive(Debug, PartialEq, Eq)]
pub enum AttrValue {
    Text(String),
    Flag(bool),
}

/// The mathematical value of an [`AttrValue`].
pub enum AttrValueView {
    Text(Seq<char>),
    Flag(bool),
}

impl View for AttrValue {
    type V = AttrValueView;

    open spec fn view(&self) -> AttrValueView {
        match self {
            AttrValue::Text(s) => AttrValueView::Text(s@),
            AttrValue::Flag(b) => AttrValueView::Flag(*b),
        }
    }
}

impl DeepView for AttrValue {
    type V = AttrValueView;

    open spec fn deep_view(&self) -> AttrValueView {
        self@
    }
}

/// One attribute of an element.
#[derive(Debug, PartialEq, Eq)]
pub struct Attr {
    pub name: AttrName,
    pub value: AttrValue,
}

/// The mathematical value of an [`Attr`].
pub struct AttrView {
    pub name: AttrName,
    pub value: AttrValueView,
}

impl View for Attr {
    type V = AttrView;

    open spec fn view(&self) -> AttrView {
        AttrView { name: self.name, value: self.value@ }
    }
}

impl DeepView for Attr {
    type V = AttrView;

    open spec fn deep_view(&self) -> AttrView {
        self@
    }
}

/// A piece of markup: a run of text, or an element with its attributes and
/// its children in document order.
#[derive(Debug, PartialEq, Eq)]
pub enum Markup {
    Text(String),
    Element { tag: Tag, attrs: Vec<Attr>, children: Vec<Markup> },
}

/// The mathematical value of a [`Markup`].
pub enum MarkupView {
    Text(Seq<char>),
    Element { tag: Tag, attrs: Seq<AttrView>, children: Seq<MarkupView> },
}

impl Markup {
    /// The tree that this markup stands for.
    pub open spec fn model(self) -> MarkupView
        decreases self,
    {
        match self {
            Markup::Text(s) => MarkupView::Text(s@),
            Markup::Element { tag, attrs, children } => MarkupView::Element {
                tag,
                attrs: attrs.deep_view(),
                children: Seq::new(
                    children@.len(),
                    |i: int|
                        if 0 <= i < children@.len() {
                            children@[i].model()
                        } else {
                            arbitrary()
                        },
                ),
            },
        }
    }
}

impl View for Markup {
    type V = MarkupView;

    open spec fn view(&self) -> MarkupView {
        self.model()
    }
}

impl DeepView for Markup {
    type V = MarkupView;

    open spec fn deep_view(&self) -> MarkupView {
        self.model()
    }
}

/// An attribute that holds a text.
pub open spec fn text_attr(name: AttrName, value: Seq<char>) -> AttrView {
    AttrView { name, value: AttrValueView::Text(value) }
}

/// An attribute that holds a flag.
pub open spec fn flag_attr(name: AttrName, flag: bool) -> AttrView {
    AttrView { name, value: AttrValueView::Flag(flag) }
}

/// A text attribute where there is a text, and none otherwise.
pub open spec fn opt_text_attr(name: AttrName, value: Option<Seq<char>>) -> Option<AttrView> {
    match value {
        Some(v) => Some(text_attr(name, v)),
        None => None,
    }
}

/// A flag attribute where there is a flag, and none otherwise.
pub open spec fn opt_flag_attr(name: AttrName, flag: Option<bool>) -> Option<AttrView> {
    match flag {
        Some(f) => Some(flag_attr(name, f)),
        None => None,
    }
}

/// The list with the item at its end, where there is an item.
pub open spec fn push_opt<T>(list: Seq<T>, item: Option<T>) -> Seq<T> {
    match item {
        Some(x) => list.push(x),
        None => list,
    }
}

/// A run of text.
pub open spec fn text_view(s: Seq<char>) -> MarkupView {
    MarkupView::Text(s)
}

/// An element with its attributes and children.
pub open spec fn element_view(
    tag: Tag,
    attrs: Seq<AttrView>,
    children: Seq<MarkupView>,
) -> MarkupView {
    MarkupView::Element { tag, attrs, children }
}

/// An element without attributes.
pub open spec fn plain_view(tag: Tag, children: Seq<MarkupView>) -> MarkupView {
    element_view(tag, Seq::empty(), children)
}

/// An element whose only attribute is its classes.
pub open spec fn classed_view(tag: Tag, classes: Seq<char>, children: Seq<MarkupView>) -> MarkupView {
    element_view(tag, seq![text_attr(AttrName::Class, classes)], children)
}

/// An element without attributes that holds one run of text.
pub open spec fn holding_view(tag: Tag, s: Seq<char>) -> MarkupView {
    plain_view(tag, seq![text_view(s)])
}

/// The children of an element's view are the views of its children.
pub proof fn lemma_element_view(m: Markup)
    requires
        m is Element,
    ensures
        m@ == element_view(m->tag, m->attrs.deep_view(), m->children.deep_view()),
{
    assert(m@->children =~= m->children.deep_view());
}

/// Builds a run of text.
pub fn text(s: &str) -> (m: Markup)
    ensures
        m@ == text_view(s@),
{
    Markup::Text(s.to_owned())
}

/// Builds an element from its attributes and children.
pub fn element(tag: Tag, attrs: Vec<Attr>, children: Vec<Markup>) -> (m: Markup)
    ensures
        m@ == element_view(tag, attrs.deep_view(), children.deep_view()),
{
    let m = Markup::Element { tag, attrs, children };
    proof {
        lemma_element_view(m);
    }
    m
}

/// Builds an element without attributes.
pub fn plain(tag: Tag, children: Vec<Markup>) -> (m: Markup)
    ensures
        m@ == plain_view(tag, children.deep_view()),
{
    element(tag, empty_list(), children)
}

/// Builds an element whose only attribute is its classes.
pub fn classed(tag: Tag, classes: &str, children: Vec<Markup>) -> (m: Markup)
    ensures
        m@ == classed_view(tag, classes@, children.deep_view()),
{
    let mut attrs: Vec<Attr> = empty_list();
    push_text(&mut attrs, AttrName::Class, classes);
    element(tag, attrs, children)
}

/// Builds an element without attributes that holds one run of text.
pub fn holding(tag: Tag, s: &str) -> (m: Markup)
    ensures
        m@ == holding_view(tag, s@),
{
    let mut children: Vec<Markup> = empty_list();
    push_item(&mut children, text(s));
    plain(tag, children)
}

/// A list without items.
pub fn empty_list<T: DeepView>() -> (list: Vec<T>)
    ensures
        list.deep_view() == Seq::<T::V>::empty(),
{
    let list = Vec::new();
    assert(list.deep_view() =~= Seq::<T::V>::empty());
    list
}

/// Puts an item at the end of a list.
pub fn push_item<T: DeepView>(list: &mut Vec<T>, item: T)
    ensures
        final(list).deep_view() == old(list).deep_view().push(item.deep_view()),
{
    list.push(item);
    assert(list.deep_view() =~= old(list).deep_view().push(item.deep_view()));
}

/// Moves the items of `more` to the end of a list, in their order.
pub fn append_items<T: DeepView>(list: &mut Vec<T>, more: Vec<T>)
    ensures
        final(list).deep_view() == old(list).deep_view() + more.deep_view(),
{
    let mut more = more;
    let ghost added = more.deep_view();
    list.append(&mut more);
    assert(list.deep_view() =~= old(list).deep_view() + added);
}

/// Puts a text attribute at the end of a list.
pub fn push_text(attrs: &mut Vec<Attr>, name: AttrName, value: &str)
    ensures
        final(attrs).deep_view() == old(attrs).deep_view().push(text_attr(name, value@)),
{
    push_item(attrs, Attr { name, value: AttrValue::Text(value.to_owned()) });
}

/// Puts a flag attribute at the end of a list.
pub fn push_flag(attrs: &mut Vec<Attr>, name: AttrName, flag: bool)
    ensures
        final(attrs).deep_view() == old(attrs).deep_view().push(flag_attr(name, flag)),
{
    push_item(attrs, Attr { name, value: AttrValue::Flag(flag) });
}

/// Puts a text attribute at the end of a list, where there is a text.
pub fn push_opt_text(attrs: &mut Vec<Attr>, name: AttrName, value: &Option<String>)
    ensures
        final(attrs).deep_view() == push_opt(
            old(attrs).deep_view(),
            opt_text_attr(name, value.deep_view()),
        ),
{
    match value {
        Some(v) => push_text(attrs, name, v.as_str()),
        None => {},
    }
}

/// Puts a flag attribute at the end of a list, where there is a flag.
pub fn push_opt_flag(attrs: &mut Vec<Attr>, name: AttrName, flag: Option<bool>)
    ensures
        final(attrs).deep_view() == push_opt(old(attrs).deep_view(), opt_flag_attr(name, flag)),
{
    match flag {
        Some(f) => push_flag(attrs, name, f),
        None => {},
    }
}

/// The name of an element, as a document writes it.
pub open spec fn tag_name(tag: Tag) -> Seq<char> {
    match tag {
        Tag::A => "a"@,
        Tag::Button => "button"@,
        Tag::Code => "code"@,
        Tag::Div => "div"@,
        Tag::Fieldset => "fieldset"@,
        Tag::Form => "form"@,
        Tag::H1 => "h1"@,
        Tag::Img => "img"@,
        Tag::Input => "input"@,
        Tag::Label => "label"@,
        Tag::Legend => "legend"@,
        Tag::Li => "li"@,
        Tag::P => "p"@,
        Tag::Script => "script"@,
        Tag::Span => "span"@,
        Tag::Table => "table"@,
        Tag::Tbody => "tbody"@,
        Tag::Td => "td"@,
        Tag::Th => "th"@,
        Tag::Thead => "thead"@,
        Tag::Tr => "tr"@,
        Tag::Ul => "ul"@,
    }
}

/// The name of an attribute, as a document writes it.
pub open spec fn attr_name(name: AttrName) -> Seq<char> {
    match name {
        AttrName::Action => "action"@,
        AttrName::Alt => "alt"@,
        AttrName::Async => "async"@,
        AttrName::Autocomplete => "autocomplete"@,
        AttrName::Checked => "checked"@,
        AttrName::Class => "class"@,
        AttrName::Crossorigin => "crossorigin"@,
        AttrName::Disabled => "disabled"@,
        AttrName::For => "for"@,
        AttrName::Height => "height"@,
        AttrName::Href => "href"@,
        AttrName::Id => "id"@,
        AttrName::Integrity => "integrity"@,
        AttrName::Method => "method"@,
        AttrName::Name => "name"@,
        AttrName::Nonce => "nonce"@,
        AttrName::Pattern => "pattern"@,
        AttrName::Placeholder => "placeholder"@,
        AttrName::Referrerpolicy => "referrerpolicy"@,
        AttrName::Required => "required"@,
        AttrName::Role => "role"@,
        AttrName::Src => "src"@,
        AttrName::Type => "type"@,
        AttrName::Value => "value"@,
        AttrName::Width => "width"@,
    }
}

impl Tag {
    /// The name of this element.
    pub fn name(self) -> (s: &'static str)
        ensures
            s@ == tag_name(self),
    {
        match self {
            Tag::A => "a",
            Tag::Button => "button",
            Tag::Code => "code",
            Tag::Div => "div",
            Tag::Fieldset => "fieldset",
            Tag::Form => "form",
            Tag::H1 => "h1",
            Tag::Img => "img",
            Tag::Input => "input",
            Tag::Label => "label",
            Tag::Legend => "legend",
            Tag::Li => "li",
            Tag::P => "p",
            Tag::Script => "script",
            Tag::Span => "span",
            Tag::Table => "table",
            Tag::Tbody => "tbody",
            Tag::Td => "td",
            Tag::Th => "th",
            Tag::Thead => "thead",
            Tag::Tr => "tr",
            Tag::Ul => "ul",
        }
    }
}

impl AttrName {
    /// The name of this attribute.
    pub fn name(self) -> (s: &'static str)
        ensures
            s@ == attr_name(self),
    {
        match self {
            AttrName::Action => "action",
            AttrName::Alt => "alt",
            AttrName::Async => "async",
            AttrName::Autocomplete => "autocomplete",
            AttrName::Checked => "checked",
            AttrName::Class => "class",
            AttrName::Crossorigin => "crossorigin",
            AttrName::Disabled => "disabled",
            AttrName::For => "for",
            AttrName::Height => "height",
            AttrName::Href => "href",
            AttrName::Id => "id",
            AttrName::Integrity => "integrity",
            AttrName::Method => "method",
            AttrName::Name => "name",
            AttrName::Nonce => "nonce",
            AttrName::Pattern => "pattern",
            AttrName::Placeholder => "placeholder",
            AttrName::Referrerpolicy => "referrerpolicy",
            AttrName::Required => "required",
            AttrName::Role => "role",
            AttrName::Src => "src",
            AttrName::Type => "type",
            AttrName::Value => "value",
            AttrName::Width => "width",
        }
    }
}

} // verus!
