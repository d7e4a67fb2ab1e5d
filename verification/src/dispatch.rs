//! The dispatcher: it renders each node of a list with the renderer of its
//! kind, in the order of the list.

use crate::markup::{
    append_items, element, element_view, empty_list, push_item, push_text, text, text_attr,
    text_view, Attr, AttrName, Markup, MarkupView, Tag,
};
use crate::model::{
    InputAttributes, InputAttributesView, InputType, NodeAttributes, NodeAttributesView, UiNode,
    UiNodeView, UiText, UiTextView,
};
use crate::render::{
    image_node, image_view, input_button_node, input_button_view, input_check_box_node,
    input_check_box_view, input_field_node, input_field_view, input_hidden_node,
    input_hidden_view, input_other_node, input_other_view, link_node, link_node_view,
    script_node, script_view, text_node, text_node_view,
};
use vstd::prelude::*;

verus! {

/// Whether the browser validates a field of this type as the user types.
/// It does so for passwords and e-mail addresses, and for nothing else.
pub open spec fn validated(t: InputType) -> bool {
    t == InputType::Password || t == InputType::Email
}

/// The rule that a password must match: at least eight characters, among
/// them a digit, a lower-case and an upper-case letter.
pub open spec fn password_pattern() -> Seq<char> {
    "(?=.*\\d)(?=.*[a-z])(?=.*[A-Z]).{8,}"@
}

/// What the hint block of a password field tells the user.
pub open spec fn password_hint() -> Seq<MarkupView> {
    Seq::empty().push(text_view("Password must be more than 8 characters, and include:"@)).push(
        element_view(
            Tag::Ul,
            seq![text_attr(AttrName::Class, "list-disc list-inside"@)],
            Seq::empty().push(
                element_view(Tag::Li, Seq::empty(), seq![text_view("At least one number"@)]),
            ).push(
                element_view(
                    Tag::Li,
                    Seq::empty(),
                    seq![text_view("At least one lowercase letter"@)],
                ),
            ).push(
                element_view(
                    Tag::Li,
                    Seq::empty(),
                    seq![text_view("At least one uppercase letter"@)],
                ),
            ),
        ),
    )
}

/// What the hint block of an e-mail field tells the user.
pub open spec fn email_hint() -> Seq<MarkupView> {
    seq![
        element_view(Tag::P, Seq::empty(), seq![text_view("Enter valid email address"@)]),
    ]
}

/// The pattern that a field of this type carries, where it carries one.
pub open spec fn validation_pattern(t: InputType) -> Option<Seq<char>> {
    if t == InputType::Password {
        Some(password_pattern())
    } else {
        None
    }
}

/// The hint of a field of this type, where it has one.
pub open spec fn validation_hint(t: InputType) -> Option<Seq<MarkupView>> {
    if t == InputType::Password {
        Some(password_hint())
    } else if t == InputType::Email {
        Some(email_hint())
    } else {
        None
    }
}

/// The markup of an input node. Its type alone picks the renderer.
pub open spec fn input_view(meta: Option<UiTextView>, attrs: InputAttributesView) -> MarkupView {
    match attrs.input_type {
        InputType::Text | InputType::Password | InputType::Email => input_field_view(
            meta,
            attrs,
            validated(attrs.input_type),
            validation_pattern(attrs.input_type),
            validation_hint(attrs.input_type),
        ),
        InputType::Submit | InputType::Button => input_button_view(meta, attrs),
        InputType::Checkbox => input_check_box_view(meta, attrs),
        InputType::Hidden => input_hidden_view(meta, attrs),
        InputType::Number
        | InputType::Tel
        | InputType::DatetimeLocal
        | InputType::Date
        | InputType::Url => input_other_view(meta, attrs),
    }
}

/// The markup of one node: what the renderer of its kind makes of its
/// attributes and its label. The group of the node plays no part.
pub open spec fn node_view(node: UiNodeView) -> Seq<MarkupView> {
    match node.attributes {
        NodeAttributesView::Input(a) => seq![input_view(node.meta, a)],
        NodeAttributesView::Image(a) => seq![image_view(node.meta, a)],
        NodeAttributesView::Text(a) => text_node_view(node.meta, a),
        NodeAttributesView::Anchor(a) => link_node_view(node.meta, a),
        NodeAttributesView::Script(a) => seq![script_view(a)],
    }
}

/// The markup of a list of nodes: the markup of each node, one after the
/// other in the order of the list.
pub open spec fn nodes_view(nodes: Seq<UiNodeView>) -> Seq<MarkupView>
    decreases nodes.len(),
{
    if nodes.len() == 0 {
        Seq::empty()
    } else {
        nodes_view(nodes.drop_last()) + node_view(nodes.last())
    }
}

/// A list of one node renders to the markup of that node.
pub proof fn lemma_nodes_view_single(node: UiNodeView)
    ensures
        nodes_view(seq![node]) == node_view(node),
{
    let one = seq![node];
    assert(one.drop_last() =~= Seq::<UiNodeView>::empty());
    assert(nodes_view(one.drop_last()) =~= Seq::<MarkupView>::empty());
    assert(nodes_view(one) =~= node_view(node));
}

/// Rendering two lists one after the other gives what rendering them as one
/// list gives.
pub proof fn lemma_nodes_view_concat(a: Seq<UiNodeView>, b: Seq<UiNodeView>)
    ensures
        nodes_view(a + b) == nodes_view(a) + nodes_view(b),
    decreases b.len(),
{
    if b.len() == 0 {
        assert(a + b =~= a);
        assert(nodes_view(a) + nodes_view(b) =~= nodes_view(a));
    } else {
        lemma_nodes_view_concat(a, b.drop_last());
        assert((a + b).drop_last() =~= a + b.drop_last());
        assert((a + b).last() == b.last());
        assert(nodes_view(a + b) =~= nodes_view(a) + nodes_view(b));
    }
}

/// Rendering keeps the order of the nodes: the markup of the node at `i`
/// stands after the markup of all nodes before it and before the markup of
/// all nodes after it.
pub proof fn lemma_rendering_keeps_order(nodes: Seq<UiNodeView>, i: int)
    requires
        0 <= i < nodes.len(),
    ensures
        nodes_view(nodes) == nodes_view(nodes.take(i)) + node_view(nodes[i]) + nodes_view(
            nodes.skip(i + 1),
        ),
{
    let before = nodes.take(i);
    let at = seq![nodes[i]];
    let after = nodes.skip(i + 1);
    assert(nodes =~= before + at + after);
    lemma_nodes_view_concat(before + at, after);
    lemma_nodes_view_concat(before, at);
    lemma_nodes_view_single(nodes[i]);
}

/// Every node renders to at least one piece of markup.
pub proof fn lemma_node_view_nonempty(node: UiNodeView)
    ensures
        node_view(node).len() >= 1,
{
}

fn password_hint_nodes() -> (list: Vec<Markup>)
    ensures
        list.deep_view() == password_hint(),
{
    let mut first: Vec<Markup> = empty_list();
    push_item(&mut first, text("At least one number"));
    let mut second: Vec<Markup> = empty_list();
    push_item(&mut second, text("At least one lowercase letter"));
    let mut third: Vec<Markup> = empty_list();
    push_item(&mut third, text("At least one uppercase letter"));
    let mut items: Vec<Markup> = empty_list();
    push_item(&mut items, element(Tag::Li, empty_list(), first));
    push_item(&mut items, element(Tag::Li, empty_list(), second));
    push_item(&mut items, element(Tag::Li, empty_list(), third));
    let mut a: Vec<Attr> = empty_list();
    push_text(&mut a, AttrName::Class, "list-disc list-inside");
    let mut list: Vec<Markup> = empty_list();
    push_item(&mut list, text("Password must be more than 8 characters, and include:"));
    push_item(&mut list, element(Tag::Ul, a, items));
    list
}

fn email_hint_nodes() -> (list: Vec<Markup>)
    ensures
        list.deep_view() == email_hint(),
{
    let mut body: Vec<Markup> = empty_list();
    push_item(&mut body, text("Enter valid email address"));
    let mut list: Vec<Markup> = empty_list();
    push_item(&mut list, element(Tag::P, empty_list(), body));
    list
}

/// Renders an input node with the renderer of its type.
pub fn input_node(meta: &Option<UiText>, attrs: &InputAttributes) -> (m: Markup)
    ensures
        m@ == input_view(meta.deep_view(), attrs@),
{
    match attrs.input_type {
        InputType::Text => input_field_node(meta, attrs, false, &None, None),
        InputType::Password => {
            let pattern = Some("(?=.*\\d)(?=.*[a-z])(?=.*[A-Z]).{8,}".to_owned());
            input_field_node(meta, attrs, true, &pattern, Some(password_hint_nodes()))
        },
        InputType::Email => input_field_node(meta, attrs, true, &None, Some(email_hint_nodes())),
        InputType::Submit => input_button_node(meta, attrs),
        InputType::Button => input_button_node(meta, attrs),
        InputType::Checkbox => input_check_box_node(meta, attrs),
        InputType::Hidden => input_hidden_node(meta, attrs),
        InputType::Number => input_other_node(meta, attrs),
        InputType::Tel => input_other_node(meta, attrs),
        InputType::DatetimeLocal => input_other_node(meta, attrs),
        InputType::Date => input_other_node(meta, attrs),
        InputType::Url => input_other_node(meta, attrs),
    }
}

/// Renders one node with the renderer of its kind.
pub fn render_node(node: &UiNode) -> (list: Vec<Markup>)
    ensures
        list.deep_view() == node_view(node@),
{
    match &node.attributes {
        NodeAttributes::Input(a) => {
            let mut list: Vec<Markup> = empty_list();
            push_item(&mut list, input_node(&node.meta, a));
            list
        },
        NodeAttributes::Image(a) => {
            let mut list: Vec<Markup> = empty_list();
            push_item(&mut list, image_node(&node.meta, a));
            list
        },
        NodeAttributes::Text(a) => text_node(&node.meta, a),
        NodeAttributes::Anchor(a) => link_node(&node.meta, a),
        NodeAttributes::Script(a) => {
            let mut list: Vec<Markup> = empty_list();
            push_item(&mut list, script_node(a));
            list
        },
    }
}

/// Renders the nodes of a list, each with the renderer of its kind, in the
/// order of the list.
pub fn node_builder(nodes: &Vec<UiNode>) -> (list: Vec<Markup>)
    ensures
        list.deep_view() == nodes_view(nodes.deep_view()),
{
    let mut list: Vec<Markup> = empty_list();
    let mut i: usize = 0;
    while i < nodes.len()
        invariant
            i <= nodes.len(),
            list.deep_view() == nodes_view(nodes.deep_view().take(i as int)),
        decreases nodes.len() - i,
    {
        let rendered = render_node(&nodes[i]);
        proof {
            let upto = nodes.deep_view().take(i as int + 1);
            assert(upto.drop_last() =~= nodes.deep_view().take(i as int));
            assert(upto.last() == nodes[i as int]@);
        }
        append_items(&mut list, rendered);
        i = i + 1;
    }
    proof {
        assert(nodes.deep_view().take(i as int) =~= nodes.deep_view());
    }
    list
}

} // verus!
