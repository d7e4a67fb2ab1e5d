//! What shows in markup that the browser validates a field, and which
//! nodes show it.

use crate::dispatch::{
    email_hint, node_view, password_hint, password_pattern, validated, validation_hint,
    validation_pattern,
};
use crate::markup::{
    element_view, opt_flag_attr, opt_text_attr, push_opt, text_attr, text_view, AttrName,
    AttrView, MarkupView, Tag,
};
use crate::model::{
    AnchorAttributesView, ImageAttributesView, InputAttributesView, InputType,
    NodeAttributesView, ScriptAttributesView, TextAttributesView, UiNodeView, UiTextView,
};
use crate::render::{
    anchor, autocomplete_text, button_attrs, caption_for, caption_list, checkbox_control,
    field_attrs, field_class, hint_block, image_view, input_button_view, input_check_box_view,
    input_field_view, input_hidden_view, input_other_view, labelled, link_node_view,
    other_control, paragraph, picture, script_view, text_node_view,
};
use vstd::prelude::*;

verus! {

/// The classes of the hint block of a validated field.
pub open spec fn hint_class() -> Seq<char> {
    "validator-hint hidden"@
}

/// Whether an attribute belongs to validation: a pattern, the classes of a
/// validated control, or the classes of a hint block.
pub open spec fn is_validation_attr(a: AttrView) -> bool {
    ||| a.name == AttrName::Pattern
    ||| a == text_attr(AttrName::Class, field_class(true))
    ||| a == text_attr(AttrName::Class, hint_class())
}

/// Whether one of the attributes belongs to validation.
pub open spec fn has_validation_attr(attrs: Seq<AttrView>) -> bool {
    exists|j: int| 0 <= j < attrs.len() && is_validation_attr(#[trigger] attrs[j])
}

/// Whether a piece of markup shows validation anywhere: on itself or on
/// anything inside it.
pub open spec fn shows_validation(m: MarkupView) -> bool
    decreases m,
{
    match m {
        MarkupView::Text(_) => false,
        MarkupView::Element { tag, attrs, children } => {
            ||| has_validation_attr(attrs)
            ||| exists|i: int|
                0 <= i < children.len() && shows_validation(#[trigger] children[i])
        },
    }
}

/// Whether one piece of a list of markup shows validation.
pub open spec fn any_shows_validation(list: Seq<MarkupView>) -> bool {
    exists|k: int| 0 <= k < list.len() && shows_validation(#[trigger] list[k])
}

/// Whether a text differs from the classes that belong to validation.
pub open spec fn plain_class(c: Seq<char>) -> bool {
    c != field_class(true) && c != hint_class()
}

proof fn lemma_plain_classes()
    ensures
        plain_class(field_class(false)),
        plain_class("btn btn-primary w-full my-4"@),
        plain_class("w-full"@),
        plain_class("input"@),
        plain_class("text-lg mb-4"@),
        plain_class("text-lg"@),
        plain_class("link-primary link-hover"@),
        plain_class(Seq::empty()),
        plain_class("floating-label my-4"@),
        plain_class("list-disc list-inside"@),
{
    reveal_strlit("input w-full validator");
    reveal_strlit("validator-hint hidden");
    reveal_strlit("input w-full");
    reveal_strlit("btn btn-primary w-full my-4");
    reveal_strlit("w-full");
    reveal_strlit("input");
    reveal_strlit("text-lg mb-4");
    reveal_strlit("text-lg");
    reveal_strlit("link-primary link-hover");
    reveal_strlit("floating-label my-4");
    reveal_strlit("list-disc list-inside");
    assert("input w-full validator"@.len() == 22);
    assert("validator-hint hidden"@.len() == 21);
    assert("input w-full"@.len() == 12);
    assert("btn btn-primary w-full my-4"@.len() == 27);
    assert("w-full"@.len() == 6);
    assert("input"@.len() == 5);
    assert("text-lg mb-4"@.len() == 12);
    assert("text-lg"@.len() == 7);
    assert("link-primary link-hover"@.len() == 23);
    assert("floating-label my-4"@.len() == 19);
    assert("list-disc list-inside"@.len() == 21);
    assert("list-disc list-inside"@[0] == 'l');
    assert("validator-hint hidden"@[0] == 'v');
}

/// An element shows no validation if its attributes do not and none of its
/// children does.
proof fn lemma_plain_element(tag: Tag, attrs: Seq<AttrView>, children: Seq<MarkupView>)
    requires
        forall|j: int| 0 <= j < attrs.len() ==> !is_validation_attr(#[trigger] attrs[j]),
        forall|i: int| 0 <= i < children.len() ==> !shows_validation(#[trigger] children[i]),
    ensures
        !shows_validation(element_view(tag, attrs, children)),
{
}

proof fn lemma_plain_button(meta: Option<UiTextView>, attrs: InputAttributesView)
    ensures
        !shows_validation(input_button_view(meta, attrs)),
{
    lemma_plain_classes();
    let children = match meta {
        Some(label) => seq![text_view(label.text)],
        None => Seq::empty(),
    };
    lemma_plain_element(Tag::Button, button_attrs(meta, attrs), children);
}

proof fn lemma_plain_labelled(label: UiTextView, classes: Option<Seq<char>>, control: MarkupView)
    requires
        !shows_validation(control),
        classes is Some ==> plain_class(classes->0),
    ensures
        !shows_validation(labelled(label, classes, control)),
{
    let attrs = push_opt(
        Seq::empty().push(text_attr(AttrName::Id, label.id)),
        opt_text_attr(AttrName::Class, classes),
    );
    let children = Seq::empty().push(text_view(label.text)).push(control);
    lemma_plain_element(Tag::Label, attrs, children);
}

proof fn lemma_plain_other(meta: Option<UiTextView>, attrs: InputAttributesView)
    ensures
        !shows_validation(input_other_view(meta, attrs)),
{
    lemma_plain_classes();
    let control = other_control(attrs);
    lemma_plain_element(Tag::Input, control->attrs, Seq::empty());
    if let Some(label) = meta {
        lemma_plain_labelled(label, Some("w-full"@), control);
    }
}

proof fn lemma_plain_check_box(meta: Option<UiTextView>, attrs: InputAttributesView)
    ensures
        !shows_validation(input_check_box_view(meta, attrs)),
{
    lemma_plain_classes();
    if let Some(label) = meta {
        let control = checkbox_control(attrs, "input w-full"@);
        lemma_plain_element(Tag::Input, control->attrs, Seq::empty());
        lemma_plain_labelled(label, None, control);
    } else {
        let control = checkbox_control(attrs, "input"@);
        lemma_plain_element(Tag::Input, control->attrs, Seq::empty());
    }
}

proof fn lemma_plain_hidden(meta: Option<UiTextView>, attrs: InputAttributesView)
    ensures
        !shows_validation(input_hidden_view(meta, attrs)),
{
    let m = input_hidden_view(meta, attrs);
    lemma_plain_element(Tag::Input, m->attrs, Seq::empty());
}

proof fn lemma_plain_field(meta: Option<UiTextView>, attrs: InputAttributesView)
    ensures
        !shows_validation(input_field_view(meta, attrs, false, None, None)),
{
    lemma_plain_classes();
    let m = input_field_view(meta, attrs, false, None, None);
    let span = m->children[0];
    let input = m->children[1];
    lemma_plain_element(Tag::Span, Seq::empty(), span->children);
    lemma_plain_element(Tag::Input, field_attrs(meta, attrs, false, None), Seq::empty());
    lemma_plain_element(Tag::Label, m->attrs, m->children);
}

proof fn lemma_plain_image(meta: Option<UiTextView>, attrs: ImageAttributesView)
    ensures
        !shows_validation(image_view(meta, attrs)),
{
    lemma_plain_classes();
    let img = picture(meta, attrs);
    lemma_plain_element(Tag::Img, img->attrs, Seq::empty());
    if let Some(label) = meta {
        lemma_plain_labelled(label, Some("text-lg mb-4"@), img);
    }
}

proof fn lemma_plain_captions(meta: Option<UiTextView>, target: Seq<char>)
    ensures
        !any_shows_validation(caption_list(meta, target)),
{
    lemma_plain_classes();
    if let Some(label) = meta {
        let c = caption_for(label, target);
        lemma_plain_element(Tag::Label, c->attrs, c->children);
    }
}

proof fn lemma_plain_text(meta: Option<UiTextView>, attrs: TextAttributesView)
    ensures
        !any_shows_validation(text_node_view(meta, attrs)),
{
    lemma_plain_classes();
    lemma_plain_captions(meta, attrs.id);
    let p = paragraph(attrs);
    lemma_plain_element(Tag::P, p->attrs, p->children);
    let captions = caption_list(meta, attrs.id);
    assert forall|k: int| 0 <= k < captions.push(p).len() implies !shows_validation(
        #[trigger] captions.push(p)[k],
    ) by {
        if k < captions.len() {
            assert(captions.push(p)[k] == captions[k]);
        }
    }
}

proof fn lemma_plain_link(meta: Option<UiTextView>, attrs: AnchorAttributesView)
    ensures
        !any_shows_validation(link_node_view(meta, attrs)),
{
    lemma_plain_classes();
    lemma_plain_captions(meta, attrs.id);
    let a = anchor(attrs);
    lemma_plain_element(Tag::A, a->attrs, a->children);
    let captions = caption_list(meta, attrs.id);
    assert forall|k: int| 0 <= k < captions.push(a).len() implies !shows_validation(
        #[trigger] captions.push(a)[k],
    ) by {
        if k < captions.len() {
            assert(captions.push(a)[k] == captions[k]);
        }
    }
}

proof fn lemma_plain_script(attrs: ScriptAttributesView)
    ensures
        !shows_validation(script_view(attrs)),
{
    let m = script_view(attrs);
    lemma_plain_element(Tag::Script, m->attrs, Seq::empty());
}

/// A validated field carries the marker class on its control and its hint
/// block below the control.
pub proof fn lemma_validated_field(
    meta: Option<UiTextView>,
    attrs: InputAttributesView,
    pattern: Option<Seq<char>>,
    hint: Option<Seq<MarkupView>>,
)
    ensures
        ({
            let m = input_field_view(meta, attrs, true, pattern, hint);
            &&& m->children.len() == 3
            &&& m->children[1] == element_view(
                Tag::Input,
                field_attrs(meta, attrs, true, pattern),
                Seq::empty(),
            )
            &&& field_attrs(meta, attrs, true, pattern).contains(
                text_attr(AttrName::Class, field_class(true)),
            )
            &&& pattern is Some ==> field_attrs(meta, attrs, true, pattern).contains(
                text_attr(AttrName::Pattern, pattern->0),
            )
            &&& m->children[2] == hint_block(hint)
            &&& shows_validation(m)
        }),
{
    let m = input_field_view(meta, attrs, true, pattern, hint);
    let a = field_attrs(meta, attrs, true, pattern);
    let a1 = push_opt(Seq::empty(), opt_flag_attr(AttrName::Required, attrs.required));
    let a2 = push_opt(
        a1,
        opt_text_attr(AttrName::Autocomplete, autocomplete_text(attrs.autocomplete)),
    );
    assert(a[a2.len() as int] == text_attr(AttrName::Class, field_class(true)));
    if pattern is Some {
        assert(a[a.len() - 2] == text_attr(AttrName::Pattern, pattern->0));
    }
    let block = hint_block(hint);
    assert(is_validation_attr(block->attrs[0]));
    assert(shows_validation(m->children[2]));
}

/// Markup shows validation for a password field and for an e-mail field,
/// with the hint of the field's type and, for a password, the pattern; the
/// markup of any other node shows none.
pub proof fn lemma_validation_only_where_asked(node: UiNodeView)
    ensures
        any_shows_validation(node_view(node)) <==> (node.attributes is Input && validated(
            node.attributes->Input_0.input_type,
        )),
        node.attributes is Input && validated(node.attributes->Input_0.input_type) ==> {
            let attrs = node.attributes->Input_0;
            let control_attrs = field_attrs(
                node.meta,
                attrs,
                true,
                validation_pattern(attrs.input_type),
            );
            &&& node_view(node).len() == 1
            &&& node_view(node)[0]->children.len() == 3
            &&& node_view(node)[0]->children[1] == element_view(
                Tag::Input,
                control_attrs,
                Seq::empty(),
            )
            &&& control_attrs.contains(text_attr(AttrName::Class, field_class(true)))
            &&& attrs.input_type == InputType::Password ==> control_attrs.contains(
                text_attr(AttrName::Pattern, password_pattern()),
            )
            &&& node_view(node)[0]->children[2] == hint_block(
                Some(
                    if attrs.input_type == InputType::Password {
                        password_hint()
                    } else {
                        email_hint()
                    },
                ),
            )
        },
{
    let list = node_view(node);
    match node.attributes {
        NodeAttributesView::Input(attrs) => {
            let t = attrs.input_type;
            if validated(t) {
                lemma_validated_field(node.meta, attrs, validation_pattern(t), validation_hint(t));
                assert(shows_validation(list[0]));
            } else {
                lemma_plain_field(node.meta, attrs);
                lemma_plain_button(node.meta, attrs);
                lemma_plain_check_box(node.meta, attrs);
                lemma_plain_hidden(node.meta, attrs);
                lemma_plain_other(node.meta, attrs);
                assert(!shows_validation(list[0]));
            }
        },
        NodeAttributesView::Image(attrs) => {
            lemma_plain_image(node.meta, attrs);
            assert(!shows_validation(list[0]));
        },
        NodeAttributesView::Text(attrs) => {
            lemma_plain_text(node.meta, attrs);
        },
        NodeAttributesView::Anchor(attrs) => {
            lemma_plain_link(node.meta, attrs);
        },
        NodeAttributesView::Script(attrs) => {
            lemma_plain_script(attrs);
            assert(!shows_validation(list[0]));
        },
    }
}

} // verus!
