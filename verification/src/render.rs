//! One renderer per kind of node: each maps the attributes of a node, and
//! its label where it has one, to markup.

use crate::markup::{
    element, element_view, empty_list, flag_attr, opt_flag_attr, opt_text_attr,
    push_flag, push_item, push_opt, push_opt_flag, push_opt_text, push_text, text, text_attr,
    text_view, Attr, AttrName, AttrView, Markup, MarkupView, Tag,
};
use crate::model::{
    autocomplete_keyword, type_keyword, type_label, AnchorAttributes, AnchorAttributesView,
    Autocomplete, ImageAttributes, ImageAttributesView, InputAttributes, InputAttributesView,
    InputType, ScriptAttributes, ScriptAttributesView, TextAttributes, TextAttributesView,
    TextKind, UiText, UiTextView,
};
use crate::text::{decimal, i64_text};
use crate::value::{
    checked, display_text, is_checked, plain_text, scalar_text, string_or_empty,
};
use vstd::prelude::*;

verus! {

/// The text that names a field: that of its label, or the name of its type
/// where the schema gives no label.
pub open spec fn caption(meta: Option<UiTextView>, t: InputType) -> Seq<char> {
    match meta {
        Some(label) => label.text,
        None => type_label(t),
    }
}

/// The identifier of a label, where there is one.
pub open spec fn label_id(meta: Option<UiTextView>) -> Option<Seq<char>> {
    match meta {
        Some(label) => Some(label.id),
        None => None,
    }
}

/// The keyword of an autocomplete hint, where there is one.
pub open spec fn autocomplete_text(a: Option<Autocomplete>) -> Option<Seq<char>> {
    match a {
        Some(hint) => Some(autocomplete_keyword(hint)),
        None => None,
    }
}

/// The classes of a text field. A field that the browser validates has the
/// marker class as well.
pub open spec fn field_class(validate: bool) -> Seq<char> {
    if validate {
        "input w-full validator"@
    } else {
        "input w-full"@
    }
}

/// The attributes of the control inside a text field.
pub open spec fn field_attrs(
    meta: Option<UiTextView>,
    attrs: InputAttributesView,
    validate: bool,
    pattern: Option<Seq<char>>,
) -> Seq<AttrView> {
    let a = push_opt(Seq::empty(), opt_flag_attr(AttrName::Required, attrs.required));
    let a = push_opt(
        a,
        opt_text_attr(AttrName::Autocomplete, autocomplete_text(attrs.autocomplete)),
    );
    let a = a.push(text_attr(AttrName::Class, field_class(validate))).push(
        flag_attr(AttrName::Disabled, attrs.disabled),
    );
    let a = push_opt(a, opt_text_attr(AttrName::Id, label_id(meta)));
    let a = a.push(text_attr(AttrName::Name, attrs.name)).push(
        text_attr(AttrName::Placeholder, caption(meta, attrs.input_type)),
    ).push(text_attr(AttrName::Type, type_keyword(attrs.input_type)));
    let a = push_opt(a, opt_text_attr(AttrName::Pattern, pattern));
    a.push(text_attr(AttrName::Value, string_or_empty(attrs.value)))
}

/// The block below a validated field that tells the user what is asked.
pub open spec fn hint_block(hint: Option<Seq<MarkupView>>) -> MarkupView {
    element_view(
        Tag::Div,
        seq![text_attr(AttrName::Class, "validator-hint hidden"@)],
        match hint {
            Some(h) => h,
            None => Seq::empty(),
        },
    )
}

/// A text, password or e-mail field: a label that wraps the caption, the
/// control and, where the field is validated, the hint block.
pub open spec fn input_field_view(
    meta: Option<UiTextView>,
    attrs: InputAttributesView,
    validate: bool,
    pattern: Option<Seq<char>>,
    hint: Option<Seq<MarkupView>>,
) -> MarkupView {
    let children = Seq::empty().push(
        element_view(
            Tag::Span,
            Seq::empty(),
            seq![text_view(caption(meta, attrs.input_type))],
        ),
    ).push(element_view(Tag::Input, field_attrs(meta, attrs, validate, pattern), Seq::empty()));
    element_view(
        Tag::Label,
        seq![text_attr(AttrName::Class, "floating-label my-4"@)],
        if validate {
            children.push(hint_block(hint))
        } else {
            children
        },
    )
}

fn push_autocomplete(list: &mut Vec<Attr>, a: Option<Autocomplete>)
    ensures
        final(list).deep_view() == push_opt(
            old(list).deep_view(),
            opt_text_attr(AttrName::Autocomplete, autocomplete_text(a)),
        ),
{
    match a {
        Some(hint) => push_text(list, AttrName::Autocomplete, hint.keyword()),
        None => {},
    }
}

fn push_label_id(list: &mut Vec<Attr>, meta: &Option<UiText>)
    ensures
        final(list).deep_view() == push_opt(
            old(list).deep_view(),
            opt_text_attr(AttrName::Id, label_id(meta.deep_view())),
        ),
{
    match meta {
        Some(label) => push_text(list, AttrName::Id, label.id.as_str()),
        None => {},
    }
}

fn caption_of<'a>(meta: &'a Option<UiText>, t: InputType) -> (s: &'a str)
    ensures
        s@ == caption(meta.deep_view(), t),
{
    match meta {
        Some(label) => label.text.as_str(),
        None => t.name(),
    }
}

/// Renders a text, password or e-mail field.
pub fn input_field_node(
    meta: &Option<UiText>,
    attrs: &InputAttributes,
    validate: bool,
    pattern: &Option<String>,
    hint: Option<Vec<Markup>>,
) -> (m: Markup)
    ensures
        m@ == input_field_view(
            meta.deep_view(),
            attrs@,
            validate,
            pattern.deep_view(),
            hint.deep_view(),
        ),
{
    let label_text = caption_of(meta, attrs.input_type);

    let mut span_children: Vec<Markup> = empty_list();
    push_item(&mut span_children, text(label_text));
    let span = element(Tag::Span, empty_list(), span_children);

    let mut a: Vec<Attr> = empty_list();
    push_opt_flag(&mut a, AttrName::Required, attrs.required);
    push_autocomplete(&mut a, attrs.autocomplete);
    push_text(
        &mut a,
        AttrName::Class,
        if validate {
            "input w-full validator"
        } else {
            "input w-full"
        },
    );
    push_flag(&mut a, AttrName::Disabled, attrs.disabled);
    push_label_id(&mut a, meta);
    push_text(&mut a, AttrName::Name, attrs.name.as_str());
    push_text(&mut a, AttrName::Placeholder, label_text);
    push_text(&mut a, AttrName::Type, attrs.input_type.keyword());
    push_opt_text(&mut a, AttrName::Pattern, pattern);
    let value = plain_text(&attrs.value);
    push_text(&mut a, AttrName::Value, value.as_str());
    let input = element(Tag::Input, a, empty_list());

    let mut children: Vec<Markup> = empty_list();
    push_item(&mut children, span);
    push_item(&mut children, input);
    if validate {
        let mut hint_attrs: Vec<Attr> = empty_list();
        push_text(&mut hint_attrs, AttrName::Class, "validator-hint hidden");
        let hint_children: Vec<Markup> = match hint {
            Some(h) => h,
            None => empty_list(),
        };
        push_item(&mut children, element(Tag::Div, hint_attrs, hint_children));
    }
    let mut label_attrs: Vec<Attr> = empty_list();
    push_text(&mut label_attrs, AttrName::Class, "floating-label my-4");
    element(Tag::Label, label_attrs, children)
}

/// The attributes of a button.
pub open spec fn button_attrs(meta: Option<UiTextView>, attrs: InputAttributesView) -> Seq<
    AttrView,
> {
    let a = Seq::empty().push(flag_attr(AttrName::Disabled, attrs.disabled)).push(
        text_attr(AttrName::Class, "btn btn-primary w-full my-4"@),
    );
    let a = push_opt(a, opt_text_attr(AttrName::Id, label_id(meta)));
    a.push(text_attr(AttrName::Name, attrs.name)).push(
        text_attr(AttrName::Type, type_keyword(attrs.input_type)),
    ).push(text_attr(AttrName::Value, string_or_empty(attrs.value)))
}

/// A submit or plain button. The label is what the button shows; a button
/// without a label shows nothing.
pub open spec fn input_button_view(
    meta: Option<UiTextView>,
    attrs: InputAttributesView,
) -> MarkupView {
    element_view(
        Tag::Button,
        button_attrs(meta, attrs),
        match meta {
            Some(label) => seq![text_view(label.text)],
            None => Seq::empty(),
        },
    )
}

/// Renders a submit or plain button.
pub fn input_button_node(meta: &Option<UiText>, attrs: &InputAttributes) -> (m: Markup)
    ensures
        m@ == input_button_view(meta.deep_view(), attrs@),
{
    let mut a: Vec<Attr> = empty_list();
    push_flag(&mut a, AttrName::Disabled, attrs.disabled);
    push_text(&mut a, AttrName::Class, "btn btn-primary w-full my-4");
    push_label_id(&mut a, meta);
    push_text(&mut a, AttrName::Name, attrs.name.as_str());
    push_text(&mut a, AttrName::Type, attrs.input_type.keyword());
    let value = plain_text(&attrs.value);
    push_text(&mut a, AttrName::Value, value.as_str());

    let mut children: Vec<Markup> = empty_list();
    match meta {
        Some(label) => push_item(&mut children, text(label.text.as_str())),
        None => {},
    }
    element(Tag::Button, a, children)
}

/// A control inside a label that shows the label's text before it.
pub open spec fn labelled(
    label: UiTextView,
    classes: Option<Seq<char>>,
    control: MarkupView,
) -> MarkupView {
    element_view(
        Tag::Label,
        push_opt(
            Seq::empty().push(text_attr(AttrName::Id, label.id)),
            opt_text_attr(AttrName::Class, classes),
        ),
        Seq::empty().push(text_view(label.text)).push(control),
    )
}

fn wrap_in_label(label: &UiText, classes: Option<&str>, control: Markup) -> (m: Markup)
    ensures
        m@ == labelled(
            label@,
            match classes {
                Some(c) => Some(c@),
                None => None,
            },
            control@,
        ),
{
    let mut a: Vec<Attr> = empty_list();
    push_text(&mut a, AttrName::Id, label.id.as_str());
    match classes {
        Some(c) => push_text(&mut a, AttrName::Class, c),
        None => {},
    }
    let mut children: Vec<Markup> = empty_list();
    push_item(&mut children, text(label.text.as_str()));
    push_item(&mut children, control);
    element(Tag::Label, a, children)
}

/// The control of a number, telephone, date, time or address field. It
/// shows the value whatever its type.
pub open spec fn other_control(attrs: InputAttributesView) -> MarkupView {
    element_view(
        Tag::Input,
        Seq::empty().push(flag_attr(AttrName::Disabled, attrs.disabled)).push(
            text_attr(AttrName::Class, "input w-full"@),
        ).push(text_attr(AttrName::Name, attrs.name)).push(
            text_attr(AttrName::Type, type_keyword(attrs.input_type)),
        ).push(text_attr(AttrName::Value, scalar_text(attrs.value))),
        Seq::empty(),
    )
}

/// A number, telephone, date, time or address field: the control, inside a
/// label where the schema gives one.
pub open spec fn input_other_view(
    meta: Option<UiTextView>,
    attrs: InputAttributesView,
) -> MarkupView {
    match meta {
        Some(label) => labelled(label, Some("w-full"@), other_control(attrs)),
        None => other_control(attrs),
    }
}

/// Renders a number, telephone, date, time or address field.
pub fn input_other_node(meta: &Option<UiText>, attrs: &InputAttributes) -> (m: Markup)
    ensures
        m@ == input_other_view(meta.deep_view(), attrs@),
{
    let mut a: Vec<Attr> = empty_list();
    push_flag(&mut a, AttrName::Disabled, attrs.disabled);
    push_text(&mut a, AttrName::Class, "input w-full");
    push_text(&mut a, AttrName::Name, attrs.name.as_str());
    push_text(&mut a, AttrName::Type, attrs.input_type.keyword());
    let value = display_text(&attrs.value);
    push_text(&mut a, AttrName::Value, value.as_str());
    let control = element(Tag::Input, a, empty_list());
    match meta {
        Some(label) => wrap_in_label(label, Some("w-full"), control),
        None => control,
    }
}

/// The control of a checkbox. Only the truth value `true` ticks it.
pub open spec fn checkbox_control(attrs: InputAttributesView, classes: Seq<char>) -> MarkupView {
    element_view(
        Tag::Input,
        Seq::empty().push(flag_attr(AttrName::Disabled, attrs.disabled)).push(
            text_attr(AttrName::Class, classes),
        ).push(text_attr(AttrName::Name, attrs.name)).push(
            text_attr(AttrName::Type, type_keyword(attrs.input_type)),
        ).push(flag_attr(AttrName::Checked, is_checked(attrs.value))),
        Seq::empty(),
    )
}

/// A checkbox: the control, inside a label where the schema gives one.
pub open spec fn input_check_box_view(
    meta: Option<UiTextView>,
    attrs: InputAttributesView,
) -> MarkupView {
    match meta {
        Some(label) => labelled(label, None, checkbox_control(attrs, "input w-full"@)),
        None => checkbox_control(attrs, "input"@),
    }
}

/// Renders a checkbox.
pub fn input_check_box_node(meta: &Option<UiText>, attrs: &InputAttributes) -> (m: Markup)
    ensures
        m@ == input_check_box_view(meta.deep_view(), attrs@),
{
    let mut a: Vec<Attr> = empty_list();
    push_flag(&mut a, AttrName::Disabled, attrs.disabled);
    push_text(
        &mut a,
        AttrName::Class,
        if meta.is_some() {
            "input w-full"
        } else {
            "input"
        },
    );
    push_text(&mut a, AttrName::Name, attrs.name.as_str());
    push_text(&mut a, AttrName::Type, attrs.input_type.keyword());
    push_flag(&mut a, AttrName::Checked, checked(&attrs.value));
    let control = element(Tag::Input, a, empty_list());
    match meta {
        Some(label) => wrap_in_label(label, None, control),
        None => control,
    }
}

/// The identifier of a hidden input: that of its label, or the empty one.
pub open spec fn hidden_id(meta: Option<UiTextView>) -> Seq<char> {
    match meta {
        Some(label) => label.id,
        None => Seq::empty(),
    }
}

/// A hidden input. It is rendered with or without a label, and shows
/// neither.
pub open spec fn input_hidden_view(
    meta: Option<UiTextView>,
    attrs: InputAttributesView,
) -> MarkupView {
    element_view(
        Tag::Input,
        push_opt(
            Seq::empty(),
            opt_text_attr(AttrName::Autocomplete, autocomplete_text(attrs.autocomplete)),
        ).push(flag_attr(AttrName::Disabled, attrs.disabled)).push(
            text_attr(AttrName::Name, attrs.name),
        ).push(text_attr(AttrName::Id, hidden_id(meta))).push(
            text_attr(AttrName::Type, type_keyword(attrs.input_type)),
        ).push(text_attr(AttrName::Value, string_or_empty(attrs.value))),
        Seq::empty(),
    )
}

/// Renders a hidden input.
pub fn input_hidden_node(meta: &Option<UiText>, attrs: &InputAttributes) -> (m: Markup)
    ensures
        m@ == input_hidden_view(meta.deep_view(), attrs@),
{
    let mut a: Vec<Attr> = empty_list();
    push_autocomplete(&mut a, attrs.autocomplete);
    push_flag(&mut a, AttrName::Disabled, attrs.disabled);
    push_text(&mut a, AttrName::Name, attrs.name.as_str());
    match meta {
        Some(label) => push_text(&mut a, AttrName::Id, label.id.as_str()),
        None => {
            proof {
                reveal_strlit("");
                assert(""@ =~= Seq::<char>::empty());
            }
            push_text(&mut a, AttrName::Id, "");
        },
    }
    push_text(&mut a, AttrName::Type, attrs.input_type.keyword());
    let value = plain_text(&attrs.value);
    push_text(&mut a, AttrName::Value, value.as_str());
    element(Tag::Input, a, empty_list())
}

/// The picture of an image node. With a label, the label's text is the
/// alternative text.
pub open spec fn picture(meta: Option<UiTextView>, attrs: ImageAttributesView) -> MarkupView {
    let a = Seq::empty().push(text_attr(AttrName::Height, decimal(attrs.height))).push(
        text_attr(AttrName::Id, attrs.id),
    ).push(text_attr(AttrName::Src, attrs.src)).push(
        text_attr(AttrName::Width, decimal(attrs.width)),
    );
    element_view(
        Tag::Img,
        match meta {
            Some(label) => a.push(text_attr(AttrName::Alt, label.text)),
            None => a,
        },
        Seq::empty(),
    )
}

/// An image: the picture, inside a label where the schema gives one.
pub open spec fn image_view(meta: Option<UiTextView>, attrs: ImageAttributesView) -> MarkupView {
    match meta {
        Some(label) => labelled(label, Some("text-lg mb-4"@), picture(meta, attrs)),
        None => picture(meta, attrs),
    }
}

/// Renders an image.
pub fn image_node(meta: &Option<UiText>, attrs: &ImageAttributes) -> (m: Markup)
    ensures
        m@ == image_view(meta.deep_view(), attrs@),
{
    let mut a: Vec<Attr> = empty_list();
    let height = i64_text(attrs.height);
    push_text(&mut a, AttrName::Height, height.as_str());
    push_text(&mut a, AttrName::Id, attrs.id.as_str());
    push_text(&mut a, AttrName::Src, attrs.src.as_str());
    let width = i64_text(attrs.width);
    push_text(&mut a, AttrName::Width, width.as_str());
    match meta {
        Some(label) => {
            push_text(&mut a, AttrName::Alt, label.text.as_str());
            let img = element(Tag::Img, a, empty_list());
            wrap_in_label(label, Some("text-lg mb-4"), img)
        },
        None => element(Tag::Img, a, empty_list()),
    }
}

/// The caption that stands beside the element with the identifier
/// `target` and names it.
pub open spec fn caption_for(label: UiTextView, target: Seq<char>) -> MarkupView {
    element_view(
        Tag::Label,
        Seq::empty().push(text_attr(AttrName::For, target)).push(
            text_attr(AttrName::Id, label.id),
        ).push(text_attr(AttrName::Class, "text-lg"@)),
        seq![text_view(label.text)],
    )
}

/// The list that holds the caption of a node, where the schema gives a
/// label, and nothing otherwise.
pub open spec fn caption_list(meta: Option<UiTextView>, target: Seq<char>) -> Seq<MarkupView> {
    match meta {
        Some(label) => seq![caption_for(label, target)],
        None => Seq::empty(),
    }
}

fn caption_nodes(meta: &Option<UiText>, target: &str) -> (list: Vec<Markup>)
    ensures
        list.deep_view() == caption_list(meta.deep_view(), target@),
{
    let mut list: Vec<Markup> = empty_list();
    match meta {
        Some(label) => {
            let mut a: Vec<Attr> = empty_list();
            push_text(&mut a, AttrName::For, target);
            push_text(&mut a, AttrName::Id, label.id.as_str());
            push_text(&mut a, AttrName::Class, "text-lg");
            let mut children: Vec<Markup> = empty_list();
            push_item(&mut children, text(label.text.as_str()));
            push_item(&mut list, element(Tag::Label, a, children));
        },
        None => {},
    }
    list
}

/// The paragraph of a text node.
pub open spec fn paragraph(attrs: TextAttributesView) -> MarkupView {
    element_view(
        Tag::P,
        Seq::empty().push(text_attr(AttrName::Id, attrs.id)).push(
            text_attr(AttrName::Class, Seq::empty()),
        ),
        seq![text_view(attrs.text.text)],
    )
}

/// A text node: its caption, where the schema gives a label, and then its
/// paragraph, which is there in either case.
pub open spec fn text_node_view(meta: Option<UiTextView>, attrs: TextAttributesView) -> Seq<
    MarkupView,
> {
    caption_list(meta, attrs.id).push(paragraph(attrs))
}

/// Renders a text node.
pub fn text_node(meta: &Option<UiText>, attrs: &TextAttributes) -> (list: Vec<Markup>)
    ensures
        list.deep_view() == text_node_view(meta.deep_view(), attrs@),
{
    let mut list = caption_nodes(meta, attrs.id.as_str());
    let mut a: Vec<Attr> = empty_list();
    push_text(&mut a, AttrName::Id, attrs.id.as_str());
    proof {
        reveal_strlit("");
        assert(""@ =~= Seq::<char>::empty());
    }
    push_text(&mut a, AttrName::Class, "");
    let mut children: Vec<Markup> = empty_list();
    push_item(&mut children, text(attrs.text.text.as_str()));
    push_item(&mut list, element(Tag::P, a, children));
    list
}

/// The anchor of a link node.
pub open spec fn anchor(attrs: AnchorAttributesView) -> MarkupView {
    element_view(
        Tag::A,
        Seq::empty().push(text_attr(AttrName::Id, attrs.id)).push(
            text_attr(AttrName::Class, "link-primary link-hover"@),
        ).push(text_attr(AttrName::Href, attrs.href)),
        seq![text_view(attrs.title.text)],
    )
}

/// A link node: its caption, where the schema gives a label, and then its
/// anchor, which is there in either case.
pub open spec fn link_node_view(meta: Option<UiTextView>, attrs: AnchorAttributesView) -> Seq<
    MarkupView,
> {
    caption_list(meta, attrs.id).push(anchor(attrs))
}

/// Renders a link node.
pub fn link_node(meta: &Option<UiText>, attrs: &AnchorAttributes) -> (list: Vec<Markup>)
    ensures
        list.deep_view() == link_node_view(meta.deep_view(), attrs@),
{
    let mut list = caption_nodes(meta, attrs.id.as_str());
    let mut a: Vec<Attr> = empty_list();
    push_text(&mut a, AttrName::Id, attrs.id.as_str());
    push_text(&mut a, AttrName::Class, "link-primary link-hover");
    push_text(&mut a, AttrName::Href, attrs.href.as_str());
    let mut children: Vec<Markup> = empty_list();
    push_item(&mut children, text(attrs.title.text.as_str()));
    push_item(&mut list, element(Tag::A, a, children));
    list
}

/// A script node. It has no label, and every attribute that the schema
/// gives is passed on as it is.
pub open spec fn script_view(attrs: ScriptAttributesView) -> MarkupView {
    let a = push_opt(Seq::empty(), opt_flag_attr(AttrName::Async, attrs.is_async));
    let a = push_opt(a, opt_text_attr(AttrName::Crossorigin, attrs.crossorigin));
    let a = a.push(text_attr(AttrName::Id, attrs.id));
    let a = push_opt(a, opt_text_attr(AttrName::Integrity, attrs.integrity));
    let a = push_opt(a, opt_text_attr(AttrName::Nonce, attrs.nonce));
    let a = push_opt(a, opt_text_attr(AttrName::Referrerpolicy, attrs.referrerpolicy));
    element_view(
        Tag::Script,
        a.push(text_attr(AttrName::Src, attrs.src)).push(
            text_attr(AttrName::Type, attrs.script_type),
        ),
        Seq::empty(),
    )
}

/// Renders a script node.
pub fn script_node(attrs: &ScriptAttributes) -> (m: Markup)
    ensures
        m@ == script_view(attrs@),
{
    let mut a: Vec<Attr> = empty_list();
    push_opt_flag(&mut a, AttrName::Async, attrs.is_async);
    push_opt_text(&mut a, AttrName::Crossorigin, &attrs.crossorigin);
    push_text(&mut a, AttrName::Id, attrs.id.as_str());
    push_opt_text(&mut a, AttrName::Integrity, &attrs.integrity);
    push_opt_text(&mut a, AttrName::Nonce, &attrs.nonce);
    push_opt_text(&mut a, AttrName::Referrerpolicy, &attrs.referrerpolicy);
    push_text(&mut a, AttrName::Src, attrs.src.as_str());
    push_text(&mut a, AttrName::Type, attrs.script_type.as_str());
    element(Tag::Script, a, empty_list())
}

/// The classes of an alert. Each kind of message has classes of its own.
pub open spec fn alert_class(kind: TextKind) -> Seq<char> {
    match kind {
        TextKind::Error => "alert alert-error"@,
        TextKind::Info => "alert alert-info"@,
        TextKind::Success => "alert alert-success"@,
    }
}

/// A message to the user: an alert whose body is the message's text.
pub open spec fn message_view(message: UiTextView) -> MarkupView {
    element_view(
        Tag::Div,
        Seq::empty().push(text_attr(AttrName::Id, message.id)).push(
            text_attr(AttrName::Role, "alert"@),
        ).push(text_attr(AttrName::Class, alert_class(message.kind))),
        seq![element_view(Tag::Span, Seq::empty(), seq![text_view(message.text)])],
    )
}

/// Renders a message to the user.
pub fn message_node(message: &UiText) -> (m: Markup)
    ensures
        m@ == message_view(message@),
{
    let mut a: Vec<Attr> = empty_list();
    push_text(&mut a, AttrName::Id, message.id.as_str());
    push_text(&mut a, AttrName::Role, "alert");
    push_text(
        &mut a,
        AttrName::Class,
        match message.kind {
            TextKind::Error => "alert alert-error",
            TextKind::Info => "alert alert-info",
            TextKind::Success => "alert alert-success",
        },
    );
    let mut body: Vec<Markup> = empty_list();
    push_item(&mut body, text(message.text.as_str()));
    let mut children: Vec<Markup> = empty_list();
    push_item(&mut children, element(Tag::Span, empty_list(), body));
    element(Tag::Div, a, children)
}

/// The classes of the three alerts differ from one another.
pub proof fn lemma_alert_classes_distinct(a: TextKind, b: TextKind)
    requires
        a != b,
    ensures
        alert_class(a) != alert_class(b),
{
    reveal_strlit("alert alert-error");
    reveal_strlit("alert alert-info");
    reveal_strlit("alert alert-success");
    assert("alert alert-error"@.len() == 17);
    assert("alert alert-info"@.len() == 16);
    assert("alert alert-success"@.len() == 19);
}

} // verus!
