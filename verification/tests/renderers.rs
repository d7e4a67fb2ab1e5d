use kratos_forms::dispatch::{input_node, node_builder, render_node};
use kratos_forms::markup::{Attr, AttrName, AttrValue, Markup, Tag};
use kratos_forms::model::{
    AnchorAttributes, Autocomplete, ImageAttributes, InputAttributes, InputType, NodeAttributes,
    NodeGroup, ScriptAttributes, TextAttributes, TextKind, UiNode, UiText,
};
use kratos_forms::render::{
    image_node, input_button_node, input_check_box_node, input_field_node, input_hidden_node,
    input_other_node, link_node, message_node, script_node, text_node,
};
use kratos_forms::value::{Number, Value};

fn ta(name: AttrName, value: &str) -> Attr {
    Attr { name, value: AttrValue::Text(value.to_string()) }
}

fn fa(name: AttrName, flag: bool) -> Attr {
    Attr { name, value: AttrValue::Flag(flag) }
}

fn el(tag: Tag, attrs: Vec<Attr>, children: Vec<Markup>) -> Markup {
    Markup::Element { tag, attrs, children }
}

fn t(s: &str) -> Markup {
    Markup::Text(s.to_string())
}

fn label(id: &str, text: &str) -> Option<UiText> {
    Some(UiText { id: id.to_string(), text: text.to_string(), kind: TextKind::Info })
}

fn input(name: &str, input_type: InputType, value: Option<Value>) -> InputAttributes {
    InputAttributes {
        name: name.to_string(),
        input_type,
        required: None,
        disabled: false,
        autocomplete: None,
        value,
        pattern: None,
    }
}

fn attrs_of(m: &Markup) -> &Vec<Attr> {
    match m {
        Markup::Element { attrs, .. } => attrs,
        Markup::Text(_) => panic!("a text has no attributes"),
    }
}

fn children_of(m: &Markup) -> &Vec<Markup> {
    match m {
        Markup::Element { children, .. } => children,
        Markup::Text(_) => panic!("a text has no children"),
    }
}

fn shows_validation(m: &Markup) -> bool {
    match m {
        Markup::Text(_) => false,
        Markup::Element { attrs, children, .. } => {
            attrs.iter().any(|a| {
                a.name == AttrName::Pattern
                    || *a == ta(AttrName::Class, "input w-full validator")
                    || *a == ta(AttrName::Class, "validator-hint hidden")
            }) || children.iter().any(shows_validation)
        }
    }
}

const ALL_TYPES: [InputType; 12] = [
    InputType::Text,
    InputType::Password,
    InputType::Number,
    InputType::Checkbox,
    InputType::Hidden,
    InputType::Email,
    InputType::Tel,
    InputType::Submit,
    InputType::Button,
    InputType::DatetimeLocal,
    InputType::Date,
    InputType::Url,
];

#[test]
fn text_field_with_label_and_every_attribute() {
    let mut attrs = input("traits.name", InputType::Text, Some(Value::String("Ada".to_string())));
    attrs.required = Some(true);
    attrs.autocomplete = Some(Autocomplete::CurrentPassword);
    attrs.disabled = true;
    let m = input_field_node(&label("1070002", "Name"), &attrs, false, &None, None);
    assert_eq!(
        m,
        el(
            Tag::Label,
            vec![ta(AttrName::Class, "floating-label my-4")],
            vec![
                el(Tag::Span, vec![], vec![t("Name")]),
                el(
                    Tag::Input,
                    vec![
                        fa(AttrName::Required, true),
                        ta(AttrName::Autocomplete, "currentpassword"),
                        ta(AttrName::Class, "input w-full"),
                        fa(AttrName::Disabled, true),
                        ta(AttrName::Id, "1070002"),
                        ta(AttrName::Name, "traits.name"),
                        ta(AttrName::Placeholder, "Name"),
                        ta(AttrName::Type, "text"),
                        ta(AttrName::Value, "Ada"),
                    ],
                    vec![],
                ),
            ],
        )
    );
}

#[test]
fn text_field_without_label_falls_back_to_type_name() {
    let attrs = input("when", InputType::Text, Some(Value::Number(Number::Unsigned(3))));
    let m = input_field_node(&None, &attrs, false, &None, None);
    assert_eq!(
        m,
        el(
            Tag::Label,
            vec![ta(AttrName::Class, "floating-label my-4")],
            vec![
                el(Tag::Span, vec![], vec![t("Text")]),
                el(
                    Tag::Input,
                    vec![
                        ta(AttrName::Class, "input w-full"),
                        fa(AttrName::Disabled, false),
                        ta(AttrName::Name, "when"),
                        ta(AttrName::Placeholder, "Text"),
                        ta(AttrName::Type, "text"),
                        ta(AttrName::Value, ""),
                    ],
                    vec![],
                ),
            ],
        )
    );
}

#[test]
fn validated_field_without_hint_has_empty_hint_block() {
    let attrs = input("x", InputType::Text, None);
    let m = input_field_node(&None, &attrs, true, &Some("[a-z]+".to_string()), None);
    let children = children_of(&m);
    assert_eq!(children.len(), 3);
    assert!(attrs_of(&children[1]).contains(&ta(AttrName::Pattern, "[a-z]+")));
    assert!(attrs_of(&children[1]).contains(&ta(AttrName::Class, "input w-full validator")));
    assert_eq!(
        children[2],
        el(Tag::Div, vec![ta(AttrName::Class, "validator-hint hidden")], vec![])
    );
}

#[test]
fn password_and_email_are_validated_and_nothing_else() {
    for input_type in ALL_TYPES {
        for meta in [None, label("7", "Field")] {
            let m = input_node(&meta, &input("f", input_type, None));
            let expected = input_type == InputType::Password || input_type == InputType::Email;
            assert_eq!(shows_validation(&m), expected);
        }
    }
}

#[test]
fn password_field_carries_pattern_and_hint() {
    let m = input_node(&None, &input("password", InputType::Password, None));
    let children = children_of(&m);
    assert_eq!(children.len(), 3);
    assert!(attrs_of(&children[1])
        .contains(&ta(AttrName::Pattern, "(?=.*\\d)(?=.*[a-z])(?=.*[A-Z]).{8,}")));
    assert_eq!(
        children[2],
        el(
            Tag::Div,
            vec![ta(AttrName::Class, "validator-hint hidden")],
            vec![
                t("Password must be more than 8 characters, and include:"),
                el(
                    Tag::Ul,
                    vec![ta(AttrName::Class, "list-disc list-inside")],
                    vec![
                        el(Tag::Li, vec![], vec![t("At least one number")]),
                        el(Tag::Li, vec![], vec![t("At least one lowercase letter")]),
                        el(Tag::Li, vec![], vec![t("At least one uppercase letter")]),
                    ],
                ),
            ],
        )
    );
}

#[test]
fn email_field_carries_hint_and_no_pattern() {
    let m = input_node(&None, &input("identifier", InputType::Email, None));
    let children = children_of(&m);
    assert_eq!(children.len(), 3);
    assert!(attrs_of(&children[1]).iter().all(|a| a.name != AttrName::Pattern));
    assert_eq!(
        children[2],
        el(
            Tag::Div,
            vec![ta(AttrName::Class, "validator-hint hidden")],
            vec![el(Tag::P, vec![], vec![t("Enter valid email address")])],
        )
    );
}

#[test]
fn every_input_type_has_its_keyword() {
    let expected = [
        "text",
        "password",
        "number",
        "checkbox",
        "hidden",
        "email",
        "tel",
        "submit",
        "button",
        "datetimelocal",
        "date",
        "url",
    ];
    for (input_type, keyword) in ALL_TYPES.iter().zip(expected) {
        assert_eq!(input_type.keyword(), keyword);
        assert_eq!(input_type.name().to_lowercase(), keyword);
    }
}

#[test]
fn every_autocomplete_hint_has_its_keyword() {
    assert_eq!(Autocomplete::Email.keyword(), "email");
    assert_eq!(Autocomplete::Tel.keyword(), "tel");
    assert_eq!(Autocomplete::Url.keyword(), "url");
    assert_eq!(Autocomplete::CurrentPassword.keyword(), "currentpassword");
    assert_eq!(Autocomplete::NewPassword.keyword(), "newpassword");
    assert_eq!(Autocomplete::OneTimeCode.keyword(), "onetimecode");
    assert_eq!(Autocomplete::UsernameWebauthn.keyword(), "usernamewebauthn");
}

#[test]
fn every_group_has_its_legend() {
    assert_eq!(NodeGroup::Password.legend(), "Password");
    assert_eq!(NodeGroup::Oidc.legend(), "OIDC");
    assert_eq!(NodeGroup::Profile.legend(), "Profile");
    assert_eq!(NodeGroup::Code.legend(), "Code");
    assert_eq!(NodeGroup::Totp.legend(), "TOTP");
    assert_eq!(NodeGroup::LookupSecret.legend(), "Recovery");
    assert_eq!(NodeGroup::Webauthn.legend(), "Web Authentication");
    assert_eq!(NodeGroup::Passkey.legend(), "Passkey");
    assert_eq!(NodeGroup::Captcha.legend(), "Captcha");
    assert_eq!(NodeGroup::Saml.legend(), "SAML");
    assert_eq!(NodeGroup::Default.legend(), "");
    assert_eq!(NodeGroup::Link.legend(), "");
    assert_eq!(NodeGroup::IdentifierFirst.legend(), "");
}

#[test]
fn button_shows_its_label() {
    let attrs = input("method", InputType::Submit, Some(Value::String("password".to_string())));
    let m = input_button_node(&label("1010001", "Sign in"), &attrs);
    assert_eq!(
        m,
        el(
            Tag::Button,
            vec![
                fa(AttrName::Disabled, false),
                ta(AttrName::Class, "btn btn-primary w-full my-4"),
                ta(AttrName::Id, "1010001"),
                ta(AttrName::Name, "method"),
                ta(AttrName::Type, "submit"),
                ta(AttrName::Value, "password"),
            ],
            vec![t("Sign in")],
        )
    );
}

#[test]
fn button_without_label_shows_nothing_and_drops_other_values() {
    let attrs = input("go", InputType::Button, Some(Value::Bool(true)));
    let m = input_button_node(&None, &attrs);
    assert_eq!(
        m,
        el(
            Tag::Button,
            vec![
                fa(AttrName::Disabled, false),
                ta(AttrName::Class, "btn btn-primary w-full my-4"),
                ta(AttrName::Name, "go"),
                ta(AttrName::Type, "button"),
                ta(AttrName::Value, ""),
            ],
            vec![],
        )
    );
}

#[test]
fn other_input_with_label_is_wrapped() {
    let attrs = input("age", InputType::Number, Some(Value::Number(Number::Unsigned(5))));
    let m = input_other_node(&label("12", "Age"), &attrs);
    assert_eq!(
        m,
        el(
            Tag::Label,
            vec![ta(AttrName::Id, "12"), ta(AttrName::Class, "w-full")],
            vec![
                t("Age"),
                el(
                    Tag::Input,
                    vec![
                        fa(AttrName::Disabled, false),
                        ta(AttrName::Class, "input w-full"),
                        ta(AttrName::Name, "age"),
                        ta(AttrName::Type, "number"),
                        ta(AttrName::Value, "5"),
                    ],
                    vec![],
                ),
            ],
        )
    );
}

#[test]
fn other_input_without_label_is_bare() {
    let attrs = input("site", InputType::Url, Some(Value::Bool(true)));
    let m = input_other_node(&None, &attrs);
    assert_eq!(
        m,
        el(
            Tag::Input,
            vec![
                fa(AttrName::Disabled, false),
                ta(AttrName::Class, "input w-full"),
                ta(AttrName::Name, "site"),
                ta(AttrName::Type, "url"),
                ta(AttrName::Value, "true"),
            ],
            vec![],
        )
    );
}

#[test]
fn checkbox_with_literal_true_is_checked() {
    let attrs = input("accept", InputType::Checkbox, Some(Value::Bool(true)));
    let m = input_node(&None, &attrs);
    assert_eq!(
        m,
        el(
            Tag::Input,
            vec![
                fa(AttrName::Disabled, false),
                ta(AttrName::Class, "input"),
                ta(AttrName::Name, "accept"),
                ta(AttrName::Type, "checkbox"),
                fa(AttrName::Checked, true),
            ],
            vec![],
        )
    );
}

#[test]
fn checkbox_with_string_true_is_unchecked() {
    let attrs = input("accept", InputType::Checkbox, Some(Value::String("true".to_string())));
    let m = input_check_box_node(&label("3", "Accept"), &attrs);
    assert_eq!(
        m,
        el(
            Tag::Label,
            vec![ta(AttrName::Id, "3")],
            vec![
                t("Accept"),
                el(
                    Tag::Input,
                    vec![
                        fa(AttrName::Disabled, false),
                        ta(AttrName::Class, "input w-full"),
                        ta(AttrName::Name, "accept"),
                        ta(AttrName::Type, "checkbox"),
                        fa(AttrName::Checked, false),
                    ],
                    vec![],
                ),
            ],
        )
    );
}

#[test]
fn hidden_input_is_rendered_with_and_without_label() {
    let mut attrs =
        input("csrf_token", InputType::Hidden, Some(Value::String("tok".to_string())));
    attrs.autocomplete = Some(Autocomplete::OneTimeCode);
    assert_eq!(
        input_hidden_node(&None, &attrs),
        el(
            Tag::Input,
            vec![
                ta(AttrName::Autocomplete, "onetimecode"),
                fa(AttrName::Disabled, false),
                ta(AttrName::Name, "csrf_token"),
                ta(AttrName::Id, ""),
                ta(AttrName::Type, "hidden"),
                ta(AttrName::Value, "tok"),
            ],
            vec![],
        )
    );
    assert_eq!(
        input_hidden_node(&label("9", "ignored"), &attrs),
        el(
            Tag::Input,
            vec![
                ta(AttrName::Autocomplete, "onetimecode"),
                fa(AttrName::Disabled, false),
                ta(AttrName::Name, "csrf_token"),
                ta(AttrName::Id, "9"),
                ta(AttrName::Type, "hidden"),
                ta(AttrName::Value, "tok"),
            ],
            vec![],
        )
    );
}

#[test]
fn image_with_label_uses_it_as_alternative_text() {
    let attrs = ImageAttributes {
        id: "qr".to_string(),
        src: "data:image/png;base64,AAAA".to_string(),
        width: 256,
        height: 128,
    };
    assert_eq!(
        image_node(&label("5", "Scan me"), &attrs),
        el(
            Tag::Label,
            vec![ta(AttrName::Id, "5"), ta(AttrName::Class, "text-lg mb-4")],
            vec![
                t("Scan me"),
                el(
                    Tag::Img,
                    vec![
                        ta(AttrName::Height, "128"),
                        ta(AttrName::Id, "qr"),
                        ta(AttrName::Src, "data:image/png;base64,AAAA"),
                        ta(AttrName::Width, "256"),
                        ta(AttrName::Alt, "Scan me"),
                    ],
                    vec![],
                ),
            ],
        )
    );
    assert_eq!(
        image_node(&None, &attrs),
        el(
            Tag::Img,
            vec![
                ta(AttrName::Height, "128"),
                ta(AttrName::Id, "qr"),
                ta(AttrName::Src, "data:image/png;base64,AAAA"),
                ta(AttrName::Width, "256"),
            ],
            vec![],
        )
    );
}

#[test]
fn text_node_always_renders_its_paragraph() {
    let attrs = TextAttributes {
        id: "codes".to_string(),
        text: UiText {
            id: "1050015".to_string(),
            text: "abc, def".to_string(),
            kind: TextKind::Info,
        },
    };
    let paragraph = el(
        Tag::P,
        vec![ta(AttrName::Id, "codes"), ta(AttrName::Class, "")],
        vec![t("abc, def")],
    );
    assert_eq!(text_node(&None, &attrs), vec![paragraph]);
    let paragraph = el(
        Tag::P,
        vec![ta(AttrName::Id, "codes"), ta(AttrName::Class, "")],
        vec![t("abc, def")],
    );
    assert_eq!(
        text_node(&label("8", "Your codes"), &attrs),
        vec![
            el(
                Tag::Label,
                vec![
                    ta(AttrName::For, "codes"),
                    ta(AttrName::Id, "8"),
                    ta(AttrName::Class, "text-lg"),
                ],
                vec![t("Your codes")],
            ),
            paragraph,
        ]
    );
}

#[test]
fn link_node_always_renders_its_anchor() {
    let attrs = AnchorAttributes {
        id: "more".to_string(),
        href: "https://example.org/more".to_string(),
        title: UiText { id: "1".to_string(), text: "Read more".to_string(), kind: TextKind::Info },
    };
    assert_eq!(
        link_node(&None, &attrs),
        vec![el(
            Tag::A,
            vec![
                ta(AttrName::Id, "more"),
                ta(AttrName::Class, "link-primary link-hover"),
                ta(AttrName::Href, "https://example.org/more"),
            ],
            vec![t("Read more")],
        )]
    );
    let with_label = link_node(&label("2", "Help"), &attrs);
    assert_eq!(with_label.len(), 2);
    assert_eq!(
        with_label[0],
        el(
            Tag::Label,
            vec![ta(AttrName::For, "more"), ta(AttrName::Id, "2"), ta(AttrName::Class, "text-lg")],
            vec![t("Help")],
        )
    );
}

#[test]
fn script_passes_every_attribute_on() {
    let attrs = ScriptAttributes {
        id: "webauthn".to_string(),
        src: "/webauthn.js".to_string(),
        script_type: "text/javascript".to_string(),
        is_async: Some(true),
        crossorigin: Some("anonymous".to_string()),
        integrity: Some("sha512-abc".to_string()),
        nonce: Some("n0nce".to_string()),
        referrerpolicy: Some("no-referrer".to_string()),
    };
    assert_eq!(
        script_node(&attrs),
        el(
            Tag::Script,
            vec![
                fa(AttrName::Async, true),
                ta(AttrName::Crossorigin, "anonymous"),
                ta(AttrName::Id, "webauthn"),
                ta(AttrName::Integrity, "sha512-abc"),
                ta(AttrName::Nonce, "n0nce"),
                ta(AttrName::Referrerpolicy, "no-referrer"),
                ta(AttrName::Src, "/webauthn.js"),
                ta(AttrName::Type, "text/javascript"),
            ],
            vec![],
        )
    );
}

#[test]
fn script_without_optional_attributes() {
    let attrs = ScriptAttributes {
        id: "s".to_string(),
        src: "/s.js".to_string(),
        script_type: "module".to_string(),
        is_async: None,
        crossorigin: None,
        integrity: None,
        nonce: None,
        referrerpolicy: None,
    };
    assert_eq!(
        script_node(&attrs),
        el(
            Tag::Script,
            vec![
                ta(AttrName::Id, "s"),
                ta(AttrName::Src, "/s.js"),
                ta(AttrName::Type, "module"),
            ],
            vec![],
        )
    );
}

#[test]
fn messages_have_a_class_for_each_kind() {
    for (kind, class) in [
        (TextKind::Error, "alert alert-error"),
        (TextKind::Info, "alert alert-info"),
        (TextKind::Success, "alert alert-success"),
    ] {
        let message = UiText { id: "4000001".to_string(), text: "note".to_string(), kind };
        assert_eq!(
            message_node(&message),
            el(
                Tag::Div,
                vec![
                    ta(AttrName::Id, "4000001"),
                    ta(AttrName::Role, "alert"),
                    ta(AttrName::Class, class),
                ],
                vec![el(Tag::Span, vec![], vec![t("note")])],
            )
        );
    }
}

fn sample_nodes() -> Vec<UiNode> {
    vec![
        UiNode {
            group: NodeGroup::Default,
            meta: label("1", "A"),
            attributes: NodeAttributes::Text(TextAttributes {
                id: "a".to_string(),
                text: UiText {
                    id: "10".to_string(),
                    text: "first".to_string(),
                    kind: TextKind::Info,
                },
            }),
        },
        UiNode {
            group: NodeGroup::Password,
            meta: None,
            attributes: NodeAttributes::Input(input("b", InputType::Tel, None)),
        },
        UiNode {
            group: NodeGroup::Oidc,
            meta: None,
            attributes: NodeAttributes::Anchor(AnchorAttributes {
                id: "c".to_string(),
                href: "/c".to_string(),
                title: UiText {
                    id: "11".to_string(),
                    text: "third".to_string(),
                    kind: TextKind::Info,
                },
            }),
        },
    ]
}

#[test]
fn rendering_keeps_the_order_of_the_nodes() {
    let nodes = sample_nodes();
    let all = node_builder(&nodes);
    let mut one_by_one: Vec<Markup> = vec![];
    for node in &nodes {
        one_by_one.extend(render_node(node));
    }
    assert_eq!(all, one_by_one);
    assert_eq!(all.len(), 4);
    assert_eq!(render_node(&nodes[0]).len(), 2);
    assert_eq!(all[2], render_node(&nodes[1]).remove(0));
    assert_eq!(all[3], render_node(&nodes[2]).remove(0));
}

#[test]
fn rendering_of_no_nodes_is_empty() {
    assert!(node_builder(&vec![]).is_empty());
}

#[test]
fn rendering_twice_gives_the_same() {
    let nodes = sample_nodes();
    assert_eq!(node_builder(&nodes), node_builder(&nodes));
}

#[test]
fn the_group_plays_no_part_in_rendering_a_node() {
    let a = UiNode {
        group: NodeGroup::Default,
        meta: None,
        attributes: NodeAttributes::Input(input("x", InputType::Date, None)),
    };
    let b = UiNode {
        group: NodeGroup::Totp,
        meta: None,
        attributes: NodeAttributes::Input(input("x", InputType::Date, None)),
    };
    assert_eq!(render_node(&a), render_node(&b));
}
