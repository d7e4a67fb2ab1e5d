use kratos_forms::assemble::{FormBuilder, SchemaViolation};
use kratos_forms::markup::{Attr, AttrName, AttrValue, Markup, Tag};
use kratos_forms::model::{
    InputAttributes, InputType, NodeAttributes, NodeGroup, TextKind, UiContainer, UiNode, UiText,
};
use kratos_forms::value::Value;

fn ta(name: AttrName, value: &str) -> Attr {
    Attr { name, value: AttrValue::Text(value.to_string()) }
}

fn fa(name: AttrName, flag: bool) -> Attr {
    Attr { name, value: AttrValue::Flag(flag) }
}

fn el(tag: Tag, attrs: Vec<Attr>, children: Vec<Markup>) -> Markup {
    Markup::Element { tag, attrs, children }
}

fn t(s: &str) -> Markup {
    Markup::Text(s.to_string())
}

fn input(name: &str, input_type: InputType, value: Option<Value>) -> InputAttributes {
    InputAttributes {
        name: name.to_string(),
        input_type,
        required: None,
        disabled: false,
        autocomplete: None,
        value,
        pattern: None,
    }
}

fn node(group: NodeGroup, attrs: InputAttributes) -> UiNode {
    UiNode { group, meta: None, attributes: NodeAttributes::Input(attrs) }
}

fn hidden(name: &str) -> Markup {
    el(
        Tag::Input,
        vec![
            fa(AttrName::Disabled, false),
            ta(AttrName::Name, name),
            ta(AttrName::Id, ""),
            ta(AttrName::Type, "hidden"),
            ta(AttrName::Value, ""),
        ],
        vec![],
    )
}

fn form(action: &str, method: &str, fields: Vec<Markup>) -> Markup {
    el(
        Tag::Form,
        vec![ta(AttrName::Action, action), ta(AttrName::Method, method)],
        vec![el(
            Tag::Div,
            vec![ta(AttrName::Class, "mt-2")],
            vec![el(Tag::Fieldset, vec![ta(AttrName::Class, "fieldset")], fields)],
        )],
    )
}

fn legend(text: &str) -> Markup {
    el(Tag::Legend, vec![ta(AttrName::Class, "fieldset-legend text-xl")], vec![t(text)])
}

fn password_field(name: &str) -> Markup {
    el(
        Tag::Label,
        vec![ta(AttrName::Class, "floating-label my-4")],
        vec![
            el(Tag::Span, vec![], vec![t("Password")]),
            el(
                Tag::Input,
                vec![
                    ta(AttrName::Class, "input w-full validator"),
                    fa(AttrName::Disabled, false),
                    ta(AttrName::Name, name),
                    ta(AttrName::Placeholder, "Password"),
                    ta(AttrName::Type, "password"),
                    ta(AttrName::Pattern, "(?=.*\\d)(?=.*[a-z])(?=.*[A-Z]).{8,}"),
                    ta(AttrName::Value, ""),
                ],
                vec![],
            ),
            el(
                Tag::Div,
                vec![ta(AttrName::Class, "validator-hint hidden")],
                vec![
                    t("Password must be more than 8 characters, and include:"),
                    el(
                        Tag::Ul,
                        vec![ta(AttrName::Class, "list-disc list-inside")],
                        vec![
                            el(Tag::Li, vec![], vec![t("At least one number")]),
                            el(Tag::Li, vec![], vec![t("At least one lowercase letter")]),
                            el(Tag::Li, vec![], vec![t("At least one uppercase letter")]),
                        ],
                    ),
                ],
            ),
        ],
    )
}

fn email_field(name: &str) -> Markup {
    el(
        Tag::Label,
        vec![ta(AttrName::Class, "floating-label my-4")],
        vec![
            el(Tag::Span, vec![], vec![t("Email")]),
            el(
                Tag::Input,
                vec![
                    ta(AttrName::Class, "input w-full validator"),
                    fa(AttrName::Disabled, false),
                    ta(AttrName::Name, name),
                    ta(AttrName::Placeholder, "Email"),
                    ta(AttrName::Type, "email"),
                    ta(AttrName::Value, ""),
                ],
                vec![],
            ),
            el(
                Tag::Div,
                vec![ta(AttrName::Class, "validator-hint hidden")],
                vec![el(Tag::P, vec![], vec![t("Enter valid email address")])],
            ),
        ],
    )
}

#[test]
fn common_nodes_join_every_method_form() {
    let ui = UiContainer {
        action: "/settings".to_string(),
        method: "post".to_string(),
        nodes: vec![
            node(NodeGroup::Default, input("csrf_token", InputType::Hidden, None)),
            node(NodeGroup::Default, input("flow", InputType::Hidden, None)),
            node(NodeGroup::Password, input("password", InputType::Password, None)),
        ],
        messages: None,
    };
    let out = FormBuilder(&ui);
    assert_eq!(out.violation, None);
    assert_eq!(
        out.markup,
        vec![form(
            "/settings",
            "post",
            vec![
                legend("Password"),
                hidden("csrf_token"),
                hidden("flow"),
                password_field("password"),
            ],
        )]
    );
}

#[test]
fn separated_common_nodes_are_one_set() {
    let ui = UiContainer {
        action: "/settings".to_string(),
        method: "post".to_string(),
        nodes: vec![
            node(NodeGroup::Default, input("csrf_token", InputType::Hidden, None)),
            node(NodeGroup::Password, input("password", InputType::Password, None)),
            node(NodeGroup::Default, input("flow", InputType::Hidden, None)),
        ],
        messages: None,
    };
    let out = FormBuilder(&ui);
    assert_eq!(out.violation, None);
    assert_eq!(
        out.markup,
        vec![form(
            "/settings",
            "post",
            vec![
                legend("Password"),
                hidden("csrf_token"),
                hidden("flow"),
                password_field("password"),
            ],
        )]
    );
}

#[test]
fn missing_default_group_renders_nothing() {
    let ui = UiContainer {
        action: "/login".to_string(),
        method: "post".to_string(),
        nodes: vec![node(NodeGroup::Password, input("password", InputType::Password, None))],
        messages: Some(vec![UiText {
            id: "1".to_string(),
            text: "hello".to_string(),
            kind: TextKind::Info,
        }]),
    };
    let out = FormBuilder(&ui);
    assert_eq!(out.violation, Some(SchemaViolation::MissingDefaultGroup));
    assert_eq!(out.markup, vec![]);
}

#[test]
fn empty_flow_renders_nothing() {
    let ui = UiContainer {
        action: "/login".to_string(),
        method: "post".to_string(),
        nodes: vec![],
        messages: None,
    };
    let out = FormBuilder(&ui);
    assert_eq!(out.violation, Some(SchemaViolation::MissingDefaultGroup));
    assert!(out.markup.is_empty());
}

#[test]
fn login_flow_end_to_end() {
    let ui = UiContainer {
        action: "/login".to_string(),
        method: "post".to_string(),
        nodes: vec![
            node(NodeGroup::Default, input("identifier", InputType::Email, None)),
            node(NodeGroup::Default, input("password", InputType::Password, None)),
            node(
                NodeGroup::Default,
                input("method", InputType::Submit, Some(Value::String("password".to_string()))),
            ),
        ],
        messages: Some(vec![UiText {
            id: "4000006".to_string(),
            text: "bad credentials".to_string(),
            kind: TextKind::Error,
        }]),
    };
    let out = FormBuilder(&ui);
    assert_eq!(out.violation, None);
    let alert = el(
        Tag::Div,
        vec![
            ta(AttrName::Id, "4000006"),
            ta(AttrName::Role, "alert"),
            ta(AttrName::Class, "alert alert-error"),
        ],
        vec![el(Tag::Span, vec![], vec![t("bad credentials")])],
    );
    let submit = el(
        Tag::Button,
        vec![
            fa(AttrName::Disabled, false),
            ta(AttrName::Class, "btn btn-primary w-full my-4"),
            ta(AttrName::Name, "method"),
            ta(AttrName::Type, "submit"),
            ta(AttrName::Value, "password"),
        ],
        vec![],
    );
    assert_eq!(
        out.markup,
        vec![
            alert,
            form(
                "/login",
                "post",
                vec![email_field("identifier"), password_field("password"), submit],
            ),
        ]
    );
}

#[test]
fn interleaved_groups_form_separate_runs() {
    let ui = UiContainer {
        action: "/settings".to_string(),
        method: "post".to_string(),
        nodes: vec![
            node(NodeGroup::Default, input("csrf_token", InputType::Hidden, None)),
            node(NodeGroup::Totp, input("a", InputType::Hidden, None)),
            node(NodeGroup::Totp, input("b", InputType::Hidden, None)),
            node(NodeGroup::Oidc, input("c", InputType::Hidden, None)),
            node(NodeGroup::Totp, input("d", InputType::Hidden, None)),
            node(NodeGroup::Link, input("e", InputType::Hidden, None)),
        ],
        messages: None,
    };
    let out = FormBuilder(&ui);
    assert_eq!(
        out.markup,
        vec![
            form(
                "/settings",
                "post",
                vec![legend("TOTP"), hidden("csrf_token"), hidden("a"), hidden("b")],
            ),
            form("/settings", "post", vec![legend("OIDC"), hidden("csrf_token"), hidden("c")]),
            form("/settings", "post", vec![legend("TOTP"), hidden("csrf_token"), hidden("d")]),
            form("/settings", "post", vec![legend(""), hidden("csrf_token"), hidden("e")]),
        ]
    );
}

#[test]
fn assembling_twice_gives_the_same() {
    let ui = UiContainer {
        action: "/settings".to_string(),
        method: "post".to_string(),
        nodes: vec![
            node(NodeGroup::Profile, input("traits.email", InputType::Email, None)),
            node(NodeGroup::Default, input("csrf_token", InputType::Hidden, None)),
            node(NodeGroup::Password, input("password", InputType::Password, None)),
        ],
        messages: Some(vec![UiText {
            id: "1".to_string(),
            text: "saved".to_string(),
            kind: TextKind::Success,
        }]),
    };
    let first = FormBuilder(&ui);
    let second = FormBuilder(&ui);
    assert_eq!(first, second);
    assert_eq!(first.markup.len(), 3);
}

#[test]
fn only_common_nodes_give_one_form_without_legend() {
    let ui = UiContainer {
        action: "/verify".to_string(),
        method: "post".to_string(),
        nodes: vec![
            node(NodeGroup::Default, input("csrf_token", InputType::Hidden, None)),
            node(NodeGroup::Default, input("code", InputType::Hidden, None)),
        ],
        messages: None,
    };
    let out = FormBuilder(&ui);
    assert_eq!(out.violation, None);
    assert_eq!(
        out.markup,
        vec![form("/verify", "post", vec![hidden("csrf_token"), hidden("code")])]
    );
}
