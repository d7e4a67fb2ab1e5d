use kratos_forms::markup::{Attr, AttrName, AttrValue, Markup, Tag};
use kratos_forms::model::{
    InputAttributes, InputType, NodeAttributes, NodeGroup, TextKind, UiContainer, UiNode, UiText,
};
use kratos_forms::submit::{
    find_field, AjaxFormBuilder, FormField, LoginField, PasswordLogin, SubmitError, Transport,
    UpdateLoginFlowBody,
};

fn field(name: &str, value: &str) -> FormField {
    FormField { name: name.to_string(), value: value.to_string() }
}

fn password_body() -> UpdateLoginFlowBody {
    UpdateLoginFlowBody::Password(PasswordLogin {
        csrf_token: Some("tok".to_string()),
        identifier: String::new(),
        password: String::new(),
    })
}

fn other_bodies() -> Vec<UpdateLoginFlowBody> {
    vec![
        UpdateLoginFlowBody::Oidc,
        UpdateLoginFlowBody::Saml,
        UpdateLoginFlowBody::Totp,
        UpdateLoginFlowBody::Webauthn,
        UpdateLoginFlowBody::LookupSecret,
        UpdateLoginFlowBody::Code,
        UpdateLoginFlowBody::Passkey,
        UpdateLoginFlowBody::IdentifierFirst,
    ]
}

fn ta(name: AttrName, value: &str) -> Attr {
    Attr { name, value: AttrValue::Text(value.to_string()) }
}

fn fa(name: AttrName, flag: bool) -> Attr {
    Attr { name, value: AttrValue::Flag(flag) }
}

fn el(tag: Tag, attrs: Vec<Attr>, children: Vec<Markup>) -> Markup {
    Markup::Element { tag, attrs, children }
}

fn hidden_node(group: NodeGroup, name: &str) -> UiNode {
    UiNode {
        group,
        meta: None,
        attributes: NodeAttributes::Input(InputAttributes {
            name: name.to_string(),
            input_type: InputType::Hidden,
            required: None,
            disabled: false,
            autocomplete: None,
            value: None,
            pattern: None,
        }),
    }
}

fn hidden(name: &str) -> Markup {
    el(
        Tag::Input,
        vec![
            fa(AttrName::Disabled, false),
            ta(AttrName::Name, name),
            ta(AttrName::Id, ""),
            ta(AttrName::Type, "hidden"),
            ta(AttrName::Value, ""),
        ],
        vec![],
    )
}

#[test]
fn first_field_of_a_name_is_found() {
    let values = vec![field("a", "1"), field("b", "2"), field("a", "3")];
    assert_eq!(find_field(&values, "a"), Some("1".to_string()));
    assert_eq!(find_field(&values, "b"), Some("2".to_string()));
    assert_eq!(find_field(&values, "c"), None);
    assert_eq!(find_field(&vec![], "a"), None);
}

#[test]
fn password_login_is_filled_in() {
    let values = vec![
        field("csrf_token", "ignored"),
        field("identifier", "ada@example.org"),
        field("password", "Secret123"),
    ];
    assert_eq!(
        password_body().fill(&values),
        Ok(UpdateLoginFlowBody::Password(PasswordLogin {
            csrf_token: Some("tok".to_string()),
            identifier: "ada@example.org".to_string(),
            password: "Secret123".to_string(),
        }))
    );
}

#[test]
fn missing_identifier_is_reported() {
    let values = vec![field("password", "Secret123")];
    assert_eq!(
        password_body().fill(&values),
        Err(SubmitError::MissingField(LoginField::Identifier))
    );
    assert_eq!(
        password_body().fill(&vec![]),
        Err(SubmitError::MissingField(LoginField::Identifier))
    );
}

#[test]
fn missing_password_is_reported() {
    let values = vec![field("identifier", "ada@example.org")];
    assert_eq!(
        password_body().fill(&values),
        Err(SubmitError::MissingField(LoginField::Password))
    );
}

#[test]
fn other_methods_are_not_sent_by_the_page() {
    let values = vec![field("identifier", "a"), field("password", "b")];
    for body in other_bodies() {
        assert_eq!(body.fill(&values), Err(SubmitError::UnsupportedMethod));
    }
}

#[test]
fn ajax_form_holds_all_nodes_in_one_form() {
    let ui = UiContainer {
        action: "/self-service/login".to_string(),
        method: "POST".to_string(),
        nodes: vec![
            hidden_node(NodeGroup::Password, "a"),
            hidden_node(NodeGroup::Default, "b"),
            hidden_node(NodeGroup::Oidc, "c"),
        ],
        messages: Some(vec![UiText {
            id: "1".to_string(),
            text: "welcome".to_string(),
            kind: TextKind::Success,
        }]),
    };
    let form = password_body().build_form("flow-1".to_string(), &ui);
    assert_eq!(form.flow, "flow-1");
    assert_eq!(form.transport, Transport::Async);
    assert_eq!(
        form.markup,
        vec![
            el(
                Tag::Div,
                vec![
                    ta(AttrName::Id, "1"),
                    ta(AttrName::Role, "alert"),
                    ta(AttrName::Class, "alert alert-success"),
                ],
                vec![el(Tag::Span, vec![], vec![Markup::Text("welcome".to_string())])],
            ),
            el(
                Tag::Form,
                vec![ta(AttrName::Action, "/self-service/login"), ta(AttrName::Method, "POST")],
                vec![el(
                    Tag::Div,
                    vec![ta(AttrName::Class, "mt-2")],
                    vec![el(
                        Tag::Fieldset,
                        vec![ta(AttrName::Class, "fieldset")],
                        vec![hidden("a"), hidden("b"), hidden("c")],
                    )],
                )],
            ),
        ]
    );
}

#[test]
fn ajax_form_without_default_group_is_still_rendered() {
    let ui = UiContainer {
        action: "/x".to_string(),
        method: "post".to_string(),
        nodes: vec![],
        messages: None,
    };
    let form = password_body().build_form(String::new(), &ui);
    assert_eq!(form.markup.len(), 1);
}

#[test]
fn other_methods_go_the_plain_way() {
    let ui = UiContainer {
        action: "/x".to_string(),
        method: "post".to_string(),
        nodes: vec![hidden_node(NodeGroup::Default, "a")],
        messages: None,
    };
    for body in other_bodies() {
        let form = body.build_form("f".to_string(), &ui);
        assert_eq!(form.transport, Transport::PlainPost);
        assert_eq!(form.markup.len(), 1);
    }
}
