use kratos_forms::error_view::{
    error_content_js, error_content_rsx, DisplayError, ErrorEntity, GenericError,
    ResponseContent,
};
use kratos_forms::markup::{Attr, AttrName, AttrValue, Markup, Tag};
use kratos_forms::pages::{AuthenticationMethod, Device, OryLogOut, Session, SessionInfo};

fn ta(name: AttrName, value: &str) -> Attr {
    Attr { name, value: AttrValue::Text(value.to_string()) }
}

fn el(tag: Tag, attrs: Vec<Attr>, children: Vec<Markup>) -> Markup {
    Markup::Element { tag, attrs, children }
}

fn t(s: &str) -> Markup {
    Markup::Text(s.to_string())
}

fn classed(tag: Tag, class: &str, children: Vec<Markup>) -> Markup {
    el(tag, vec![ta(AttrName::Class, class)], children)
}

fn holding(tag: Tag, s: &str) -> Markup {
    el(tag, vec![], vec![t(s)])
}

fn home_link() -> Markup {
    el(
        Tag::A,
        vec![ta(AttrName::Href, "/"), ta(AttrName::Class, "btn btn-primary my-8")],
        vec![t("Go Home")],
    )
}

fn section(heading: &str, content: Option<Markup>) -> Markup {
    let mut inner = vec![t(heading)];
    inner.extend(content);
    classed(
        Tag::Div,
        "mx-auto w-full max-w-lg",
        vec![classed(Tag::Div, "mt-10", vec![classed(Tag::Label, "text-lg", inner)])],
    )
}

fn row(name: &str, fact: &str) -> Markup {
    el(Tag::Tr, vec![], vec![holding(Tag::Th, name), holding(Tag::Td, fact)])
}

fn method_head() -> Markup {
    el(
        Tag::Thead,
        vec![],
        vec![
            holding(Tag::Th, "AAL"),
            holding(Tag::Th, "Completed At"),
            holding(Tag::Th, "Method"),
            holding(Tag::Th, "Organization"),
            holding(Tag::Th, "Provider"),
        ],
    )
}

fn device_head() -> Markup {
    el(
        Tag::Thead,
        vec![],
        vec![
            holding(Tag::Th, "ID"),
            holding(Tag::Th, "IP Address"),
            holding(Tag::Th, "Location"),
            holding(Tag::Th, "User Agent"),
        ],
    )
}

#[test]
fn documented_error_shows_message_and_reason() {
    let error = GenericError {
        message: "The flow expired".to_string(),
        reason: Some("Too slow".to_string()),
    };
    assert_eq!(
        error_content_rsx(&error),
        classed(
            Tag::Div,
            "text-center max-h-screen max-w-none",
            vec![
                classed(Tag::H1, "text-2xl my-8", vec![t("The flow expired")]),
                classed(Tag::P, "font-light m-8", vec![t("Too slow")]),
                home_link(),
            ],
        )
    );
}

#[test]
fn documented_error_without_reason() {
    let error = GenericError { message: "No".to_string(), reason: None };
    assert_eq!(
        error_content_rsx(&error),
        classed(
            Tag::Div,
            "text-center max-h-screen max-w-none",
            vec![
                classed(Tag::H1, "text-2xl my-8", vec![t("No")]),
                classed(Tag::P, "font-light m-8", vec![]),
                home_link(),
            ],
        )
    );
}

#[test]
fn unknown_error_shows_its_text() {
    assert_eq!(
        error_content_js(&Some("boom".to_string())),
        classed(
            Tag::Div,
            "text-center max-h-screen max-w-none",
            vec![classed(Tag::P, "font-light m-8", vec![t("boom")]), home_link()],
        )
    );
    assert_eq!(
        error_content_js(&None),
        classed(
            Tag::Div,
            "text-center max-h-screen max-w-none",
            vec![classed(Tag::P, "font-light m-8", vec![]), home_link()],
        )
    );
}

#[test]
fn response_is_shown_by_what_it_was_read_as() {
    let generic = ResponseContent {
        content: "{...}".to_string(),
        entity: Some(ErrorEntity::Generic(GenericError {
            message: "Gone".to_string(),
            reason: None,
        })),
    };
    assert_eq!(
        generic.view_response_content(),
        error_content_rsx(&GenericError { message: "Gone".to_string(), reason: None })
    );
    let unknown = ResponseContent {
        content: "\"odd\"".to_string(),
        entity: Some(ErrorEntity::Unknown(Some("odd".to_string()))),
    };
    assert_eq!(unknown.view_response_content(), error_content_js(&Some("odd".to_string())));
}

#[test]
fn unread_response_shows_its_body() {
    let raw = ResponseContent { content: "502 Bad Gateway".to_string(), entity: None };
    assert_eq!(raw.view_response_content(), holding(Tag::P, "502 Bad Gateway"));
}

#[test]
fn log_out_entry_with_and_without_url() {
    assert_eq!(
        OryLogOut(&Some("https://id.example.org/logout?token=abc".to_string())),
        el(
            Tag::Li,
            vec![],
            vec![el(
                Tag::A,
                vec![ta(AttrName::Href, "https://id.example.org/logout?token=abc")],
                vec![t("Log out")],
            )],
        )
    );
    assert_eq!(
        OryLogOut(&None),
        classed(
            Tag::Li,
            "menu-disabled",
            vec![el(Tag::A, vec![ta(AttrName::Href, "")], vec![t("Log out")])],
        )
    );
}

#[test]
fn session_page_with_the_least_that_can_be_known() {
    let session = Session {
        id: "s-1".to_string(),
        active: None,
        authenticated_at: None,
        authenticator_assurance_level: None,
        expires_at: None,
        issued_at: None,
        tokenized: None,
        authentication_methods: None,
        devices: None,
        identity: None,
    };
    assert_eq!(
        SessionInfo(&session),
        vec![
            classed(Tag::H1, "text-center text-2xl", vec![t("Session Info")]),
            section(
                "Basic Info",
                Some(classed(Tag::Table, "table", vec![el(Tag::Tbody, vec![], vec![row("ID", "s-1")])])),
            ),
            section(
                "Authentication Methods",
                Some(classed(Tag::Table, "table", vec![method_head()])),
            ),
            section("Devices", Some(classed(Tag::Table, "table", vec![device_head()]))),
            section("Identity", None),
        ]
    );
}

#[test]
fn session_page_with_everything_known() {
    let session = Session {
        id: "s-2".to_string(),
        active: Some(true),
        authenticated_at: Some("2025-01-01T00:00:00Z".to_string()),
        authenticator_assurance_level: Some("aal1".to_string()),
        expires_at: Some("2025-01-02T00:00:00Z".to_string()),
        issued_at: Some("2025-01-01T00:00:01Z".to_string()),
        tokenized: Some("jwt".to_string()),
        authentication_methods: Some(vec![
            AuthenticationMethod {
                aal: Some("aal1".to_string()),
                completed_at: Some("2025-01-01T00:00:00Z".to_string()),
                method: Some("Password".to_string()),
                organization: None,
                provider: None,
            },
            AuthenticationMethod {
                aal: None,
                completed_at: None,
                method: Some("Oidc".to_string()),
                organization: Some("acme".to_string()),
                provider: Some("github".to_string()),
            },
        ]),
        devices: Some(vec![Device {
            id: "d-1".to_string(),
            ip_address: Some("192.0.2.1".to_string()),
            location: None,
            user_agent: Some("curl".to_string()),
        }]),
        identity: Some("Identity { id: \"u-1\" }".to_string()),
    };
    let td = |s: &str| holding(Tag::Td, s);
    assert_eq!(
        SessionInfo(&session),
        vec![
            classed(Tag::H1, "text-center text-2xl", vec![t("Session Info")]),
            section(
                "Basic Info",
                Some(classed(
                    Tag::Table,
                    "table",
                    vec![el(
                        Tag::Tbody,
                        vec![],
                        vec![
                            row("ID", "s-2"),
                            row("Active", "true"),
                            row("Authenticated", "2025-01-01T00:00:00Z"),
                            row("Authenticator Assurance Level", "aal1"),
                            row("Expires", "2025-01-02T00:00:00Z"),
                            row("Issued", "2025-01-01T00:00:01Z"),
                            row("Tokenized", "jwt"),
                        ],
                    )],
                )),
            ),
            section(
                "Authentication Methods",
                Some(classed(
                    Tag::Table,
                    "table",
                    vec![
                        method_head(),
                        el(
                            Tag::Tbody,
                            vec![],
                            vec![
                                el(
                                    Tag::Tr,
                                    vec![],
                                    vec![
                                        td("aal1"),
                                        td("2025-01-01T00:00:00Z"),
                                        td("Password"),
                                        td(""),
                                        td(""),
                                    ],
                                ),
                                el(
                                    Tag::Tr,
                                    vec![],
                                    vec![td(""), td(""), td("Oidc"), td("acme"), td("github")],
                                ),
                            ],
                        ),
                    ],
                )),
            ),
            section(
                "Devices",
                Some(classed(
                    Tag::Table,
                    "table",
                    vec![
                        device_head(),
                        el(
                            Tag::Tbody,
                            vec![],
                            vec![el(
                                Tag::Tr,
                                vec![],
                                vec![td("d-1"), td("192.0.2.1"), td(""), td("curl")],
                            )],
                        ),
                    ],
                )),
            ),
            section("Identity", Some(holding(Tag::Code, "Identity { id: \"u-1\" }"))),
        ]
    );
}

#[test]
fn session_page_shows_an_inactive_session_and_empty_lists() {
    let session = Session {
        id: "s-3".to_string(),
        active: Some(false),
        authenticated_at: None,
        authenticator_assurance_level: None,
        expires_at: None,
        issued_at: None,
        tokenized: None,
        authentication_methods: Some(vec![]),
        devices: Some(vec![]),
        identity: None,
    };
    let page = SessionInfo(&session);
    assert_eq!(
        page[1],
        section(
            "Basic Info",
            Some(classed(
                Tag::Table,
                "table",
                vec![el(Tag::Tbody, vec![], vec![row("ID", "s-3"), row("Active", "false")])],
            )),
        )
    );
    assert_eq!(
        page[3],
        section(
            "Devices",
            Some(classed(Tag::Table, "table", vec![device_head(), el(Tag::Tbody, vec![], vec![])])),
        )
    );
}
