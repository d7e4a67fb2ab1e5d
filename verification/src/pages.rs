//! The parts of the pages that depend on the session: what is known of it,
//! and the way out of it.

use crate::markup::{
    classed, classed_view, element, element_view, empty_list, holding, holding_view, plain,
    plain_view, push_item, push_opt, push_text, text, text_attr, text_view, Attr, AttrName,
    Markup, MarkupView, Tag,
};
use crate::value::bool_text;
use vstd::prelude::*;

verus! {

/// One way in which the user has proved who they are.
#[derive(Debug, PartialEq, Eq)]
pub struct AuthenticationMethod {
    pub aal: Option<String>,
    pub completed_at: Option<String>,
    pub method: Option<String>,
    pub organization: Option<String>,
    pub provider: Option<String>,
}

/// The mathematical value of an [`AuthenticationMethod`].
pub struct AuthenticationMethodView {
    pub aal: Option<Seq<char>>,
    pub completed_at: Option<Seq<char>>,
    pub method: Option<Seq<char>>,
    pub organization: Option<Seq<char>>,
    pub provider: Option<Seq<char>>,
}

impl View for AuthenticationMethod {
    type V = AuthenticationMethodView;

    open spec fn view(&self) -> AuthenticationMethodView {
        AuthenticationMethodView {
            aal: self.aal.deep_view(),
            completed_at: self.completed_at.deep_view(),
            method: self.method.deep_view(),
            organization: self.organization.deep_view(),
            provider: self.provider.deep_view(),
        }
    }
}

impl DeepView for AuthenticationMethod {
    type V = AuthenticationMethodView;

    open spec fn deep_view(&self) -> AuthenticationMethodView {
        self@
    }
}

/// A device from which the session was used.
#[derive(Debug, PartialEq, Eq)]
pub struct Device {
    pub id: String,
    pub ip_address: Option<String>,
    pub location: Option<String>,
    pub user_agent: Option<String>,
}

/// The mathematical value of a [`Device`].
pub struct DeviceView {
    pub id: Seq<char>,
    pub ip_address: Option<Seq<char>>,
    pub location: Option<Seq<char>>,
    pub user_agent: Option<Seq<char>>,
}

impl View for Device {
    type V = DeviceView;

    open spec fn view(&self) -> DeviceView {
        DeviceView {
            id: self.id@,
            ip_address: self.ip_address.deep_view(),
            location: self.location.deep_view(),
            user_agent: self.user_agent.deep_view(),
        }
    }
}

impl DeepView for Device {
    type V = DeviceView;

    open spec fn deep_view(&self) -> DeviceView {
        self@
    }
}

/// What the identity service knows of a session.
#[derive(Debug, PartialEq, Eq)]
pub struct Session {
    pub id: String,
    pub active: Option<bool>,
    pub authenticated_at: Option<String>,
    pub authenticator_assurance_level: Option<String>,
    pub expires_at: Option<String>,
    pub issued_at: Option<String>,
    pub tokenized: Option<String>,
    pub authentication_methods: Option<Vec<AuthenticationMethod>>,
    pub devices: Option<Vec<Device>>,
    /// The identity of the user, written out for reading.
    pub identity: Option<String>,
}

/// The mathematical value of a [`Session`].
pub struct SessionView {
    pub id: Seq<char>,
    pub active: Option<bool>,
    pub authenticated_at: Option<Seq<char>>,
    pub authenticator_assurance_level: Option<Seq<char>>,
    pub expires_at: Option<Seq<char>>,
    pub issued_at: Option<Seq<char>>,
    pub tokenized: Option<Seq<char>>,
    pub authentication_methods: Option<Seq<AuthenticationMethodView>>,
    pub devices: Option<Seq<DeviceView>>,
    pub identity: Option<Seq<char>>,
}

impl View for Session {
    type V = SessionView;

    open spec fn view(&self) -> SessionView {
        SessionView {
            id: self.id@,
            active: self.active,
            authenticated_at: self.authenticated_at.deep_view(),
            authenticator_assurance_level: self.authenticator_assurance_level.deep_view(),
            expires_at: self.expires_at.deep_view(),
            issued_at: self.issued_at.deep_view(),
            tokenized: self.tokenized.deep_view(),
            authentication_methods: self.authentication_methods.deep_view(),
            devices: self.devices.deep_view(),
            identity: self.identity.deep_view(),
        }
    }
}

/// A row of a table of facts: what the fact is called, and the fact.
pub open spec fn fact_row(name: Seq<char>, fact: Seq<char>) -> MarkupView {
    plain_view(
        Tag::Tr,
        Seq::empty().push(holding_view(Tag::Th, name)).push(holding_view(Tag::Td, fact)),
    )
}

/// The row of a fact, where the fact is known.
pub open spec fn opt_fact_row(name: Seq<char>, fact: Option<Seq<char>>) -> Option<MarkupView> {
    match fact {
        Some(f) => Some(fact_row(name, f)),
        None => None,
    }
}

/// The text of a fact that may be unknown: nothing stands for the unknown.
pub open spec fn or_empty(fact: Option<Seq<char>>) -> Seq<char> {
    match fact {
        Some(f) => f,
        None => Seq::empty(),
    }
}

/// The text of a truth value, where it is known.
pub open spec fn opt_bool_text(b: Option<bool>) -> Option<Seq<char>> {
    match b {
        Some(v) => Some(bool_text(v)),
        None => None,
    }
}

/// The rows of what is known of the session itself. The identifier is
/// always known; every other fact has a row only where it is known.
pub open spec fn basic_rows(s: SessionView) -> Seq<MarkupView> {
    let rows = Seq::empty().push(fact_row("ID"@, s.id));
    let rows = push_opt(rows, opt_fact_row("Active"@, opt_bool_text(s.active)));
    let rows = push_opt(rows, opt_fact_row("Authenticated"@, s.authenticated_at));
    let rows = push_opt(
        rows,
        opt_fact_row("Authenticator Assurance Level"@, s.authenticator_assurance_level),
    );
    let rows = push_opt(rows, opt_fact_row("Expires"@, s.expires_at));
    let rows = push_opt(rows, opt_fact_row("Issued"@, s.issued_at));
    push_opt(rows, opt_fact_row("Tokenized"@, s.tokenized))
}

/// A part of the page: a box that holds a label with a heading and what
/// belongs under it.
pub open spec fn section_view(heading: Seq<char>, content: Option<MarkupView>) -> MarkupView {
    classed_view(
        Tag::Div,
        "mx-auto w-full max-w-lg"@,
        seq![
            classed_view(
                Tag::Div,
                "mt-10"@,
                seq![
                    classed_view(
                        Tag::Label,
                        "text-lg"@,
                        push_opt(Seq::empty().push(text_view(heading)), content),
                    ),
                ],
            ),
        ],
    )
}

/// A table with its parts.
pub open spec fn table_view(parts: Seq<MarkupView>) -> MarkupView {
    classed_view(Tag::Table, "table"@, parts)
}

/// The row of one way of proving who the user is. An unknown fact leaves
/// its cell empty.
pub open spec fn method_row(m: AuthenticationMethodView) -> MarkupView {
    plain_view(
        Tag::Tr,
        Seq::empty().push(holding_view(Tag::Td, or_empty(m.aal))).push(
            holding_view(Tag::Td, or_empty(m.completed_at)),
        ).push(holding_view(Tag::Td, or_empty(m.method))).push(
            holding_view(Tag::Td, or_empty(m.organization)),
        ).push(holding_view(Tag::Td, or_empty(m.provider))),
    )
}

/// The row of one device. An unknown fact leaves its cell empty.
pub open spec fn device_row(d: DeviceView) -> MarkupView {
    plain_view(
        Tag::Tr,
        Seq::empty().push(holding_view(Tag::Td, d.id)).push(
            holding_view(Tag::Td, or_empty(d.ip_address)),
        ).push(holding_view(Tag::Td, or_empty(d.location))).push(
            holding_view(Tag::Td, or_empty(d.user_agent)),
        ),
    )
}

/// The head of the table of methods.
pub open spec fn method_head() -> MarkupView {
    plain_view(
        Tag::Thead,
        Seq::empty().push(holding_view(Tag::Th, "AAL"@)).push(
            holding_view(Tag::Th, "Completed At"@),
        ).push(holding_view(Tag::Th, "Method"@)).push(holding_view(Tag::Th, "Organization"@)).push(
            holding_view(Tag::Th, "Provider"@),
        ),
    )
}

/// The head of the table of devices.
pub open spec fn device_head() -> MarkupView {
    plain_view(
        Tag::Thead,
        Seq::empty().push(holding_view(Tag::Th, "ID"@)).push(holding_view(Tag::Th, "IP Address"@)).push(
            holding_view(Tag::Th, "Location"@),
        ).push(holding_view(Tag::Th, "User Agent"@)),
    )
}

/// The body of a table, where its rows are known: one row for each item,
/// in their order.
pub open spec fn opt_body<T>(items: Option<Seq<T>>, row: spec_fn(T) -> MarkupView) -> Option<
    MarkupView,
> {
    match items {
        Some(list) => Some(plain_view(Tag::Tbody, list.map_values(row))),
        None => None,
    }
}

/// The block that shows the identity, where it is known.
pub open spec fn opt_identity(identity: Option<Seq<char>>) -> Option<MarkupView> {
    match identity {
        Some(i) => Some(holding_view(Tag::Code, i)),
        None => None,
    }
}

/// The page that shows a session: a heading, what is known of the session
/// itself, how the user has signed in, from which devices, and as whom.
pub open spec fn session_info_view(s: SessionView) -> Seq<MarkupView> {
    Seq::empty().push(
        classed_view(Tag::H1, "text-center text-2xl"@, seq![text_view("Session Info"@)]),
    ).push(
        section_view(
            "Basic Info"@,
            Some(table_view(seq![plain_view(Tag::Tbody, basic_rows(s))])),
        ),
    ).push(
        section_view(
            "Authentication Methods"@,
            Some(
                table_view(
                    push_opt(
                        Seq::empty().push(method_head()),
                        opt_body(
                            s.authentication_methods,
                            |m: AuthenticationMethodView| method_row(m),
                        ),
                    ),
                ),
            ),
        ),
    ).push(
        section_view(
            "Devices"@,
            Some(
                table_view(
                    push_opt(
                        Seq::empty().push(device_head()),
                        opt_body(s.devices, |d: DeviceView| device_row(d)),
                    ),
                ),
            ),
        ),
    ).push(section_view("Identity"@, opt_identity(s.identity)))
}

fn fact(name: &str, value: &str) -> (m: Markup)
    ensures
        m@ == fact_row(name@, value@),
{
    let mut cells: Vec<Markup> = empty_list();
    push_item(&mut cells, holding(Tag::Th, name));
    push_item(&mut cells, holding(Tag::Td, value));
    plain(Tag::Tr, cells)
}

fn push_fact(rows: &mut Vec<Markup>, name: &str, value: &Option<String>)
    ensures
        final(rows).deep_view() == push_opt(
            old(rows).deep_view(),
            opt_fact_row(name@, value.deep_view()),
        ),
{
    match value {
        Some(v) => push_item(rows, fact(name, v.as_str())),
        None => {},
    }
}

fn cell(value: &Option<String>) -> (m: Markup)
    ensures
        m@ == holding_view(Tag::Td, or_empty(value.deep_view())),
{
    match value {
        Some(v) => holding(Tag::Td, v.as_str()),
        None => {
            proof {
                reveal_strlit("");
                assert(""@ =~= Seq::<char>::empty());
            }
            holding(Tag::Td, "")
        },
    }
}

fn section(heading: &str, content: Option<Markup>) -> (m: Markup)
    ensures
        m@ == section_view(heading@, content.deep_view()),
{
    let mut inner: Vec<Markup> = empty_list();
    push_item(&mut inner, text(heading));
    match content {
        Some(c) => push_item(&mut inner, c),
        None => {},
    }
    let mut middle: Vec<Markup> = empty_list();
    push_item(&mut middle, classed(Tag::Label, "text-lg", inner));
    let mut outer: Vec<Markup> = empty_list();
    push_item(&mut outer, classed(Tag::Div, "mt-10", middle));
    classed(Tag::Div, "mx-auto w-full max-w-lg", outer)
}

fn basic_table(s: &Session) -> (m: Markup)
    ensures
        m@ == table_view(seq![plain_view(Tag::Tbody, basic_rows(s@))]),
{
    let mut rows: Vec<Markup> = empty_list();
    push_item(&mut rows, fact("ID", s.id.as_str()));
    match s.active {
        Some(a) => push_item(
            &mut rows,
            fact(
                "Active",
                if a {
                    "true"
                } else {
                    "false"
                },
            ),
        ),
        None => {},
    }
    push_fact(&mut rows, "Authenticated", &s.authenticated_at);
    push_fact(&mut rows, "Authenticator Assurance Level", &s.authenticator_assurance_level);
    push_fact(&mut rows, "Expires", &s.expires_at);
    push_fact(&mut rows, "Issued", &s.issued_at);
    push_fact(&mut rows, "Tokenized", &s.tokenized);
    let mut parts: Vec<Markup> = empty_list();
    push_item(&mut parts, plain(Tag::Tbody, rows));
    classed(Tag::Table, "table", parts)
}

fn method_table(methods: &Option<Vec<AuthenticationMethod>>) -> (m: Markup)
    ensures
        m@ == table_view(
            push_opt(
                Seq::empty().push(method_head()),
                opt_body(methods.deep_view(), |m: AuthenticationMethodView| method_row(m)),
            ),
        ),
{
    let mut head: Vec<Markup> = empty_list();
    push_item(&mut head, holding(Tag::Th, "AAL"));
    push_item(&mut head, holding(Tag::Th, "Completed At"));
    push_item(&mut head, holding(Tag::Th, "Method"));
    push_item(&mut head, holding(Tag::Th, "Organization"));
    push_item(&mut head, holding(Tag::Th, "Provider"));
    let mut parts: Vec<Markup> = empty_list();
    push_item(&mut parts, plain(Tag::Thead, head));
    match methods {
        Some(list) => {
            let mut rows: Vec<Markup> = empty_list();
            let mut i: usize = 0;
            while i < list.len()
                invariant
                    i <= list.len(),
                    rows.deep_view() == list.deep_view().take(i as int).map_values(
                        |m: AuthenticationMethodView| method_row(m),
                    ),
                decreases list.len() - i,
            {
                let item = &list[i];
                let mut cells: Vec<Markup> = empty_list();
                push_item(&mut cells, cell(&item.aal));
                push_item(&mut cells, cell(&item.completed_at));
                push_item(&mut cells, cell(&item.method));
                push_item(&mut cells, cell(&item.organization));
                push_item(&mut cells, cell(&item.provider));
                push_item(&mut rows, plain(Tag::Tr, cells));
                assert(rows.deep_view() =~= list.deep_view().take(i as int + 1).map_values(
                    |m: AuthenticationMethodView| method_row(m),
                ));
                i = i + 1;
            }
            assert(list.deep_view().take(i as int) =~= list.deep_view());
            push_item(&mut parts, plain(Tag::Tbody, rows));
        },
        None => {},
    }
    classed(Tag::Table, "table", parts)
}

fn device_table(devices: &Option<Vec<Device>>) -> (m: Markup)
    ensures
        m@ == table_view(
            push_opt(
                Seq::empty().push(device_head()),
                opt_body(devices.deep_view(), |d: DeviceView| device_row(d)),
            ),
        ),
{
    let mut head: Vec<Markup> = empty_list();
    push_item(&mut head, holding(Tag::Th, "ID"));
    push_item(&mut head, holding(Tag::Th, "IP Address"));
    push_item(&mut head, holding(Tag::Th, "Location"));
    push_item(&mut head, holding(Tag::Th, "User Agent"));
    let mut parts: Vec<Markup> = empty_list();
    push_item(&mut parts, plain(Tag::Thead, head));
    match devices {
        Some(list) => {
            let mut rows: Vec<Markup> = empty_list();
            let mut i: usize = 0;
            while i < list.len()
                invariant
                    i <= list.len(),
                    rows.deep_view() == list.deep_view().take(i as int).map_values(
                        |d: DeviceView| device_row(d),
                    ),
                decreases list.len() - i,
            {
                let item = &list[i];
                let mut cells: Vec<Markup> = empty_list();
                push_item(&mut cells, holding(Tag::Td, item.id.as_str()));
                push_item(&mut cells, cell(&item.ip_address));
                push_item(&mut cells, cell(&item.location));
                push_item(&mut cells, cell(&item.user_agent));
                push_item(&mut rows, plain(Tag::Tr, cells));
                assert(rows.deep_view() =~= list.deep_view().take(i as int + 1).map_values(
                    |d: DeviceView| device_row(d),
                ));
                i = i + 1;
            }
            assert(list.deep_view().take(i as int) =~= list.deep_view());
            push_item(&mut parts, plain(Tag::Tbody, rows));
        },
        None => {},
    }
    classed(Tag::Table, "table", parts)
}

/// Renders the page that shows a session.
#[allow(non_snake_case)]
pub fn SessionInfo(s: &Session) -> (list: Vec<Markup>)
    ensures
        list.deep_view() == session_info_view(s@),
{
    let mut heading: Vec<Markup> = empty_list();
    push_item(&mut heading, text("Session Info"));
    let mut list: Vec<Markup> = empty_list();
    push_item(&mut list, classed(Tag::H1, "text-center text-2xl", heading));
    push_item(&mut list, section("Basic Info", Some(basic_table(s))));
    push_item(
        &mut list,
        section("Authentication Methods", Some(method_table(&s.authentication_methods))),
    );
    push_item(&mut list, section("Devices", Some(device_table(&s.devices))));
    let identity = match &s.identity {
        Some(i) => Some(holding(Tag::Code, i.as_str())),
        None => None,
    };
    push_item(&mut list, section("Identity", identity));
    list
}

/// The entry of the menu that signs the user out: a link to where the
/// service signs them out, or an entry that leads nowhere and is greyed
/// out while that place is not known.
pub open spec fn log_out_view(logout_url: Option<Seq<char>>) -> MarkupView {
    let link = element_view(
        Tag::A,
        seq![text_attr(AttrName::Href, or_empty(logout_url))],
        seq![text_view("Log out"@)],
    );
    match logout_url {
        Some(_) => plain_view(Tag::Li, seq![link]),
        None => classed_view(Tag::Li, "menu-disabled"@, seq![link]),
    }
}

/// Renders the entry of the menu that signs the user out.
#[allow(non_snake_case)]
pub fn OryLogOut(logout_url: &Option<String>) -> (m: Markup)
    ensures
        m@ == log_out_view(logout_url.deep_view()),
{
    let mut a: Vec<Attr> = empty_list();
    match logout_url {
        Some(url) => push_text(&mut a, AttrName::Href, url.as_str()),
        None => {
            proof {
                reveal_strlit("");
                assert(""@ =~= Seq::<char>::empty());
            }
            push_text(&mut a, AttrName::Href, "");
        },
    }
    let mut label: Vec<Markup> = empty_list();
    push_item(&mut label, text("Log out"));
    let mut children: Vec<Markup> = empty_list();
    push_item(&mut children, element(Tag::A, a, label));
    match logout_url {
        Some(_) => plain(Tag::Li, children),
        None => classed(Tag::Li, "menu-disabled", children),
    }
}

/// An entry of the menu that leads to a page. An entry that is switched
/// off is greyed out.
pub open spec fn menu_entry_view(path: Seq<char>, name: Seq<char>, enabled: bool) -> MarkupView {
    let link = element_view(Tag::A, seq![text_attr(AttrName::Href, path)], seq![text_view(name)]);
    if enabled {
        plain_view(Tag::Li, seq![link])
    } else {
        classed_view(Tag::Li, "menu-disabled"@, seq![link])
    }
}

/// The entries of the menu. A user who is signed in can verify the
/// account, change its settings and sign out; signing in, signing up and
/// recovery are switched off. For a user who is not signed in it is the
/// other way round, but for verification, which is open to both.
pub open spec fn nav_links_view(active: bool, logout_url: Option<Seq<char>>) -> Seq<MarkupView> {
    Seq::empty().push(menu_entry_view("/sign-in"@, "Sign In"@, !active)).push(
        menu_entry_view("/sign-up"@, "Sign Up"@, !active),
    ).push(menu_entry_view("/account-recovery"@, "Account Recovery"@, !active)).push(
        menu_entry_view("/verify"@, "Account Verification"@, true),
    ).push(menu_entry_view("/my-settings"@, "Account Settings"@, active)).push(
        log_out_view(
            if active {
                logout_url
            } else {
                None
            },
        ),
    )
}

fn menu_entry(path: &str, name: &str, enabled: bool) -> (m: Markup)
    ensures
        m@ == menu_entry_view(path@, name@, enabled),
{
    let mut a: Vec<Attr> = empty_list();
    push_text(&mut a, AttrName::Href, path);
    let mut label: Vec<Markup> = empty_list();
    push_item(&mut label, text(name));
    let mut children: Vec<Markup> = empty_list();
    push_item(&mut children, element(Tag::A, a, label));
    if enabled {
        plain(Tag::Li, children)
    } else {
        classed(Tag::Li, "menu-disabled", children)
    }
}

/// Renders the entries of the menu for a user who is signed in, or for one
/// who is not. `logout_url` is where the service signs the user out, where
/// that is known.
pub fn nav_links(active: bool, logout_url: &Option<String>) -> (list: Vec<Markup>)
    ensures
        list.deep_view() == nav_links_view(active, logout_url.deep_view()),
{
    let mut list: Vec<Markup> = empty_list();
    push_item(&mut list, menu_entry("/sign-in", "Sign In", !active));
    push_item(&mut list, menu_entry("/sign-up", "Sign Up", !active));
    push_item(&mut list, menu_entry("/account-recovery", "Account Recovery", !active));
    push_item(&mut list, menu_entry("/verify", "Account Verification", true));
    push_item(&mut list, menu_entry("/my-settings", "Account Settings", active));
    if active {
        push_item(&mut list, OryLogOut(logout_url));
    } else {
        push_item(&mut list, OryLogOut(&None));
    }
    list
}

} // verus!
