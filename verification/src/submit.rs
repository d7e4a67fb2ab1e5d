//! The submission of a sign-in form by the page itself: what is rendered,
//! and what is sent to the identity service when the user submits.

use crate::assemble::{form_view, messages_view};
use crate::dispatch::{node_builder, nodes_view};
use crate::markup::{push_item, Markup, MarkupView};
use crate::model::{UiContainer, UiContainerView};
use vstd::prelude::*;

verus! {

/// How a form reaches the identity service.
#[derive(Clone, Copy, Debug, PartialEq, Eq, Structural)]
pub enum Transport {
    /// The browser sends the form and follows where the service leads.
    PlainPost,
    /// The page holds the submission back and sends it itself.
    Async,
}

/// One field of a form, as the user has filled it in.
#[derive(Debug, PartialEq, Eq)]
pub struct FormField {
    pub name: String,
    pub value: String,
}

/// The mathematical value of a [`FormField`].
pub struct FormFieldView {
    pub name: Seq<char>,
    pub value: Seq<char>,
}

impl View for FormField {
    type V = FormFieldView;

    open spec fn view(&self) -> FormFieldView {
        FormFieldView { name: self.name@, value: self.value@ }
    }
}

impl DeepView for FormField {
    type V = FormFieldView;

    open spec fn deep_view(&self) -> FormFieldView {
        self@
    }
}

/// What the password method sends to sign in.
#[derive(Debug, PartialEq, Eq)]
pub struct PasswordLogin {
    pub csrf_token: Option<String>,
    pub identifier: String,
    pub password: String,
}

/// The mathematical value of a [`PasswordLogin`].
pub struct PasswordLoginView {
    pub csrf_token: Option<Seq<char>>,
    pub identifier: Seq<char>,
    pub password: Seq<char>,
}

impl View for PasswordLogin {
    type V = PasswordLoginView;

    open spec fn view(&self) -> PasswordLoginView {
        PasswordLoginView {
            csrf_token: self.csrf_token.deep_view(),
            identifier: self.identifier@,
            password: self.password@,
        }
    }
}

/// What is sent to the identity service to sign in, by method.
#[derive(Debug, PartialEq, Eq)]
pub enum UpdateLoginFlowBody {
    Password(PasswordLogin),
    Oidc,
    Saml,
    Totp,
    Webauthn,
    LookupSecret,
    Code,
    Passkey,
    IdentifierFirst,
}

/// The mathematical value of an [`UpdateLoginFlowBody`].
pub enum UpdateLoginFlowBodyView {
    Password(PasswordLoginView),
    Oidc,
    Saml,
    Totp,
    Webauthn,
    LookupSecret,
    Code,
    Passkey,
    IdentifierFirst,
}

impl View for UpdateLoginFlowBody {
    type V = UpdateLoginFlowBodyView;

    open spec fn view(&self) -> UpdateLoginFlowBodyView {
        match self {
            UpdateLoginFlowBody::Password(p) => UpdateLoginFlowBodyView::Password(p@),
            UpdateLoginFlowBody::Oidc => UpdateLoginFlowBodyView::Oidc,
            UpdateLoginFlowBody::Saml => UpdateLoginFlowBodyView::Saml,
            UpdateLoginFlowBody::Totp => UpdateLoginFlowBodyView::Totp,
            UpdateLoginFlowBody::Webauthn => UpdateLoginFlowBodyView::Webauthn,
            UpdateLoginFlowBody::LookupSecret => UpdateLoginFlowBodyView::LookupSecret,
            UpdateLoginFlowBody::Code => UpdateLoginFlowBodyView::Code,
            UpdateLoginFlowBody::Passkey => UpdateLoginFlowBodyView::Passkey,
            UpdateLoginFlowBody::IdentifierFirst => UpdateLoginFlowBodyView::IdentifierFirst,
        }
    }
}

impl DeepView for UpdateLoginFlowBody {
    type V = UpdateLoginFlowBodyView;

    open spec fn deep_view(&self) -> UpdateLoginFlowBodyView {
        self@
    }
}

/// A field that a submission lacks.
#[derive(Clone, Copy, Debug, PartialEq, Eq, Structural)]
pub enum LoginField {
    Identifier,
    Password,
}

/// Why a submission cannot be sent by the page.
#[derive(Clone, Copy, Debug, PartialEq, Eq, Structural)]
pub enum SubmitError {
    /// The form holds no field of that name.
    MissingField(LoginField),
    /// The page sends nothing for this method.
    UnsupportedMethod,
}

/// The value of the first field of that name, if there is such a field.
pub open spec fn field_value(values: Seq<FormFieldView>, name: Seq<char>) -> Option<Seq<char>>
    decreases values.len(),
{
    if values.len() == 0 {
        None
    } else if values[0].name == name {
        Some(values[0].value)
    } else {
        field_value(values.drop_first(), name)
    }
}

/// The value that `field_value` finds is that of a field of the name, and
/// no field before it has the name; it finds none only where no field has
/// the name.
pub proof fn lemma_field_value(values: Seq<FormFieldView>, name: Seq<char>)
    ensures
        match field_value(values, name) {
            Some(v) => exists|i: int|
                0 <= i < values.len() && #[trigger] values[i].name == name && values[i].value == v
                    && forall|j: int| 0 <= j < i ==> (#[trigger] values[j]).name != name,
            None => forall|j: int| 0 <= j < values.len() ==> (#[trigger] values[j]).name != name,
        },
    decreases values.len(),
{
    if values.len() == 0 {
    } else if values[0].name == name {
        assert(values[0].name == name);
    } else {
        let rest = values.drop_first();
        lemma_field_value(rest, name);
        match field_value(rest, name) {
            Some(v) => {
                let i = choose|i: int|
                    0 <= i < rest.len() && #[trigger] rest[i].name == name && rest[i].value == v
                        && forall|j: int| 0 <= j < i ==> (#[trigger] rest[j]).name != name;
                assert(values[i + 1] == rest[i]);
                assert forall|j: int| 0 <= j < i + 1 implies (#[trigger] values[j]).name
                    != name by {
                    if j > 0 {
                        assert(values[j] == rest[j - 1]);
                    }
                }
                assert(values[i + 1].name == name);
            },
            None => {
                assert forall|j: int| 0 <= j < values.len() implies (#[trigger] values[j]).name
                    != name by {
                    if j > 0 {
                        assert(values[j] == rest[j - 1]);
                    }
                }
            },
        }
    }
}

/// Looks up the value of the first field of that name.
pub fn find_field(values: &Vec<FormField>, name: &str) -> (r: Option<String>)
    ensures
        r.deep_view() == field_value(values.deep_view(), name@),
{
    let wanted = name.to_owned();
    let mut i: usize = 0;
    assert(values.deep_view().skip(0) =~= values.deep_view());
    while i < values.len()
        invariant
            i <= values.len(),
            wanted@ == name@,
            field_value(values.deep_view(), name@) == field_value(
                values.deep_view().skip(i as int),
                name@,
            ),
        decreases values.len() - i,
    {
        proof {
            let rest = values.deep_view().skip(i as int);
            assert(rest[0] == values[i as int]@);
            assert(rest.drop_first() =~= values.deep_view().skip(i as int + 1));
        }
        if values[i].name == wanted {
            return Some(values[i].value.clone());
        }
        i = i + 1;
    }
    None
}

/// What the page sends when the user submits: for the password method,
/// what was to be sent with the identifier and the password that the user
/// has entered. The page sends nothing for any other method.
pub open spec fn filled_login(body: UpdateLoginFlowBodyView, values: Seq<FormFieldView>) -> Result<
    UpdateLoginFlowBodyView,
    SubmitError,
> {
    match body {
        UpdateLoginFlowBodyView::Password(p) => match field_value(values, "identifier"@) {
            Some(identifier) => match field_value(values, "password"@) {
                Some(password) => Ok(
                    UpdateLoginFlowBodyView::Password(
                        PasswordLoginView { csrf_token: p.csrf_token, identifier, password },
                    ),
                ),
                None => Err(SubmitError::MissingField(LoginField::Password)),
            },
            None => Err(SubmitError::MissingField(LoginField::Identifier)),
        },
        _ => Err(SubmitError::UnsupportedMethod),
    }
}

/// The view of what `r` holds, on either side.
pub open spec fn result_view(r: Result<UpdateLoginFlowBody, SubmitError>) -> Result<
    UpdateLoginFlowBodyView,
    SubmitError,
> {
    match r {
        Ok(body) => Ok(body@),
        Err(e) => Err(e),
    }
}

impl UpdateLoginFlowBody {
    /// Whether the page sends submissions of this method itself. It does so
    /// for the password method alone.
    pub open spec fn sent_by_page(&self) -> bool {
        self is Password
    }

    /// Fills in what the user has entered.
    pub fn fill(self, values: &Vec<FormField>) -> (r: Result<UpdateLoginFlowBody, SubmitError>)
        ensures
            result_view(r) == filled_login(self@, values.deep_view()),
    {
        match self {
            UpdateLoginFlowBody::Password(p) => {
                match find_field(values, "identifier") {
                    Some(identifier) => match find_field(values, "password") {
                        Some(password) => Ok(
                            UpdateLoginFlowBody::Password(
                                PasswordLogin { csrf_token: p.csrf_token, identifier, password },
                            ),
                        ),
                        None => Err(SubmitError::MissingField(LoginField::Password)),
                    },
                    None => Err(SubmitError::MissingField(LoginField::Identifier)),
                }
            },
            UpdateLoginFlowBody::Oidc => Err(SubmitError::UnsupportedMethod),
            UpdateLoginFlowBody::Saml => Err(SubmitError::UnsupportedMethod),
            UpdateLoginFlowBody::Totp => Err(SubmitError::UnsupportedMethod),
            UpdateLoginFlowBody::Webauthn => Err(SubmitError::UnsupportedMethod),
            UpdateLoginFlowBody::LookupSecret => Err(SubmitError::UnsupportedMethod),
            UpdateLoginFlowBody::Code => Err(SubmitError::UnsupportedMethod),
            UpdateLoginFlowBody::Passkey => Err(SubmitError::UnsupportedMethod),
            UpdateLoginFlowBody::IdentifierFirst => Err(SubmitError::UnsupportedMethod),
        }
    }
}

/// A form of a flow together with what its submission needs.
#[derive(Debug, PartialEq, Eq)]
pub struct AjaxForm {
    pub markup: Vec<Markup>,
    /// The flow that a submission belongs to.
    pub flow: String,
    pub transport: Transport,
}

/// The markup of a flow whose form the page sends itself: the alerts of
/// its messages, and then one form with all nodes in their order.
pub open spec fn ajax_view(ui: UiContainerView) -> Seq<MarkupView> {
    messages_view(ui.messages).push(form_view(ui.action, ui.method, None, nodes_view(ui.nodes)))
}

/// What can build the form of a flow for one way of signing in.
pub trait AjaxFormBuilder: Sized {
    /// How the form that is built reaches the identity service.
    spec fn transport(&self) -> Transport;

    /// Builds the form of the flow `flow` from its user interface.
    fn build_form(self, flow: String, ui: &UiContainer) -> (form: AjaxForm)
        ensures
            form.markup.deep_view() == ajax_view(ui@),
            form.flow@ == flow@,
            form.transport == self.transport(),
    ;
}

impl AjaxFormBuilder for UpdateLoginFlowBody {
    /// The page sends the password method itself. Every other method goes
    /// the plain way.
    open spec fn transport(&self) -> Transport {
        if self.sent_by_page() {
            Transport::Async
        } else {
            Transport::PlainPost
        }
    }

    fn build_form(self, flow: String, ui: &UiContainer) -> (form: AjaxForm) {
        let transport = match self {
            UpdateLoginFlowBody::Password(_) => Transport::Async,
            UpdateLoginFlowBody::Oidc => Transport::PlainPost,
            UpdateLoginFlowBody::Saml => Transport::PlainPost,
            UpdateLoginFlowBody::Totp => Transport::PlainPost,
            UpdateLoginFlowBody::Webauthn => Transport::PlainPost,
            UpdateLoginFlowBody::LookupSecret => Transport::PlainPost,
            UpdateLoginFlowBody::Code => Transport::PlainPost,
            UpdateLoginFlowBody::Passkey => Transport::PlainPost,
            UpdateLoginFlowBody::IdentifierFirst => Transport::PlainPost,
        };
        let mut markup = crate::assemble::render_messages(&ui.messages);
        let body = node_builder(&ui.nodes);
        push_item(
            &mut markup,
            crate::assemble::make_form(ui.action.as_str(), ui.method.as_str(), None, body),
        );
        AjaxForm { markup, flow, transport }
    }
}

} // verus!
