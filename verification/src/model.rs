//! The nodes of a flow's user interface, as the identity service describes
//! them.

use crate::value::{Value, ValueView};
use vstd::prelude::*;

verus! {

/// How serious a text is.
#[derive(Clone, Copy, Debug, PartialEq, Eq, Structural)]
pub enum TextKind {
    Info,
    Error,
    Success,
}

/// A text of the flow: the label of a node, or a message to the user.
#[derive(Debug, PartialEq, Eq)]
pub struct UiText {
    pub id: String,
    pub text: String,
    pub kind: TextKind,
}

/// The mathematical value of a [`UiText`].
pub struct UiTextView {
    pub id: Seq<char>,
    pub text: Seq<char>,
    pub kind: TextKind,
}

impl View for UiText {
    type V = UiTextView;

    open spec fn view(&self) -> UiTextView {
        UiTextView { id: self.id@, text: self.text@, kind: self.kind }
    }
}

impl DeepView for UiText {
    type V = UiTextView;

    open spec fn deep_view(&self) -> UiTextView {
        self@
    }
}

/// The method that a node belongs to. Nodes of the `Default` group are
/// common to all methods.
#[derive(Clone, Copy, Debug, PartialEq, Eq, Structural)]
pub enum NodeGroup {
    Default,
    Password,
    Oidc,
    Profile,
    Link,
    Code,
    Totp,
    LookupSecret,
    Webauthn,
    Passkey,
    IdentifierFirst,
    Captcha,
    Saml,
}

/// The kind of control that an input node asks for.
#[derive(Clone, Copy, Debug, PartialEq, Eq, Structural)]
pub enum InputType {
    Text,
    Password,
    Number,
    Checkbox,
    Hidden,
    Email,
    Tel,
    Submit,
    Button,
    DatetimeLocal,
    Date,
    Url,
}

/// What a browser may fill into an input.
#[derive(Clone, Copy, Debug, PartialEq, Eq, Structural)]
pub enum Autocomplete {
    Email,
    Tel,
    Url,
    CurrentPassword,
    NewPassword,
    OneTimeCode,
    UsernameWebauthn,
}

/// The attributes of an input node.
#[derive(Debug, PartialEq, Eq)]
pub struct InputAttributes {
    pub name: String,
    pub input_type: InputType,
    pub required: Option<bool>,
    pub disabled: bool,
    pub autocomplete: Option<Autocomplete>,
    pub value: Option<Value>,
    pub pattern: Option<String>,
}

/// The mathematical value of an [`InputAttributes`].
pub struct InputAttributesView {
    pub name: Seq<char>,
    pub input_type: InputType,
    pub required: Option<bool>,
    pub disabled: bool,
    pub autocomplete: Option<Autocomplete>,
    pub value: Option<ValueView>,
    pub pattern: Option<Seq<char>>,
}

impl View for InputAttributes {
    type V = InputAttributesView;

    open spec fn view(&self) -> InputAttributesView {
        InputAttributesView {
            name: self.name@,
            input_type: self.input_type,
            required: self.required,
            disabled: self.disabled,
            autocomplete: self.autocomplete,
            value: self.value.deep_view(),
            pattern: self.pattern.deep_view(),
        }
    }
}

/// The attributes of an image node.
#[derive(Debug, PartialEq, Eq)]
pub struct ImageAttributes {
    pub id: String,
    pub src: String,
    pub width: i64,
    pub height: i64,
}

/// The mathematical value of an [`ImageAttributes`].
pub struct ImageAttributesView {
    pub id: Seq<char>,
    pub src: Seq<char>,
    pub width: int,
    pub height: int,
}

impl View for ImageAttributes {
    type V = ImageAttributesView;

    open spec fn view(&self) -> ImageAttributesView {
        ImageAttributesView {
            id: self.id@,
            src: self.src@,
            width: self.width as int,
            height: self.height as int,
        }
    }
}

/// The attributes of a text node.
#[derive(Debug, PartialEq, Eq)]
pub struct TextAttributes {
    pub id: String,
    pub text: UiText,
}

/// The mathematical value of a [`TextAttributes`].
pub struct TextAttributesView {
    pub id: Seq<char>,
    pub text: UiTextView,
}

impl View for TextAttributes {
    type V = TextAttributesView;

    open spec fn view(&self) -> TextAttributesView {
        TextAttributesView { id: self.id@, text: self.text@ }
    }
}

/// The attributes of a link node.
#[derive(Debug, PartialEq, Eq)]
pub struct AnchorAttributes {
    pub id: String,
    pub href: String,
    pub title: UiText,
}

/// The mathematical value of an [`AnchorAttributes`].
pub struct AnchorAttributesView {
    pub id: Seq<char>,
    pub href: Seq<char>,
    pub title: UiTextView,
}

impl View for AnchorAttributes {
    type V = AnchorAttributesView;

    open spec fn view(&self) -> AnchorAttributesView {
        AnchorAttributesView { id: self.id@, href: self.href@, title: self.title@ }
    }
}

/// The attributes of a script node.
#[derive(Debug, PartialEq, Eq)]
pub struct ScriptAttributes {
    pub id: String,
    pub src: String,
    pub script_type: String,
    pub is_async: Option<bool>,
    pub crossorigin: Option<String>,
    pub integrity: Option<String>,
    pub nonce: Option<String>,
    pub referrerpolicy: Option<String>,
}

/// The mathematical value of a [`ScriptAttributes`].
pub struct ScriptAttributesView {
    pub id: Seq<char>,
    pub src: Seq<char>,
    pub script_type: Seq<char>,
    pub is_async: Option<bool>,
    pub crossorigin: Option<Seq<char>>,
    pub integrity: Option<Seq<char>>,
    pub nonce: Option<Seq<char>>,
    pub referrerpolicy: Option<Seq<char>>,
}

impl View for ScriptAttributes {
    type V = ScriptAttributesView;

    open spec fn view(&self) -> ScriptAttributesView {
        ScriptAttributesView {
            id: self.id@,
            src: self.src@,
            script_type: self.script_type@,
            is_async: self.is_async,
            crossorigin: self.crossorigin.deep_view(),
            integrity: self.integrity.deep_view(),
            nonce: self.nonce.deep_view(),
            referrerpolicy: self.referrerpolicy.deep_view(),
        }
    }
}

/// What a node is: exactly one of these shapes.
#[derive(Debug, PartialEq, Eq)]
pub enum NodeAttributes {
    Input(InputAttributes),
    Image(ImageAttributes),
    Text(TextAttributes),
    Anchor(AnchorAttributes),
    Script(ScriptAttributes),
}

/// The mathematical value of a [`NodeAttributes`].
pub enum NodeAttributesView {
    Input(InputAttributesView),
    Image(ImageAttributesView),
    Text(TextAttributesView),
    Anchor(AnchorAttributesView),
    Script(ScriptAttributesView),
}

impl View for NodeAttributes {
    type V = NodeAttributesView;

    open spec fn view(&self) -> NodeAttributesView {
        match self {
            NodeAttributes::Input(a) => NodeAttributesView::Input(a@),
            NodeAttributes::Image(a) => NodeAttributesView::Image(a@),
            NodeAttributes::Text(a) => NodeAttributesView::Text(a@),
            NodeAttributes::Anchor(a) => NodeAttributesView::Anchor(a@),
            NodeAttributes::Script(a) => NodeAttributesView::Script(a@),
        }
    }
}

/// One node of a flow's user interface.
#[derive(Debug, PartialEq, Eq)]
pub struct UiNode {
    pub group: NodeGroup,
    /// The label of the node, where the schema gives one.
    pub meta: Option<UiText>,
    pub attributes: NodeAttributes,
}

/// The mathematical value of a [`UiNode`].
pub struct UiNodeView {
    pub group: NodeGroup,
    pub meta: Option<UiTextView>,
    pub attributes: NodeAttributesView,
}

impl View for UiNode {
    type V = UiNodeView;

    open spec fn view(&self) -> UiNodeView {
        UiNodeView {
            group: self.group,
            meta: self.meta.deep_view(),
            attributes: self.attributes@,
        }
    }
}

impl DeepView for UiNode {
    type V = UiNodeView;

    open spec fn deep_view(&self) -> UiNodeView {
        self@
    }
}

/// The user interface of one step of a flow.
#[derive(Debug, PartialEq, Eq)]
pub struct UiContainer {
    pub action: String,
    pub method: String,
    pub nodes: Vec<UiNode>,
    pub messages: Option<Vec<UiText>>,
}

/// The mathematical value of a [`UiContainer`].
pub struct UiContainerView {
    pub action: Seq<char>,
    pub method: Seq<char>,
    pub nodes: Seq<UiNodeView>,
    pub messages: Option<Seq<UiTextView>>,
}

impl View for UiContainer {
    type V = UiContainerView;

    open spec fn view(&self) -> UiContainerView {
        UiContainerView {
            action: self.action@,
            method: self.method@,
            nodes: self.nodes.deep_view(),
            messages: self.messages.deep_view(),
        }
    }
}

/// The name of an input type, as a label of last resort shows it.
pub open spec fn type_label(t: InputType) -> Seq<char> {
    match t {
        InputType::Text => "Text"@,
        InputType::Password => "Password"@,
        InputType::Number => "Number"@,
        InputType::Checkbox => "Checkbox"@,
        InputType::Hidden => "Hidden"@,
        InputType::Email => "Email"@,
        InputType::Tel => "Tel"@,
        InputType::Submit => "Submit"@,
        InputType::Button => "Button"@,
        InputType::DatetimeLocal => "DatetimeLocal"@,
        InputType::Date => "Date"@,
        InputType::Url => "Url"@,
    }
}

/// The name of an input type in lower case, as the `type` attribute holds
/// it.
pub open spec fn type_keyword(t: InputType) -> Seq<char> {
    match t {
        InputType::Text => "text"@,
        InputType::Password => "password"@,
        InputType::Number => "number"@,
        InputType::Checkbox => "checkbox"@,
        InputType::Hidden => "hidden"@,
        InputType::Email => "email"@,
        InputType::Tel => "tel"@,
        InputType::Submit => "submit"@,
        InputType::Button => "button"@,
        InputType::DatetimeLocal => "datetimelocal"@,
        InputType::Date => "date"@,
        InputType::Url => "url"@,
    }
}

/// The name of an autocomplete hint in lower case, as the `autocomplete`
/// attribute holds it.
pub open spec fn autocomplete_keyword(a: Autocomplete) -> Seq<char> {
    match a {
        Autocomplete::Email => "email"@,
        Autocomplete::Tel => "tel"@,
        Autocomplete::Url => "url"@,
        Autocomplete::CurrentPassword => "currentpassword"@,
        Autocomplete::NewPassword => "newpassword"@,
        Autocomplete::OneTimeCode => "onetimecode"@,
        Autocomplete::UsernameWebauthn => "usernamewebauthn"@,
    }
}

/// The heading of a group's form. A group without a heading of its own has
/// the empty one.
pub open spec fn group_legend(g: NodeGroup) -> Seq<char> {
    match g {
        NodeGroup::Password => "Password"@,
        NodeGroup::Oidc => "OIDC"@,
        NodeGroup::Profile => "Profile"@,
        NodeGroup::Code => "Code"@,
        NodeGroup::Totp => "TOTP"@,
        NodeGroup::LookupSecret => "Recovery"@,
        NodeGroup::Webauthn => "Web Authentication"@,
        NodeGroup::Passkey => "Passkey"@,
        NodeGroup::Captcha => "Captcha"@,
        NodeGroup::Saml => "SAML"@,
        NodeGroup::Default | NodeGroup::Link | NodeGroup::IdentifierFirst => ""@,
    }
}

impl InputType {
    /// The name of this type.
    pub fn name(self) -> (s: &'static str)
        ensures
            s@ == type_label(self),
    {
        match self {
            InputType::Text => "Text",
            InputType::Password => "Password",
            InputType::Number => "Number",
            InputType::Checkbox => "Checkbox",
            InputType::Hidden => "Hidden",
            InputType::Email => "Email",
            InputType::Tel => "Tel",
            InputType::Submit => "Submit",
            InputType::Button => "Button",
            InputType::DatetimeLocal => "DatetimeLocal",
            InputType::Date => "Date",
            InputType::Url => "Url",
        }
    }

    /// The name of this type in lower case.
    pub fn keyword(self) -> (s: &'static str)
        ensures
            s@ == type_keyword(self),
    {
        match self {
            InputType::Text => "text",
            InputType::Password => "password",
            InputType::Number => "number",
            InputType::Checkbox => "checkbox",
            InputType::Hidden => "hidden",
            InputType::Email => "email",
            InputType::Tel => "tel",
            InputType::Submit => "submit",
            InputType::Button => "button",
            InputType::DatetimeLocal => "datetimelocal",
            InputType::Date => "date",
            InputType::Url => "url",
        }
    }
}

impl Autocomplete {
    /// The name of this hint in lower case.
    pub fn keyword(self) -> (s: &'static str)
        ensures
            s@ == autocomplete_keyword(self),
    {
        match self {
            Autocomplete::Email => "email",
            Autocomplete::Tel => "tel",
            Autocomplete::Url => "url",
            Autocomplete::CurrentPassword => "currentpassword",
            Autocomplete::NewPassword => "newpassword",
            Autocomplete::OneTimeCode => "onetimecode",
            Autocomplete::UsernameWebauthn => "usernamewebauthn",
        }
    }
}

impl NodeGroup {
    /// The heading of this group's form.
    pub fn legend(self) -> (s: &'static str)
        ensures
            s@ == group_legend(self),
    {
        match self {
            NodeGroup::Password => "Password",
            NodeGroup::Oidc => "OIDC",
            NodeGroup::Profile => "Profile",
            NodeGroup::Code => "Code",
            NodeGroup::Totp => "TOTP",
            NodeGroup::LookupSecret => "Recovery",
            NodeGroup::Webauthn => "Web Authentication",
            NodeGroup::Passkey => "Passkey",
            NodeGroup::Captcha => "Captcha",
            NodeGroup::Saml => "SAML",
            NodeGroup::Default | NodeGroup::Link | NodeGroup::IdentifierFirst => "",
        }
    }
}

} // verus!
