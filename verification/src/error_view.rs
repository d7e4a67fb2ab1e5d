//! What the user sees when the identity service refuses a request.

use crate::markup::{
    element, element_view, empty_list, push_item, push_text, text, text_attr, text_view, Attr,
    AttrName, Markup, MarkupView, Tag,
};
use vstd::prelude::*;

verus! {

/// An error as the identity service describes it.
#[derive(Debug, PartialEq, Eq)]
pub struct GenericError {
    pub message: String,
    pub reason: Option<String>,
}

/// The mathematical value of a [`GenericError`].
pub struct GenericErrorView {
    pub message: Seq<char>,
    pub reason: Option<Seq<char>>,
}

impl View for GenericError {
    type V = GenericErrorView;

    open spec fn view(&self) -> GenericErrorView {
        GenericErrorView { message: self.message@, reason: self.reason.deep_view() }
    }
}

/// What the body of a refusal was read as.
#[derive(Debug, PartialEq, Eq)]
pub enum ErrorEntity {
    /// An error in the shape that the service documents.
    Generic(GenericError),
    /// Anything else. It holds the text of the body where the body is a
    /// plain text.
    Unknown(Option<String>),
}

/// The mathematical value of an [`ErrorEntity`].
pub enum ErrorEntityView {
    Generic(GenericErrorView),
    Unknown(Option<Seq<char>>),
}

impl View for ErrorEntity {
    type V = ErrorEntityView;

    open spec fn view(&self) -> ErrorEntityView {
        match self {
            ErrorEntity::Generic(e) => ErrorEntityView::Generic(e@),
            ErrorEntity::Unknown(t) => ErrorEntityView::Unknown(t.deep_view()),
        }
    }
}

impl DeepView for ErrorEntity {
    type V = ErrorEntityView;

    open spec fn deep_view(&self) -> ErrorEntityView {
        self@
    }
}

/// A refusal of the identity service: the body as it came, and what it was
/// read as, where it could be read.
#[derive(Debug, PartialEq, Eq)]
pub struct ResponseContent {
    pub content: String,
    pub entity: Option<ErrorEntity>,
}

/// The mathematical value of a [`ResponseContent`].
pub struct ResponseContentView {
    pub content: Seq<char>,
    pub entity: Option<ErrorEntityView>,
}

impl View for ResponseContent {
    type V = ResponseContentView;

    open spec fn view(&self) -> ResponseContentView {
        ResponseContentView { content: self.content@, entity: self.entity.deep_view() }
    }
}

/// One text where there is a text, and nothing otherwise.
pub open spec fn opt_text_view(t: Option<Seq<char>>) -> Seq<MarkupView> {
    match t {
        Some(s) => seq![text_view(s)],
        None => Seq::empty(),
    }
}

/// A paragraph in light type that holds the text, where there is one.
pub open spec fn detail_view(t: Option<Seq<char>>) -> MarkupView {
    element_view(
        Tag::P,
        seq![text_attr(AttrName::Class, "font-light m-8"@)],
        opt_text_view(t),
    )
}

/// The link that leads back to the start page.
pub open spec fn home_link_view() -> MarkupView {
    element_view(
        Tag::A,
        Seq::empty().push(text_attr(AttrName::Href, "/"@)).push(
            text_attr(AttrName::Class, "btn btn-primary my-8"@),
        ),
        seq![text_view("Go Home"@)],
    )
}

/// The box in the middle of the page that holds an error.
pub open spec fn error_box_view(children: Seq<MarkupView>) -> MarkupView {
    element_view(
        Tag::Div,
        seq![text_attr(AttrName::Class, "text-center max-h-screen max-w-none"@)],
        children,
    )
}

/// What the user sees of a documented error: its message as a heading, its
/// reason, and the way home.
pub open spec fn generic_error_view(e: GenericErrorView) -> MarkupView {
    error_box_view(
        Seq::empty().push(
            element_view(
                Tag::H1,
                seq![text_attr(AttrName::Class, "text-2xl my-8"@)],
                seq![text_view(e.message)],
            ),
        ).push(detail_view(e.reason)).push(home_link_view()),
    )
}

/// What the user sees of any other error: its text, and the way home.
pub open spec fn unknown_error_view(t: Option<Seq<char>>) -> MarkupView {
    error_box_view(Seq::empty().push(detail_view(t)).push(home_link_view()))
}

/// What the user sees of a refusal: the error that the body was read as,
/// or the body as it came where it could not be read.
pub open spec fn response_view(r: ResponseContentView) -> MarkupView {
    match r.entity {
        Some(ErrorEntityView::Generic(e)) => generic_error_view(e),
        Some(ErrorEntityView::Unknown(t)) => unknown_error_view(t),
        None => element_view(Tag::P, Seq::empty(), seq![text_view(r.content)]),
    }
}

fn opt_text(t: &Option<String>) -> (list: Vec<Markup>)
    ensures
        list.deep_view() == opt_text_view(t.deep_view()),
{
    let mut list: Vec<Markup> = empty_list();
    match t {
        Some(s) => push_item(&mut list, text(s.as_str())),
        None => {},
    }
    list
}

fn detail(t: &Option<String>) -> (m: Markup)
    ensures
        m@ == detail_view(t.deep_view()),
{
    let mut a: Vec<Attr> = empty_list();
    push_text(&mut a, AttrName::Class, "font-light m-8");
    element(Tag::P, a, opt_text(t))
}

fn home_link() -> (m: Markup)
    ensures
        m@ == home_link_view(),
{
    let mut a: Vec<Attr> = empty_list();
    push_text(&mut a, AttrName::Href, "/");
    push_text(&mut a, AttrName::Class, "btn btn-primary my-8");
    let mut children: Vec<Markup> = empty_list();
    push_item(&mut children, text("Go Home"));
    element(Tag::A, a, children)
}

fn error_box(children: Vec<Markup>) -> (m: Markup)
    ensures
        m@ == error_box_view(children.deep_view()),
{
    let mut a: Vec<Attr> = empty_list();
    push_text(&mut a, AttrName::Class, "text-center max-h-screen max-w-none");
    element(Tag::Div, a, children)
}

/// Renders a documented error.
pub fn error_content_rsx(e: &GenericError) -> (m: Markup)
    ensures
        m@ == generic_error_view(e@),
{
    let mut heading_attrs: Vec<Attr> = empty_list();
    push_text(&mut heading_attrs, AttrName::Class, "text-2xl my-8");
    let mut heading: Vec<Markup> = empty_list();
    push_item(&mut heading, text(e.message.as_str()));
    let mut children: Vec<Markup> = empty_list();
    push_item(&mut children, element(Tag::H1, heading_attrs, heading));
    push_item(&mut children, detail(&e.reason));
    push_item(&mut children, home_link());
    error_box(children)
}

/// Renders an error of no documented shape.
pub fn error_content_js(t: &Option<String>) -> (m: Markup)
    ensures
        m@ == unknown_error_view(t.deep_view()),
{
    let mut children: Vec<Markup> = empty_list();
    push_item(&mut children, detail(t));
    push_item(&mut children, home_link());
    error_box(children)
}

/// What can show itself to the user as an error.
pub trait DisplayError: Sized {
    /// What the user sees.
    spec fn error_view(&self) -> MarkupView;

    /// Renders what the user sees.
    fn view_response_content(self) -> (m: Markup)
        ensures
            m@ == self.error_view(),
    ;
}

impl DisplayError for ResponseContent {
    open spec fn error_view(&self) -> MarkupView {
        response_view(self@)
    }

    fn view_response_content(self) -> (m: Markup) {
        match &self.entity {
            Some(ErrorEntity::Generic(e)) => error_content_rsx(e),
            Some(ErrorEntity::Unknown(t)) => error_content_js(t),
            None => {
                let mut children: Vec<Markup> = empty_list();
                push_item(&mut children, text(self.content.as_str()));
                element(Tag::P, empty_list(), children)
            },
        }
    }
}

} // verus!
