//! The dynamically typed value of an input field, and the rules that turn
//! it into what a control displays.

use crate::text::{decimal, push_i64, push_u64};
use vstd::prelude::*;

verus! {

/// A number as a flow schema carries it.
#[derive(Debug, PartialEq, Eq)]
pub enum Number {
    /// A non-negative integer.
    Unsigned(u64),
    /// An integer, kept signed because it may be negative.
    Signed(i64),
    /// Any other number, as the decimal text that stands for it.
    Real(String),
}

/// The mathematical value of a [`Number`].
pub enum NumberView {
    Integer(int),
    Real(Seq<char>),
}

impl View for Number {
    type V = NumberView;

    open spec fn view(&self) -> NumberView {
        match self {
            Number::Unsigned(n) => NumberView::Integer(*n as int),
            Number::Signed(n) => NumberView::Integer(*n as int),
            Number::Real(s) => NumberView::Real(s@),
        }
    }
}

impl DeepView for Number {
    type V = NumberView;

    open spec fn deep_view(&self) -> NumberView {
        self@
    }
}

/// The value of an input field: a scalar, a list, or something that no
/// control displays.
#[derive(Debug, PartialEq, Eq)]
pub enum Value {
    Null,
    Bool(bool),
    Number(Number),
    String(String),
    Array(Vec<Value>),
    /// A keyed collection. No control reads its members.
    Object,
}

/// The mathematical value of a [`Value`].
pub enum ValueView {
    Null,
    Bool(bool),
    Number(NumberView),
    String(Seq<char>),
    Array(Seq<ValueView>),
    Object,
}

impl Value {
    /// The value that this stands for.
    pub open spec fn model(self) -> ValueView
        decreases self,
    {
        match self {
            Value::Null => ValueView::Null,
            Value::Bool(b) => ValueView::Bool(b),
            Value::Number(n) => ValueView::Number(n@),
            Value::String(s) => ValueView::String(s@),
            Value::Array(items) => ValueView::Array(
                Seq::new(
                    items@.len(),
                    |i: int|
                        if 0 <= i < items@.len() {
                            items@[i].model()
                        } else {
                            arbitrary()
                        },
                ),
            ),
            Value::Object => ValueView::Object,
        }
    }
}

impl View for Value {
    type V = ValueView;

    open spec fn view(&self) -> ValueView {
        self.model()
    }
}

impl DeepView for Value {
    type V = ValueView;

    open spec fn deep_view(&self) -> ValueView {
        self.model()
    }
}

/// The view of a list value holds the views of its items.
pub proof fn lemma_array_view(v: Value)
    requires
        v is Array,
    ensures
        v@ == ValueView::Array(v->Array_0.deep_view()),
{
    assert(v@->Array_0 =~= v->Array_0.deep_view());
}

/// The text of a number: the decimal text of an integer, and the text of
/// any other number as it stands.
pub open spec fn number_text(n: NumberView) -> Seq<char> {
    match n {
        NumberView::Integer(i) => decimal(i),
        NumberView::Real(s) => s,
    }
}

/// The text of a truth value.
pub open spec fn bool_text(b: bool) -> Seq<char> {
    if b {
        "true"@
    } else {
        "false"@
    }
}

/// What a text control shows for a value: the text of a string, and nothing
/// for any other value or for none.
pub open spec fn string_or_empty(value: Option<ValueView>) -> Seq<char> {
    match value {
        Some(ValueView::String(s)) => s,
        _ => Seq::empty(),
    }
}

/// Whether a checkbox is ticked: only the truth value `true` ticks it.
pub open spec fn is_checked(value: Option<ValueView>) -> bool {
    value == Some(ValueView::Bool(true))
}

/// The string in its quoted, escaped form, as the formatting machinery of
/// the standard library prints a string for debugging.
pub uninterp spec fn quoted(s: Seq<char>) -> Seq<char>;

/// The text of one item of a list: a string is quoted, a number and a truth
/// value show their text, a nested list shows as a list, nothing shows as
/// `null` and a keyed collection as `{}`.
pub open spec fn item_text(v: ValueView) -> Seq<char>
    decreases v, 0nat,
{
    match v {
        ValueView::Null => "null"@,
        ValueView::Bool(b) => bool_text(b),
        ValueView::Number(n) => number_text(n),
        ValueView::String(s) => quoted(s),
        ValueView::Array(items) => list_text(items),
        ValueView::Object => "{}"@,
    }
}

/// The texts of the items, with `", "` between neighbours.
pub open spec fn joined_items(items: Seq<ValueView>) -> Seq<char>
    decreases items, 1nat,
{
    if items.len() == 0 {
        Seq::empty()
    } else if items.len() == 1 {
        item_text(items[0])
    } else {
        joined_items(items.drop_last()) + ", "@ + item_text(items.last())
    }
}

/// The text of a list: its items between square brackets.
pub open spec fn list_text(items: Seq<ValueView>) -> Seq<char>
    decreases items, 2nat,
{
    "["@ + joined_items(items) + "]"@
}

/// What any other control shows for a value.
pub open spec fn scalar_text(value: Option<ValueView>) -> Seq<char> {
    match value {
        Some(ValueView::String(s)) => s,
        Some(ValueView::Number(n)) => number_text(n),
        Some(ValueView::Bool(b)) => bool_text(b),
        Some(ValueView::Array(items)) => list_text(items),
        _ => Seq::empty(),
    }
}

/// Quotes a string as `format!` with `{:?}` does. The contract names the
/// result and claims nothing else of it.
#[verifier::external_body]
fn quote(s: &str) -> (r: String)
    ensures
        r@ == quoted(s@),
{
    format!("{:?}", s)
}

fn push_number(out: &mut String, n: &Number)
    ensures
        final(out)@ == old(out)@ + number_text(n@),
{
    match n {
        Number::Unsigned(u) => push_u64(out, *u),
        Number::Signed(i) => push_i64(out, *i),
        Number::Real(s) => out.append(s.as_str()),
    }
}

fn push_bool(out: &mut String, b: bool)
    ensures
        final(out)@ == old(out)@ + bool_text(b),
{
    if b {
        out.append("true");
    } else {
        out.append("false");
    }
}

fn push_item(out: &mut String, v: &Value)
    ensures
        final(out)@ == old(out)@ + item_text(v@),
    decreases v, 0nat,
{
    match v {
        Value::Null => out.append("null"),
        Value::Bool(b) => push_bool(out, *b),
        Value::Number(n) => push_number(out, n),
        Value::String(s) => {
            let q = quote(s.as_str());
            out.append(q.as_str());
        },
        Value::Array(items) => {
            proof {
                lemma_array_view(*v);
            }
            push_list(out, items);
        },
        Value::Object => out.append("{}"),
    }
}

fn push_list(out: &mut String, items: &Vec<Value>)
    ensures
        final(out)@ == old(out)@ + list_text(items.deep_view()),
    decreases items, 1nat,
{
    out.append("[");
    let ghost opened = out@;
    let mut i: usize = 0;
    while i < items.len()
        invariant
            i <= items.len(),
            out@ == opened + joined_items(items.deep_view().take(i as int)),
        decreases items.len() - i,
    {
        if i > 0 {
            out.append(", ");
        }
        push_item(out, &items[i]);
        proof {
            let upto = items.deep_view().take(i as int + 1);
            assert(upto.drop_last() =~= items.deep_view().take(i as int));
            assert(upto.last() == items[i as int]@);
            assert(out@ =~= opened + joined_items(upto));
        }
        i = i + 1;
    }
    out.append("]");
    proof {
        assert(items.deep_view().take(i as int) =~= items.deep_view());
        assert(out@ =~= old(out)@ + list_text(items.deep_view()));
    }
}

/// What a text control shows for a value.
pub fn plain_text(value: &Option<Value>) -> (r: String)
    ensures
        r@ == string_or_empty(value.deep_view()),
{
    match value {
        Some(Value::String(s)) => s.clone(),
        _ => String::new(),
    }
}

/// Whether a checkbox with this value is ticked.
pub fn checked(value: &Option<Value>) -> (r: bool)
    ensures
        r == is_checked(value.deep_view()),
{
    match value {
        Some(Value::Bool(b)) => *b,
        _ => false,
    }
}

/// What any other control shows for a value.
pub fn display_text(value: &Option<Value>) -> (r: String)
    ensures
        r@ == scalar_text(value.deep_view()),
{
    let mut out = String::new();
    match value {
        Some(Value::String(s)) => out.append(s.as_str()),
        Some(Value::Number(n)) => push_number(&mut out, n),
        Some(Value::Bool(b)) => push_bool(&mut out, *b),
        Some(Value::Array(items)) => {
            proof {
                lemma_array_view(value->0);
            }
            push_list(&mut out, items);
        },
        _ => {},
    }
    assert(out@ =~= scalar_text(value.deep_view()));
    out
}

} // verus!
