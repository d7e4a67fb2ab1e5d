//! The assembler: it sorts the nodes of a flow by their group and builds
//! one form for each method, each with the nodes that all methods share.

use crate::dispatch::{lemma_nodes_view_single, nodes_view, render_node};
use crate::markup::{
    append_items, element, element_view, empty_list, push_item, push_opt, push_text, text,
    text_attr, text_view, Attr, AttrName, Markup, MarkupView, Tag,
};
use crate::model::{
    group_legend, NodeGroup, UiContainer, UiContainerView, UiNode, UiNodeView, UiText,
    UiTextView,
};
use crate::render::{message_node, message_view};
use vstd::prelude::*;

verus! {

/// Whether a node belongs to every method.
pub open spec fn is_common(node: UiNodeView) -> bool {
    node.group == NodeGroup::Default
}

/// The nodes that all methods share: those of the default group, in their
/// order, wherever in the list they stand.
pub open spec fn common_nodes(nodes: Seq<UiNodeView>) -> Seq<UiNodeView> {
    nodes.filter(|n: UiNodeView| is_common(n))
}

/// The nodes that belong to one method each: all but those of the default
/// group, in their order.
pub open spec fn method_nodes(nodes: Seq<UiNodeView>) -> Seq<UiNodeView> {
    nodes.filter(|n: UiNodeView| !is_common(n))
}

/// The runs of a list of nodes: its longest stretches of neighbours that
/// have the same group, in their order. Two nodes of one group that a node
/// of another group separates stand in different runs.
pub open spec fn runs(nodes: Seq<UiNodeView>) -> Seq<Seq<UiNodeView>>
    decreases nodes.len(),
{
    if nodes.len() == 0 {
        Seq::empty()
    } else {
        let before = runs(nodes.drop_last());
        let node = nodes.last();
        if before.len() > 0 && before.last().last().group == node.group {
            before.drop_last().push(before.last().push(node))
        } else {
            before.push(seq![node])
        }
    }
}

/// The lists of a list of lists, one after the other.
pub open spec fn concat(lists: Seq<Seq<UiNodeView>>) -> Seq<UiNodeView>
    decreases lists.len(),
{
    if lists.len() == 0 {
        Seq::empty()
    } else {
        concat(lists.drop_last()) + lists.last()
    }
}

/// No list of the lists is empty.
pub open spec fn each_nonempty(lists: Seq<Seq<UiNodeView>>) -> bool {
    forall|k: int| 0 <= k < lists.len() ==> (#[trigger] lists[k]).len() > 0
}

/// The nodes of each list have one group.
pub open spec fn each_uniform(lists: Seq<Seq<UiNodeView>>) -> bool {
    forall|k: int, j: int|
        0 <= k < lists.len() && 0 <= j < lists[k].len() ==> (#[trigger] lists[k][j]).group
            == lists[k][0].group
}

/// Neighbouring lists have different groups.
pub open spec fn neighbours_differ(lists: Seq<Seq<UiNodeView>>) -> bool {
    forall|k: int|
        0 <= k && k + 1 < lists.len() ==> lists[k][0].group != (#[trigger] lists[k + 1])[0].group
}

/// What makes a list of lists the runs of a list of nodes: no list is
/// empty, the nodes of a list have one group, neighbouring lists have
/// different groups, and together the lists hold the nodes in their order.
pub open spec fn are_runs_of(lists: Seq<Seq<UiNodeView>>, nodes: Seq<UiNodeView>) -> bool {
    &&& concat(lists) == nodes
    &&& each_nonempty(lists)
    &&& each_uniform(lists)
    &&& neighbours_differ(lists)
}

proof fn lemma_extend_last(before: Seq<Seq<UiNodeView>>, prefix: Seq<UiNodeView>, node: UiNodeView)
    requires
        are_runs_of(before, prefix),
        before.len() > 0,
        before.last().last().group == node.group,
    ensures
        are_runs_of(before.drop_last().push(before.last().push(node)), prefix.push(node)),
{
    let last = before.len() - 1;
    let grown = before[last].push(node);
    let after = before.drop_last().push(grown);
    assert(before[last].len() > 0);
    assert(before[last][before[last].len() - 1].group == before[last][0].group);
    assert(concat(after) =~= prefix.push(node)) by {
        assert(after.drop_last() =~= before.drop_last());
        assert(concat(before) == concat(before.drop_last()) + before.last());
    }
    assert(each_nonempty(after)) by {
        assert forall|k: int| 0 <= k < after.len() implies (#[trigger] after[k]).len() > 0 by {
            if k < last {
                assert(after[k] == before[k]);
            }
        }
    }
    assert(each_uniform(after)) by {
        assert forall|k: int, j: int| 0 <= k < after.len() && 0 <= j < after[k].len() implies (
        #[trigger] after[k][j]).group == after[k][0].group by {
            if k < last {
                assert(after[k] == before[k]);
                assert(before[k][j].group == before[k][0].group);
            } else if j < grown.len() - 1 {
                assert(grown[j] == before[last][j]);
                assert(before[last][j].group == before[last][0].group);
            }
        }
    }
    assert(neighbours_differ(after)) by {
        assert forall|k: int| 0 <= k && k + 1 < after.len() implies after[k][0].group != (
        #[trigger] after[k + 1])[0].group by {
            assert(after[k] == before[k]);
            assert(before[k + 1].len() > 0);
            assert(after[k + 1][0] == before[k + 1][0]);
        }
    }
}

proof fn lemma_start_new(before: Seq<Seq<UiNodeView>>, prefix: Seq<UiNodeView>, node: UiNodeView)
    requires
        are_runs_of(before, prefix),
        before.len() > 0 ==> before.last().last().group != node.group,
    ensures
        are_runs_of(before.push(seq![node]), prefix.push(node)),
{
    let after = before.push(seq![node]);
    assert(concat(after) =~= prefix.push(node)) by {
        assert(after.drop_last() =~= before);
    }
    assert(each_nonempty(after)) by {
        assert forall|k: int| 0 <= k < after.len() implies (#[trigger] after[k]).len() > 0 by {
            if k < before.len() {
                assert(after[k] == before[k]);
            }
        }
    }
    assert(each_uniform(after)) by {
        assert forall|k: int, j: int| 0 <= k < after.len() && 0 <= j < after[k].len() implies (
        #[trigger] after[k][j]).group == after[k][0].group by {
            if k < before.len() {
                assert(after[k] == before[k]);
                assert(before[k][j].group == before[k][0].group);
            }
        }
    }
    assert(neighbours_differ(after)) by {
        assert forall|k: int| 0 <= k && k + 1 < after.len() implies after[k][0].group != (
        #[trigger] after[k + 1])[0].group by {
            assert(after[k] == before[k]);
            if k + 1 < before.len() {
                assert(after[k + 1] == before[k + 1]);
            } else {
                let last = before.len() - 1;
                assert(before[last].len() > 0);
                assert(before[last][before[last].len() - 1].group == before[last][0].group);
            }
        }
    }
}

/// The runs of a list are runs of it.
pub proof fn lemma_runs_are_runs(nodes: Seq<UiNodeView>)
    ensures
        are_runs_of(runs(nodes), nodes),
    decreases nodes.len(),
{
    if nodes.len() > 0 {
        let before = runs(nodes.drop_last());
        let node = nodes.last();
        lemma_runs_are_runs(nodes.drop_last());
        assert(nodes.drop_last().push(node) =~= nodes);
        if before.len() > 0 && before.last().last().group == node.group {
            lemma_extend_last(before, nodes.drop_last(), node);
        } else {
            lemma_start_new(before, nodes.drop_last(), node);
        }
    } else {
        assert(concat(runs(nodes)) =~= nodes);
    }
}

proof fn lemma_concat_last(lists: Seq<Seq<UiNodeView>>)
    requires
        lists.len() > 0,
        each_nonempty(lists),
    ensures
        concat(lists).len() > 0,
        concat(lists).last() == lists.last().last(),
        concat(lists).drop_last() == concat(lists.drop_last()) + lists.last().drop_last(),
{
    let last = lists.last();
    assert(last.len() > 0);
    assert(concat(lists) == concat(lists.drop_last()) + last);
    assert(concat(lists).drop_last() =~= concat(lists.drop_last()) + last.drop_last());
}

/// Only the runs of a list are runs of it: the four properties leave no
/// choice.
pub proof fn lemma_runs_unique(lists: Seq<Seq<UiNodeView>>, nodes: Seq<UiNodeView>)
    requires
        are_runs_of(lists, nodes),
    ensures
        lists == runs(nodes),
    decreases nodes.len(),
{
    if lists.len() == 0 {
        assert(nodes.len() == 0);
        assert(lists =~= runs(nodes));
    } else {
        lemma_concat_last(lists);
        let head = lists.drop_last();
        let tail = lists.last();
        let node = nodes.last();
        assert(tail.len() > 0);
        assert(tail.last() == node);
        assert(tail[tail.len() - 1].group == tail[0].group);
        assert forall|k: int| 0 <= k < head.len() implies (#[trigger] head[k]).len() > 0 by {
            assert(head[k] == lists[k]);
        }
        assert forall|k: int, j: int| 0 <= k < head.len() && 0 <= j < head[k].len() implies (
        #[trigger] head[k][j]).group == head[k][0].group by {
            assert(head[k] == lists[k]);
            assert(lists[k][j].group == lists[k][0].group);
        }
        assert forall|k: int| 0 <= k && k + 1 < head.len() implies head[k][0].group != (
        #[trigger] head[k + 1])[0].group by {
            assert(head[k] == lists[k]);
            assert(head[k + 1] == lists[k + 1]);
        }
        if tail.len() == 1 {
            assert(tail.drop_last() =~= Seq::<UiNodeView>::empty());
            assert(concat(head) =~= nodes.drop_last());
            lemma_runs_unique(head, nodes.drop_last());
            if head.len() > 0 {
                let k = head.len() - 1;
                assert(head[k] == lists[k]);
                assert(lists[k + 1] == tail);
                assert(lists[k][0].group != tail[0].group);
                assert(head[k].len() > 0);
                assert(head[k][head[k].len() - 1].group == head[k][0].group);
            }
            assert(tail =~= seq![node]);
            assert(lists =~= head.push(tail));
        } else {
            let shorter = tail.drop_last();
            let before = head.push(shorter);
            assert(before.drop_last() =~= head);
            assert(concat(before) =~= nodes.drop_last());
            assert forall|k: int| 0 <= k < before.len() implies (#[trigger] before[k]).len()
                > 0 by {
                if k < head.len() {
                    assert(before[k] == head[k]);
                }
            }
            assert forall|k: int, j: int|
                0 <= k < before.len() && 0 <= j < before[k].len() implies (
            #[trigger] before[k][j]).group == before[k][0].group by {
                if k < head.len() {
                    assert(before[k] == head[k]);
                    assert(head[k][j].group == head[k][0].group);
                } else {
                    assert(shorter[j] == tail[j]);
                    assert(tail[j].group == tail[0].group);
                }
            }
            assert forall|k: int| 0 <= k && k + 1 < before.len() implies before[k][0].group != (
            #[trigger] before[k + 1])[0].group by {
                assert(before[k] == lists[k]);
                if k + 1 < head.len() {
                    assert(before[k + 1] == lists[k + 1]);
                } else {
                    assert(lists[k + 1] == tail);
                    assert(before[k + 1][0] == tail[0]);
                }
            }
            lemma_runs_unique(before, nodes.drop_last());
            assert(shorter.last() == tail[tail.len() - 2]);
            assert(tail[tail.len() - 2].group == tail[0].group);
            assert(shorter.push(node) =~= tail);
            assert(lists =~= before.drop_last().push(before.last().push(node)));
        }
    }
}

/// The heading of a form.
pub open spec fn legend_view(heading: Seq<char>) -> MarkupView {
    element_view(
        Tag::Legend,
        seq![text_attr(AttrName::Class, "fieldset-legend text-xl"@)],
        seq![text_view(heading)],
    )
}

/// A form that is sent to `action` by `method`: a set of fields that holds
/// the heading, where there is one, and then the body.
pub open spec fn form_view(
    action: Seq<char>,
    method: Seq<char>,
    heading: Option<Seq<char>>,
    body: Seq<MarkupView>,
) -> MarkupView {
    let legend = match heading {
        Some(h) => Some(legend_view(h)),
        None => None,
    };
    element_view(
        Tag::Form,
        Seq::empty().push(text_attr(AttrName::Action, action)).push(
            text_attr(AttrName::Method, method),
        ),
        seq![
            element_view(
                Tag::Div,
                seq![text_attr(AttrName::Class, "mt-2"@)],
                seq![
                    element_view(
                        Tag::Fieldset,
                        seq![text_attr(AttrName::Class, "fieldset"@)],
                        push_opt(Seq::empty(), legend) + body,
                    ),
                ],
            ),
        ],
    )
}

/// The form of one run: under the heading of the run's group, the nodes
/// that all methods share and then the nodes of the run.
pub open spec fn group_form(ui: UiContainerView, run: Seq<UiNodeView>) -> MarkupView {
    form_view(
        ui.action,
        ui.method,
        Some(group_legend(run[0].group)),
        nodes_view(common_nodes(ui.nodes)) + nodes_view(run),
    )
}

/// The forms of a list of runs, one for each run, in their order.
pub open spec fn group_forms(ui: UiContainerView, lists: Seq<Seq<UiNodeView>>) -> Seq<MarkupView>
    decreases lists.len(),
{
    if lists.len() == 0 {
        Seq::empty()
    } else {
        group_forms(ui, lists.drop_last()).push(group_form(ui, lists.last()))
    }
}

/// There is one form for each run, and the form at `k` is that of the run
/// at `k`.
pub proof fn lemma_group_forms(ui: UiContainerView, lists: Seq<Seq<UiNodeView>>, k: int)
    requires
        0 <= k < lists.len(),
    ensures
        group_forms(ui, lists).len() == lists.len(),
        group_forms(ui, lists)[k] == group_form(ui, lists[k]),
    decreases lists.len(),
{
    lemma_group_forms_len(ui, lists);
    if k < lists.len() - 1 {
        lemma_group_forms(ui, lists.drop_last(), k);
    }
}

proof fn lemma_group_forms_len(ui: UiContainerView, lists: Seq<Seq<UiNodeView>>)
    ensures
        group_forms(ui, lists).len() == lists.len(),
    decreases lists.len(),
{
    if lists.len() > 0 {
        lemma_group_forms_len(ui, lists.drop_last());
    }
}

/// The alerts of the messages of a flow, in their order.
pub open spec fn messages_view(messages: Option<Seq<UiTextView>>) -> Seq<MarkupView> {
    match messages {
        Some(list) => list.map_values(|m: UiTextView| message_view(m)),
        None => Seq::empty(),
    }
}

/// What is wrong with a schema that cannot be rendered.
#[derive(Clone, Copy, Debug, PartialEq, Eq, Structural)]
pub enum SchemaViolation {
    /// The schema has no node of the default group.
    MissingDefaultGroup,
}

/// What the assembler makes of a flow: the markup, and what it found wrong
/// with the schema. Where it found something wrong there is no markup.
#[derive(Debug, PartialEq, Eq)]
pub struct FormSet {
    pub markup: Vec<Markup>,
    pub violation: Option<SchemaViolation>,
}

/// What is wrong with the schema of a flow, if anything is.
pub open spec fn violation_of(ui: UiContainerView) -> Option<SchemaViolation> {
    if common_nodes(ui.nodes).len() == 0 {
        Some(SchemaViolation::MissingDefaultGroup)
    } else {
        None
    }
}

/// The markup of a flow. A flow without nodes of the default group has
/// none. Any other flow has the alerts of its messages and then its forms:
/// one form for each run of nodes that belong to a method, or, where no
/// node belongs to a method, one form with the nodes that all methods
/// share.
pub open spec fn forms_view(ui: UiContainerView) -> Seq<MarkupView> {
    let lists = runs(method_nodes(ui.nodes));
    if common_nodes(ui.nodes).len() == 0 {
        Seq::empty()
    } else if lists.len() == 0 {
        messages_view(ui.messages).push(
            form_view(ui.action, ui.method, None, nodes_view(common_nodes(ui.nodes))),
        )
    } else {
        messages_view(ui.messages) + group_forms(ui, lists)
    }
}

/// Every form of a flow holds all common nodes, wherever in the flow they
/// stand: after the alerts, the form at `k` is that of the run at `k`,
/// with the heading of the run's group, then the common nodes, then the
/// nodes of the run.
pub proof fn lemma_form_of_run(ui: UiContainerView, k: int)
    requires
        common_nodes(ui.nodes).len() > 0,
        0 <= k < runs(method_nodes(ui.nodes)).len(),
    ensures
        forms_view(ui).len() == messages_view(ui.messages).len() + runs(
            method_nodes(ui.nodes),
        ).len(),
        forms_view(ui)[messages_view(ui.messages).len() + k] == form_view(
            ui.action,
            ui.method,
            Some(group_legend(runs(method_nodes(ui.nodes))[k][0].group)),
            nodes_view(common_nodes(ui.nodes)) + nodes_view(runs(method_nodes(ui.nodes))[k]),
        ),
{
    lemma_group_forms(ui, runs(method_nodes(ui.nodes)), k);
}

/// Rendering a flow again gives the same: two results of the assembler for
/// flows of one value have the same markup and report the same.
pub proof fn lemma_rendering_repeats(
    first: FormSet,
    second: FormSet,
    flow: UiContainer,
    again: UiContainer,
)
    requires
        flow@ == again@,
        first.markup.deep_view() == forms_view(flow@),
        first.violation == violation_of(flow@),
        second.markup.deep_view() == forms_view(again@),
        second.violation == violation_of(again@),
    ensures
        first.markup.deep_view() == second.markup.deep_view(),
        first.violation == second.violation,
{
}

/// A flow is in violation exactly where it renders to nothing.
pub proof fn lemma_violation_iff_empty(ui: UiContainerView)
    ensures
        violation_of(ui) is Some <==> forms_view(ui).len() == 0,
{
    let lists = runs(method_nodes(ui.nodes));
    if common_nodes(ui.nodes).len() > 0 && lists.len() > 0 {
        lemma_group_forms(ui, lists, 0);
    }
}

/// Renders the messages of a flow, each as an alert, in their order.
pub fn render_messages(messages: &Option<Vec<UiText>>) -> (list: Vec<Markup>)
    ensures
        list.deep_view() == messages_view(messages.deep_view()),
{
    let mut list: Vec<Markup> = empty_list();
    match messages {
        Some(all) => {
            let mut i: usize = 0;
            while i < all.len()
                invariant
                    i <= all.len(),
                    list.deep_view() == all.deep_view().take(i as int).map_values(
                        |m: UiTextView| message_view(m),
                    ),
                decreases all.len() - i,
            {
                push_item(&mut list, message_node(&all[i]));
                assert(list.deep_view() =~= all.deep_view().take(i as int + 1).map_values(
                    |m: UiTextView| message_view(m),
                ));
                i = i + 1;
            }
            assert(all.deep_view().take(i as int) =~= all.deep_view());
        },
        None => {},
    }
    list
}

proof fn lemma_common_step(prefix: Seq<UiNodeView>, node: UiNodeView)
    ensures
        common_nodes(prefix.push(node)) == if is_common(node) {
            common_nodes(prefix).push(node)
        } else {
            common_nodes(prefix)
        },
        method_nodes(prefix.push(node)) == if is_common(node) {
            method_nodes(prefix)
        } else {
            method_nodes(prefix).push(node)
        },
{
    reveal(Seq::filter);
    assert(prefix.push(node).drop_last() =~= prefix);
}

fn render_common(nodes: &Vec<UiNode>) -> (r: (Vec<Markup>, bool))
    ensures
        r.0.deep_view() == nodes_view(common_nodes(nodes.deep_view())),
        r.1 == (common_nodes(nodes.deep_view()).len() > 0),
{
    let mut list: Vec<Markup> = empty_list();
    let mut found = false;
    let mut i: usize = 0;
    while i < nodes.len()
        invariant
            i <= nodes.len(),
            list.deep_view() == nodes_view(common_nodes(nodes.deep_view().take(i as int))),
            found == (common_nodes(nodes.deep_view().take(i as int)).len() > 0),
        decreases nodes.len() - i,
    {
        proof {
            let prefix = nodes.deep_view().take(i as int);
            assert(nodes.deep_view().take(i as int + 1) =~= prefix.push(nodes[i as int]@));
            lemma_common_step(prefix, nodes[i as int]@);
            assert(common_nodes(prefix).push(nodes[i as int]@).drop_last() =~= common_nodes(
                prefix,
            ));
        }
        if nodes[i].group == NodeGroup::Default {
            append_items(&mut list, render_node(&nodes[i]));
            found = true;
        }
        i = i + 1;
    }
    proof {
        assert(nodes.deep_view().take(i as int) =~= nodes.deep_view());
    }
    (list, found)
}

/// Builds a form that is sent to `action` by `method`, with a heading,
/// where one is given, above the body.
pub fn make_form(action: &str, method: &str, heading: Option<&str>, body: Vec<Markup>) -> (m:
    Markup)
    ensures
        m@ == form_view(
            action@,
            method@,
            match heading {
                Some(h) => Some(h@),
                None => None,
            },
            body.deep_view(),
        ),
{
    let mut fields: Vec<Markup> = empty_list();
    match heading {
        Some(h) => {
            let mut legend_attrs: Vec<Attr> = empty_list();
            push_text(&mut legend_attrs, AttrName::Class, "fieldset-legend text-xl");
            let mut legend_body: Vec<Markup> = empty_list();
            push_item(&mut legend_body, text(h));
            push_item(&mut fields, element(Tag::Legend, legend_attrs, legend_body));
        },
        None => {},
    }
    append_items(&mut fields, body);

    let mut fieldset_attrs: Vec<Attr> = empty_list();
    push_text(&mut fieldset_attrs, AttrName::Class, "fieldset");
    let mut inner: Vec<Markup> = empty_list();
    push_item(&mut inner, element(Tag::Fieldset, fieldset_attrs, fields));

    let mut div_attrs: Vec<Attr> = empty_list();
    push_text(&mut div_attrs, AttrName::Class, "mt-2");
    let mut outer: Vec<Markup> = empty_list();
    push_item(&mut outer, element(Tag::Div, div_attrs, inner));

    let mut form_attrs: Vec<Attr> = empty_list();
    push_text(&mut form_attrs, AttrName::Action, action);
    push_text(&mut form_attrs, AttrName::Method, method);
    element(Tag::Form, form_attrs, outer)
}

fn make_group_form(ui: &UiContainer, group: NodeGroup, run: Vec<Markup>) -> (m: Markup)
    ensures
        m@ == form_view(
            ui@.action,
            ui@.method,
            Some(group_legend(group)),
            nodes_view(common_nodes(ui@.nodes)) + run.deep_view(),
        ),
{
    let (mut body, _) = render_common(&ui.nodes);
    append_items(&mut body, run);
    make_form(ui.action.as_str(), ui.method.as_str(), Some(group.legend()), body)
}

/// Builds the forms of a flow.
///
/// The nodes of the default group are common to all methods. Where the
/// flow has none of them, nothing is rendered and the violation is
/// reported. Otherwise the messages of the flow come first, each as an
/// alert. Then comes one form for each run of neighbouring nodes of one
/// method, with the heading of the method, the common nodes and the nodes
/// of the run; or, where no node belongs to a method, one form with the
/// common nodes alone. Every form is sent where the flow says.
#[allow(non_snake_case)]
pub fn FormBuilder(ui: &UiContainer) -> (out: FormSet)
    ensures
        out.markup.deep_view() == forms_view(ui@),
        out.violation == violation_of(ui@),
{
    let (common, found) = render_common(&ui.nodes);
    if !found {
        return FormSet {
            markup: empty_list(),
            violation: Some(SchemaViolation::MissingDefaultGroup),
        };
    }
    let mut markup = render_messages(&ui.messages);
    let ghost all = ui@.nodes;

    let mut forms: Vec<Markup> = empty_list();
    let mut run: Vec<Markup> = empty_list();
    let mut group = NodeGroup::Default;
    let mut started = false;
    let mut i: usize = 0;
    while i < ui.nodes.len()
        invariant
            i <= ui.nodes.len(),
            all == ui@.nodes,
            all == ui.nodes.deep_view(),
            started == (runs(method_nodes(all.take(i as int))).len() > 0),
            !started ==> forms.deep_view() == Seq::<MarkupView>::empty(),
            started ==> {
                let lists = runs(method_nodes(all.take(i as int)));
                &&& forms.deep_view() == group_forms(ui@, lists.drop_last())
                &&& run.deep_view() == nodes_view(lists.last())
                &&& lists.last().len() > 0
                &&& lists.last()[0].group == group
                &&& lists.last().last().group == group
            },
        decreases ui.nodes.len() - i,
    {
        let node = &ui.nodes[i];
        proof {
            let prefix = all.take(i as int);
            assert(all.take(i as int + 1) =~= prefix.push(node@));
            lemma_common_step(prefix, node@);
            let rest = method_nodes(prefix);
            assert(rest.push(node@).drop_last() =~= rest);
            let before = runs(rest);
            if before.len() > 0 {
                assert(before.drop_last().push(before.last().push(node@)).drop_last()
                    =~= before.drop_last());
                assert(before.last().push(node@).drop_last() =~= before.last());
            }
            assert(before.push(seq![node@]).drop_last() =~= before);
            lemma_nodes_view_single(node@);
        }
        if node.group != NodeGroup::Default {
            let rendered = render_node(node);
            if started && node.group == group {
                append_items(&mut run, rendered);
            } else {
                if started {
                    let finished = run;
                    push_item(&mut forms, make_group_form(ui, group, finished));
                }
                run = rendered;
                group = node.group;
                started = true;
            }
        }
        i = i + 1;
    }
    proof {
        assert(all.take(i as int) =~= all);
    }
    if started {
        push_item(&mut forms, make_group_form(ui, group, run));
        append_items(&mut markup, forms);
    } else {
        push_item(
            &mut markup,
            make_form(ui.action.as_str(), ui.method.as_str(), None, common),
        );
    }
    FormSet { markup, violation: None }
}

} // verus!
