//! Properties of the collection that hold for every tree and state.

use crate::collect::{
    after_break, char_item, collect, collect_all_children, collect_children, display_prelude,
    element_body, element_outcome, out_of_flow_breaks, surround, tag_breaks,
    RenderedTextCollectionState, TextItem,
};
use crate::style::{DisplayType, Visibility};
use crate::tree::{is_replaced, ElementTag, NodeKind, Tree};
use vstd::prelude::*;

verus! {

/// Node `d` lies in the subtree of `i`: following parents from `d` reaches `i`.
pub open spec fn within(t: Tree, i: int, d: int) -> bool
    decreases d,
{
    if d == i {
        true
    } else if i < d < t.len() {
        match t.nodes@[d].parent {
            Some(p) => p < d && within(t, i, p as int),
            None => false,
        }
    } else {
        false
    }
}

/// The `visibility` of the style of node `d`, if it has one.
pub open spec fn style_visibility(t: Tree, d: int) -> Option<Visibility> {
    match t.nodes@[d].style {
        Some(st) => Some(st.visibility),
        None => None,
    }
}

/// The computed visibility of node `d`: its own for an element, its parent's
/// for a text node.
pub open spec fn computed_visibility(t: Tree, d: int) -> Option<Visibility> {
    match t.nodes@[d].kind {
        NodeKind::Element(_) => style_visibility(t, d),
        NodeKind::Text => match t.nodes@[d].parent {
            Some(p) => if p < t.len() {
                style_visibility(t, p as int)
            } else {
                None
            },
            None => None,
        },
        NodeKind::Other => None,
    }
}

/// Node `d` is a connected `br` element.
pub open spec fn is_connected_br(t: Tree, d: int) -> bool {
    t.nodes@[d].connected && t.nodes@[d].kind == NodeKind::Element(ElementTag::Br)
}

/// Node `i` is a connected element other than `br` with a visible style whose
/// `display` is `d`.
pub open spec fn is_styled_box(t: Tree, i: int, d: DisplayType) -> bool {
    &&& 0 <= i < t.len()
    &&& t.nodes@[i].connected
    &&& t.nodes@[i].kind is Element
    &&& t.nodes@[i].kind->Element_0 != ElementTag::Br
    &&& t.nodes@[i].style is Some
    &&& t.nodes@[i].style->0.visibility == Visibility::Visible
    &&& t.nodes@[i].style->0.display == d
}

/// What a styled box `i` yields after its own `display` step.
pub open spec fn box_rest(t: Tree, i: int, s: RenderedTextCollectionState) -> (
    Seq<TextItem>,
    RenderedTextCollectionState,
) {
    let tag = t.nodes@[i].kind->Element_0;
    let st = t.nodes@[i].style->0;
    let (_, s1, lb) = display_prelude(st.display, out_of_flow_breaks(st), s);
    element_body(t, i, tag, st, tag_breaks(tag, lb), s1)
}

/// No table row is rendered in the subtree of `i`.
pub open spec fn rowless(t: Tree, i: int) -> bool {
    forall|d: int| #[trigger] within(t, i, d) ==> !is_styled_box(t, d, DisplayType::TableRow)
}

proof fn lemma_child_within(t: Tree, i: int, c: int, d: int)
    requires
        t.wf(),
        0 <= i < c < t.len(),
        t.nodes@[c].parent is Some,
        t.nodes@[c].parent->0 as int == i,
        within(t, c, d),
    ensures
        within(t, i, d),
    decreases d,
{
    assert(within(t, i, i));
    if d != c {
        let p = t.nodes@[d].parent->0 as int;
        lemma_child_within(t, i, c, p);
    }
}

/// Child `k` of `i` in a well-formed tree.
proof fn lemma_child_facts(t: Tree, i: int, k: int)
    requires
        t.wf(),
        0 <= i < t.len(),
        0 <= k < t.nodes@[i].children@.len(),
    ensures
        i < t.nodes@[i].children@[k] < t.len(),
        t.nodes@[t.nodes@[i].children@[k] as int].parent is Some,
        t.nodes@[t.nodes@[i].children@[k] as int].parent->0 as int == i,
{
    assert(t.node_wf(i));
}

/// A connected `br` element yields exactly one line feed fragment and no line
/// break count, whatever the state; afterwards no space is pending and leading
/// white space is dropped.
pub proof fn br_yields_one_line_feed(t: Tree, i: int, s: RenderedTextCollectionState)
    requires
        0 <= i < t.len(),
        is_connected_br(t, i),
    ensures
        collect(t, i, s).0 == seq![char_item('\n')],
        collect(t, i, s).1 == after_break(s),
{
}

/// The subtree of child `c` of `i` is rowless when that of `i` is.
proof fn lemma_child_rowless(t: Tree, i: int, c: int)
    requires
        t.wf(),
        0 <= i < c < t.len(),
        t.nodes@[c].parent is Some,
        t.nodes@[c].parent->0 as int == i,
        rowless(t, i),
    ensures
        rowless(t, c),
{
    assert forall|d: int| #[trigger] within(t, c, d) implies !is_styled_box(t, d, DisplayType::TableRow) by {
        lemma_child_within(t, i, c, d);
    }
}

proof fn lemma_flags_children(t: Tree, i: int, k: int, s: RenderedTextCollectionState)
    requires
        t.wf(),
    ensures
        !s.first_table_row ==> !collect_children(t, i, k, s).1.first_table_row,
        !s.first_table_cell && rowless(t, i) ==> !collect_children(t, i, k, s).1.first_table_cell,
    decreases t.len() - i, 0int, k,
{
    if !(k <= 0 || i < 0 || i >= t.len() || k > t.nodes@[i].children@.len()) {
        lemma_flags_children(t, i, k - 1, s);
        let s1 = collect_children(t, i, k - 1, s).1;
        let c = t.nodes@[i].children@[k - 1] as int;
        lemma_child_facts(t, i, k - 1);
        if rowless(t, i) {
            lemma_child_rowless(t, i, c);
        }
        lemma_flags_node(t, c, s1);
    }
}

proof fn lemma_flags_all_children(t: Tree, i: int, s: RenderedTextCollectionState)
    requires
        t.wf(),
    ensures
        !s.first_table_row ==> !collect_all_children(t, i, s).1.first_table_row,
        !s.first_table_cell && rowless(t, i) ==> !collect_all_children(t, i, s).1.first_table_cell,
    decreases t.len() - i, 1int, 0int,
{
    if 0 <= i < t.len() {
        lemma_flags_children(t, i, t.nodes@[i].children@.len() as int, s);
    }
}

proof fn lemma_flags_body(
    t: Tree,
    i: int,
    tag: ElementTag,
    st: crate::style::StyleSnapshot,
    lb: nat,
    s: RenderedTextCollectionState,
)
    requires
        t.wf(),
    ensures
        !s.first_table_row ==> !element_body(t, i, tag, st, lb, s).1.first_table_row,
        !s.first_table_cell && rowless(t, i) ==> !element_body(t, i, tag, st, lb, s).1.first_table_cell,
    decreases t.len() - i, 2int, 0int,
{
    let s1 = surround(lb, s).1;
    if !is_replaced(tag) {
        lemma_flags_all_children(t, i, s1);
    }
}

proof fn lemma_flags_element(t: Tree, i: int, tag: ElementTag, s: RenderedTextCollectionState)
    requires
        t.wf(),
        0 <= i < t.len(),
        t.nodes@[i].connected,
        t.nodes@[i].kind == NodeKind::Element(tag),
        tag != ElementTag::Br,
    ensures
        !s.first_table_row ==> !element_outcome(t, i, tag, s).1.first_table_row,
        !s.first_table_cell && rowless(t, i) ==> !element_outcome(t, i, tag, s).1.first_table_cell,
    decreases t.len() - i, 3int, 0int,
{
    match t.nodes@[i].style {
        None => {},
        Some(st) => {
            if st.visibility != Visibility::Visible {
                lemma_flags_all_children(t, i, s);
            } else {
                let (pre, s1, lb) = display_prelude(st.display, out_of_flow_breaks(st), s);
                if rowless(t, i) {
                    assert(within(t, i, i));
                }
                lemma_flags_body(t, i, tag, st, tag_breaks(tag, lb), s1);
            }
        },
    }
}

proof fn lemma_flags_node(t: Tree, i: int, s: RenderedTextCollectionState)
    requires
        t.wf(),
    ensures
        !s.first_table_row ==> !collect(t, i, s).1.first_table_row,
        !s.first_table_cell && rowless(t, i) ==> !collect(t, i, s).1.first_table_cell,
    decreases t.len() - i, 4int, 0int,
{
    if 0 <= i < t.len() && t.nodes@[i].connected {
        match t.nodes@[i].kind {
            NodeKind::Element(tag) => {
                if tag != ElementTag::Br {
                    lemma_flags_element(t, i, tag, s);
                }
            },
            _ => {},
        }
    }
}

/// A table row yields a line feed before its own content exactly when it is
/// not the first row, and leaves no later row first: so consecutive rows are
/// separated by exactly one line feed and none comes before the first.
pub proof fn table_row_separator(t: Tree, r: int, s: RenderedTextCollectionState)
    requires
        t.wf(),
        is_styled_box(t, r, DisplayType::TableRow),
    ensures
        collect(t, r, s).0 == (if s.first_table_row {
            Seq::empty()
        } else {
            seq![char_item('\n')]
        }) + box_rest(t, r, s).0,
        collect(t, r, s).1 == box_rest(t, r, s).1,
        !collect(t, r, s).1.first_table_row,
{
    let tag = t.nodes@[r].kind->Element_0;
    let st = t.nodes@[r].style->0;
    let (pre, s1, lb) = display_prelude(st.display, out_of_flow_breaks(st), s);
    assert(!s1.first_table_row);
    lemma_flags_body(t, r, tag, st, tag_breaks(tag, lb), s1);
}

/// Of two table rows collected one after the other from a state before any
/// row, the first yields no line feed of its own and the second exactly one,
/// before its content.
pub proof fn consecutive_table_rows(t: Tree, r1: int, r2: int, s: RenderedTextCollectionState)
    requires
        t.wf(),
        is_styled_box(t, r1, DisplayType::TableRow),
        is_styled_box(t, r2, DisplayType::TableRow),
        s.first_table_row,
    ensures
        collect(t, r1, s).0 == box_rest(t, r1, s).0,
        collect(t, r2, collect(t, r1, s).1).0 == seq![char_item('\n')] + box_rest(
            t,
            r2,
            collect(t, r1, s).1,
        ).0,
{
    table_row_separator(t, r1, s);
    table_row_separator(t, r2, collect(t, r1, s).1);
    assert(Seq::<TextItem>::empty() + box_rest(t, r1, s).0 =~= box_rest(t, r1, s).0);
}

/// A table cell yields a tab before its own content exactly when it is not
/// the first cell of its row; a cell with no row rendered inside it leaves the
/// next cell not first.
pub proof fn table_cell_separator(t: Tree, c: int, s: RenderedTextCollectionState)
    requires
        t.wf(),
        is_styled_box(t, c, DisplayType::TableCell),
    ensures
        collect(t, c, s).0 == (if s.first_table_cell {
            Seq::empty()
        } else {
            seq![char_item('\t')]
        }) + box_rest(t, c, s).0,
        collect(t, c, s).1 == box_rest(t, c, s).1,
        rowless(t, c) ==> !collect(t, c, s).1.first_table_cell,
{
    let tag = t.nodes@[c].kind->Element_0;
    let st = t.nodes@[c].style->0;
    let (pre, s1, lb) = display_prelude(st.display, out_of_flow_breaks(st), s);
    assert(!s1.first_table_cell);
    lemma_flags_body(t, c, tag, st, tag_breaks(tag, lb), s1);
}

/// Of two table cells collected one after the other from a state before any
/// cell, where the first holds no table row (a nested table would start its
/// cells anew), the first yields no tab of its own and the second exactly
/// one, before its content.
pub proof fn consecutive_table_cells(t: Tree, c1: int, c2: int, s: RenderedTextCollectionState)
    requires
        t.wf(),
        is_styled_box(t, c1, DisplayType::TableCell),
        is_styled_box(t, c2, DisplayType::TableCell),
        rowless(t, c1),
        s.first_table_cell,
    ensures
        collect(t, c1, s).0 == box_rest(t, c1, s).0,
        collect(t, c2, collect(t, c1, s).1).0 == seq![char_item('\t')] + box_rest(
            t,
            c2,
            collect(t, c1, s).1,
        ).0,
{
    table_cell_separator(t, c1, s);
    table_cell_separator(t, c2, collect(t, c1, s).1);
    assert(Seq::<TextItem>::empty() + box_rest(t, c1, s).0 =~= box_rest(t, c1, s).0);
}

/// Node `i` yields nothing by itself: it is disconnected, neither text nor
/// element, an element other than `br` without a visible style, or a text
/// node whose parent has no visible style.
pub open spec fn unseen(t: Tree, i: int) -> bool {
    let n = t.nodes@[i];
    ||| !n.connected
    ||| n.kind == NodeKind::Other
    ||| (n.kind is Element && n.kind->Element_0 != ElementTag::Br && style_visibility(t, i) != Some(
        Visibility::Visible,
    ))
    ||| (n.kind == NodeKind::Text && n.parent is Some && n.parent->0 < t.len() && style_visibility(
        t,
        n.parent->0 as int,
    ) != Some(Visibility::Visible))
}

/// Below `i`, nothing is visible and no `br` is connected.
pub open spec fn quiet_below(t: Tree, i: int) -> bool {
    forall|d: int|
        #[trigger] within(t, i, d) && d != i ==> computed_visibility(t, d) != Some(
            Visibility::Visible,
        ) && !is_connected_br(t, d)
}

proof fn lemma_quiet_children(t: Tree, i: int, k: int, s: RenderedTextCollectionState)
    requires
        t.wf(),
        0 <= i < t.len(),
        t.nodes@[i].kind is Element,
        style_visibility(t, i) != Some(Visibility::Visible),
        quiet_below(t, i),
    ensures
        collect_children(t, i, k, s) == (Seq::<TextItem>::empty(), s),
    decreases t.len() - i, 0int, k,
{
    if !(k <= 0 || k > t.nodes@[i].children@.len()) {
        lemma_quiet_children(t, i, k - 1, s);
        let c = t.nodes@[i].children@[k - 1] as int;
        lemma_child_facts(t, i, k - 1);
        assert(within(t, i, i));
        assert(within(t, i, c));
        assert forall|d: int| #[trigger] within(t, c, d) && d != c implies computed_visibility(t, d)
            != Some(Visibility::Visible) && !is_connected_br(t, d) by {
            lemma_child_within(t, i, c, d);
        }
        lemma_quiet_node(t, c, s);
        assert(Seq::<TextItem>::empty() + Seq::<TextItem>::empty() =~= Seq::<TextItem>::empty());
    }
}

proof fn lemma_quiet_node(t: Tree, i: int, s: RenderedTextCollectionState)
    requires
        t.wf(),
        0 <= i < t.len(),
        unseen(t, i),
        quiet_below(t, i),
    ensures
        collect(t, i, s) == (Seq::<TextItem>::empty(), s),
    decreases t.len() - i, 4int, 0int,
{
    let n = t.nodes@[i];
    if n.connected {
        match n.kind {
            NodeKind::Element(tag) => {
                if n.style is Some {
                    lemma_quiet_children(t, i, n.children@.len() as int, s);
                }
            },
            _ => {},
        }
    }
}

/// A node whose computed visibility is not `visible`, with no visible node
/// below it, yields nothing and leaves the state as it was, provided no `br`
/// element is connected in its subtree (a `br` yields its line feed whatever
/// its visibility).
pub proof fn invisible_subtree_yields_nothing(t: Tree, i: int, s: RenderedTextCollectionState)
    requires
        t.wf(),
        0 <= i < t.len(),
        computed_visibility(t, i) == Some(Visibility::NotVisible),
        forall|d: int| #[trigger] within(t, i, d) && d != i ==> computed_visibility(t, d) != Some(Visibility::Visible),
        forall|d: int| #[trigger] within(t, i, d) ==> !is_connected_br(t, d),
    ensures
        collect(t, i, s).0 == Seq::<TextItem>::empty(),
        collect(t, i, s).1 == s,
{
    assert(within(t, i, i));
    lemma_quiet_node(t, i, s);
}

} // verus!
