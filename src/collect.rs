//! The rendered text collection steps: a depth-first walk that threads a small
//! state record through the tree and yields text fragments and required line
//! break counts in document order.

use crate::style::{
    atomic_inline, is_atomic_inline, DisplayType, Float, Position, StyleSnapshot, TextTransform,
    Visibility, WhiteSpaceCollapse,
};
use crate::text::{
    apply_text_transform, capitalize_words, capitalized, chars_of, string_of, transformed,
};
use crate::tree::{is_replaced, replaced, ElementTag, NodeKind, Tree};
use crate::whitespace::{ascii_ws, collapse_whitespace, collapsed, is_ascii_ws};
use vstd::prelude::*;

verus! {

/// The flags threaded through one collection, owned by its call chain.
#[derive(Clone, Copy, Debug, PartialEq, Eq, Structural)]
pub struct RenderedTextCollectionState {
    /// No table row has been entered yet: no line feed goes before the next one.
    pub first_table_row: bool,
    /// No cell of the current row has been entered yet: no tab goes before the next one.
    pub first_table_cell: bool,
    /// Inside a table, where only cell and caption content is rendered.
    pub within_table: bool,
    /// Inside a table cell or caption.
    pub within_table_content: bool,
    /// Leading white space of the next text is dropped.
    pub may_start_with_whitespace: bool,
    /// The previous text lost a trailing white space that the next text may bring back.
    pub did_truncate_trailing_white_space: bool,
}

impl RenderedTextCollectionState {
    /// The state at the start of a collection: before any row or cell, outside
    /// any table, at a point where leading white space is dropped.
    pub fn new() -> (r: RenderedTextCollectionState)
        ensures
            r == initial_state(),
    {
        RenderedTextCollectionState {
            first_table_row: true,
            first_table_cell: true,
            within_table: false,
            within_table_content: false,
            may_start_with_whitespace: true,
            did_truncate_trailing_white_space: false,
        }
    }
}

/// The state a collection starts from.
pub open spec fn initial_state() -> RenderedTextCollectionState {
    RenderedTextCollectionState {
        first_table_row: true,
        first_table_cell: true,
        within_table: false,
        within_table_content: false,
        may_start_with_whitespace: true,
        did_truncate_trailing_white_space: false,
    }
}

/// One produced item.
#[derive(Debug, PartialEq, Eq)]
pub enum InnerOrOuterTextItem {
    Text(String),
    /// A positive number of required line breaks at a block boundary.
    RequiredLineBreakCount(usize),
}

/// The mathematical value of an item.
pub enum TextItem {
    Text(Seq<char>),
    LineBreaks(nat),
}

impl View for InnerOrOuterTextItem {
    type V = TextItem;

    open spec fn view(&self) -> TextItem {
        match self {
            InnerOrOuterTextItem::Text(s) => TextItem::Text(s@),
            InnerOrOuterTextItem::RequiredLineBreakCount(n) => TextItem::LineBreaks(*n as nat),
        }
    }
}

/// The values of a sequence of items.
pub open spec fn items_view(v: Seq<InnerOrOuterTextItem>) -> Seq<TextItem> {
    v.map_values(|x: InnerOrOuterTextItem| x@)
}

/// A fragment of one character.
pub open spec fn char_item(c: char) -> TextItem {
    TextItem::Text(seq![c])
}

/// The state after text that ended in a dropped white space.
pub open spec fn after_truncation(s: RenderedTextCollectionState) -> RenderedTextCollectionState {
    RenderedTextCollectionState {
        may_start_with_whitespace: false,
        did_truncate_trailing_white_space: true,
        ..s
    }
}

/// The state after an explicit break (a line break count or a `br`).
pub open spec fn after_break(s: RenderedTextCollectionState) -> RenderedTextCollectionState {
    RenderedTextCollectionState {
        may_start_with_whitespace: true,
        did_truncate_trailing_white_space: false,
        ..s
    }
}

/// The characters a styled text node yields before its trailing white space
/// is looked at: white-space processing, case mapping, then capitalization.
pub open spec fn rendered_chars(text: Seq<char>, st: StyleSnapshot, trim_leading: bool) -> Seq<char> {
    let t = transformed(collapsed(text, st.white_space_collapse, trim_leading), st.text_transform);
    if st.text_transform == TextTransform::Capitalize {
        capitalized(t)
    } else {
        t
    }
}

/// The outcome of a text node whose parent is rendered with style `st`.
pub open spec fn styled_text(text: Seq<char>, st: StyleSnapshot, s: RenderedTextCollectionState) -> (
    Seq<TextItem>,
    RenderedTextCollectionState,
) {
    let preserve = st.white_space_collapse == WhiteSpaceCollapse::Preserve;
    let trim = !preserve && (s.may_start_with_whitespace || is_atomic_inline(st.display));
    let out = rendered_chars(text, st, trim);
    let lead = if s.did_truncate_trailing_white_space && !(out.len() > 0 && is_ascii_ws(out[0])) {
        seq![char_item(' ')]
    } else {
        Seq::empty()
    };
    if out.len() == 0 {
        (lead, s)
    } else if is_ascii_ws(out.last()) && !preserve {
        let rest = out.drop_last();
        (
            if rest.len() > 0 { lead.push(TextItem::Text(rest)) } else { lead },
            after_truncation(s),
        )
    } else {
        (
            lead.push(TextItem::Text(out)),
            RenderedTextCollectionState {
                may_start_with_whitespace: is_ascii_ws(out.last()),
                did_truncate_trailing_white_space: false,
                ..s
            },
        )
    }
}

/// Text inside an element of this kind is ignored outright: replaced
/// elements, `select`, and an `optgroup` that is not directly in a `select`.
pub open spec fn text_ignored_under(t: Tree, p: int) -> bool {
    match t.nodes@[p].kind {
        NodeKind::Element(tag) => is_replaced(tag) || tag == ElementTag::Select || (tag
            == ElementTag::OptGroup && !(match t.nodes@[p].parent {
            Some(g) => g < t.len() && t.nodes@[g as int].kind == NodeKind::Element(
                ElementTag::Select,
            ),
            None => false,
        })),
        _ => false,
    }
}

/// The outcome of text node `i`.
pub open spec fn text_outcome(t: Tree, i: int, s: RenderedTextCollectionState) -> (
    Seq<TextItem>,
    RenderedTextCollectionState,
) {
    let n = t.nodes@[i];
    match n.parent {
        None => (seq![TextItem::Text(n.text@)], s),
        Some(p) => {
            if p >= t.len() || text_ignored_under(t, p as int) || (s.within_table
                && !s.within_table_content) {
                (Seq::empty(), s)
            } else {
                match t.nodes@[p as int].style {
                    None => (Seq::empty(), s),
                    Some(st) => {
                        if st.visibility != Visibility::Visible || (st.display
                            == DisplayType::NotRendered && !(t.nodes@[p as int].kind
                            == NodeKind::Element(ElementTag::OptionItem) || t.nodes@[p as int].kind
                            == NodeKind::Element(ElementTag::OptGroup))) {
                            (Seq::empty(), s)
                        } else {
                            styled_text(n.text@, st, s)
                        }
                    },
                }
            }
        },
    }
}

/// Line breaks that the position and float of a box ask for on their own.
pub open spec fn out_of_flow_breaks(st: StyleSnapshot) -> nat {
    if st.position == Position::Absolute || st.float != Float::Unfloated {
        1
    } else {
        0
    }
}

/// What `display` does before the children: items emitted, the new state,
/// and the surrounding line break count (starting from `base`).
pub open spec fn display_prelude(d: DisplayType, base: nat, s: RenderedTextCollectionState) -> (
    Seq<TextItem>,
    RenderedTextCollectionState,
    nat,
) {
    match d {
        DisplayType::Table => (Seq::empty(), RenderedTextCollectionState { within_table: true, ..s }, 1),
        DisplayType::TableCell => (
            if s.first_table_cell { Seq::empty() } else { seq![char_item('\t')] },
            RenderedTextCollectionState {
                did_truncate_trailing_white_space: s.did_truncate_trailing_white_space
                    && s.first_table_cell,
                first_table_cell: false,
                within_table_content: true,
                ..s
            },
            base,
        ),
        DisplayType::TableRow => (
            if s.first_table_row { Seq::empty() } else { seq![char_item('\n')] },
            RenderedTextCollectionState {
                did_truncate_trailing_white_space: s.did_truncate_trailing_white_space
                    && s.first_table_row,
                first_table_row: false,
                first_table_cell: true,
                ..s
            },
            base,
        ),
        DisplayType::Block => (Seq::empty(), s, 1),
        DisplayType::TableCaption => (
            Seq::empty(),
            RenderedTextCollectionState { within_table_content: true, ..s },
            1,
        ),
        DisplayType::InlineBlock | DisplayType::InlineFlex | DisplayType::InlineGrid => {
            if s.did_truncate_trailing_white_space {
                (seq![char_item(' ')], after_break(s), base)
            } else {
                (Seq::empty(), s, base)
            }
        },
        _ => (Seq::empty(), s, base),
    }
}

/// The surrounding line break count once the element's tag is taken into
/// account: two for a paragraph, one for an option or option group.
pub open spec fn tag_breaks(tag: ElementTag, lb: nat) -> nat {
    match tag {
        ElementTag::Paragraph => 2,
        ElementTag::OptionItem | ElementTag::OptGroup => 1,
        _ => lb,
    }
}

/// What `display` undoes after the children.
pub open spec fn display_cleanup(d: DisplayType, s: RenderedTextCollectionState) -> RenderedTextCollectionState {
    match d {
        DisplayType::InlineBlock | DisplayType::InlineFlex | DisplayType::InlineGrid => {
            RenderedTextCollectionState {
                may_start_with_whitespace: false,
                did_truncate_trailing_white_space: false,
                ..s
            }
        },
        DisplayType::Table => RenderedTextCollectionState { within_table: false, ..s },
        DisplayType::TableCell | DisplayType::TableCaption => RenderedTextCollectionState {
            within_table_content: false,
            ..s
        },
        _ => s,
    }
}

/// Emits `lb` as a line break count when it is positive.
pub open spec fn surround(lb: nat, s: RenderedTextCollectionState) -> (
    Seq<TextItem>,
    RenderedTextCollectionState,
) {
    if lb > 0 {
        (seq![TextItem::LineBreaks(lb)], after_break(s))
    } else {
        (Seq::empty(), s)
    }
}

/// Items of the children of `i` at positions below `k`, in tree order, from state `s`.
pub open spec fn collect_children(t: Tree, i: int, k: int, s: RenderedTextCollectionState) -> (
    Seq<TextItem>,
    RenderedTextCollectionState,
)
    decreases t.len() - i, 0int, k,
{
    if k <= 0 || i < 0 || i >= t.len() || k > t.nodes@[i].children@.len() {
        (Seq::empty(), s)
    } else {
        let (a, s1) = collect_children(t, i, k - 1, s);
        let c = t.nodes@[i].children@[k - 1] as int;
        if i < c < t.len() {
            let (b, s2) = collect(t, c, s1);
            (a + b, s2)
        } else {
            (a, s1)
        }
    }
}

/// Items of all children of `i`.
pub open spec fn collect_all_children(t: Tree, i: int, s: RenderedTextCollectionState) -> (
    Seq<TextItem>,
    RenderedTextCollectionState,
)
    decreases t.len() - i, 1int, 0int,
{
    if 0 <= i < t.len() {
        collect_children(t, i, t.nodes@[i].children@.len() as int, s)
    } else {
        (Seq::empty(), s)
    }
}

/// A rendered element after its `display` step: the opening line break
/// count, the children (or, for a replaced element, the deferred space), the
/// `display` cleanup and the closing count.
pub open spec fn element_body(
    t: Tree,
    i: int,
    tag: ElementTag,
    st: StyleSnapshot,
    lb: nat,
    s: RenderedTextCollectionState,
) -> (Seq<TextItem>, RenderedTextCollectionState)
    decreases t.len() - i, 2int, 0int,
{
    let (open, s1) = surround(lb, s);
    let (mid, s2) = if is_replaced(tag) {
        let space = st.display != DisplayType::Block && s1.did_truncate_trailing_white_space;
        (
            if space { seq![char_item(' ')] } else { Seq::empty() },
            RenderedTextCollectionState {
                did_truncate_trailing_white_space: s1.did_truncate_trailing_white_space && !space,
                may_start_with_whitespace: false,
                ..s1
            },
        )
    } else {
        collect_all_children(t, i, s1)
    };
    let (close, s3) = surround(lb, display_cleanup(st.display, s2));
    (open + mid + close, s3)
}

/// The outcome of element `i` with tag `tag` (not `br`).
pub open spec fn element_outcome(t: Tree, i: int, tag: ElementTag, s: RenderedTextCollectionState) -> (
    Seq<TextItem>,
    RenderedTextCollectionState,
)
    decreases t.len() - i, 3int, 0int,
{
    match t.nodes@[i].style {
        None => (Seq::empty(), s),
        Some(st) => {
            if st.visibility != Visibility::Visible {
                collect_all_children(t, i, s)
            } else {
                let (pre, s1, lb) = display_prelude(st.display, out_of_flow_breaks(st), s);
                let (body, s2) = element_body(t, i, tag, st, tag_breaks(tag, lb), s1);
                (pre + body, s2)
            }
        },
    }
}

/// The rendered text collection steps on node `i` from state `s`: the items,
/// in document order, and the state afterwards.
pub open spec fn collect(t: Tree, i: int, s: RenderedTextCollectionState) -> (
    Seq<TextItem>,
    RenderedTextCollectionState,
)
    decreases t.len() - i, 4int, 0int,
{
    if i < 0 || i >= t.len() || !t.nodes@[i].connected {
        (Seq::empty(), s)
    } else {
        match t.nodes@[i].kind {
            NodeKind::Text => text_outcome(t, i, s),
            NodeKind::Element(ElementTag::Br) => (seq![char_item('\n')], after_break(s)),
            NodeKind::Element(tag) => element_outcome(t, i, tag, s),
            NodeKind::Other => (Seq::empty(), s),
        }
    }
}

/// A fragment of the single character `c`.
fn char_fragment(c: char) -> (r: InnerOrOuterTextItem)
    ensures
        r@ == char_item(c),
{
    let mut v: Vec<char> = Vec::new();
    v.push(c);
    InnerOrOuterTextItem::Text(string_of(&v))
}

/// Moves the items of `b` to the end of `a`.
fn append_items(a: &mut Vec<InnerOrOuterTextItem>, b: Vec<InnerOrOuterTextItem>)
    ensures
        items_view(final(a)@) == items_view(old(a)@) + items_view(b@),
{
    let ghost b0 = b@;
    let mut b = b;
    a.append(&mut b);
    assert(items_view(a@) =~= items_view(old(a)@) + items_view(b0));
}

/// Adds `item` to the end of `a`.
fn push_item(a: &mut Vec<InnerOrOuterTextItem>, item: InnerOrOuterTextItem)
    ensures
        items_view(final(a)@) == items_view(old(a)@).push(item@),
{
    a.push(item);
    assert(items_view(a@) =~= items_view(old(a)@).push(item@));
}

/// The items of a text node whose parent is rendered with style `st`.
fn styled_text_items(text: &String, st: StyleSnapshot, state: &mut RenderedTextCollectionState) -> (items: Vec<InnerOrOuterTextItem>)
    ensures
        items_view(items@) == styled_text(text@, st, *old(state)).0,
        *final(state) == styled_text(text@, st, *old(state)).1,
{
    let preserve = st.white_space_collapse == WhiteSpaceCollapse::Preserve;
    let trim = !preserve && (state.may_start_with_whitespace || atomic_inline(st.display));
    let chars = chars_of(text.as_str());
    let collapsed_chars = collapse_whitespace(&chars, st.white_space_collapse, trim);
    let mut out = apply_text_transform(&collapsed_chars, st.text_transform);
    if st.text_transform == TextTransform::Capitalize {
        out = capitalize_words(&out);
    }
    assert(out@ == rendered_chars(text@, st, trim));
    let first_ws = out.len() > 0 && ascii_ws(out[0]);
    let mut items: Vec<InnerOrOuterTextItem> = Vec::new();
    if state.did_truncate_trailing_white_space && !first_ws {
        push_item(&mut items, char_fragment(' '));
    }
    assert(items_view(items@) == styled_text(text@, st, *old(state)).0.take(items@.len() as int))
        by {
        if items@.len() == 0 {
            assert(items_view(items@) =~= Seq::empty());
        }
    }
    if out.len() == 0 {
        assert(items_view(items@) =~= styled_text(text@, st, *old(state)).0);
        return items;
    }
    let last_ws = ascii_ws(out[out.len() - 1]);
    if last_ws && !preserve {
        out.pop();
        state.may_start_with_whitespace = false;
        state.did_truncate_trailing_white_space = true;
        if out.len() > 0 {
            push_item(&mut items, InnerOrOuterTextItem::Text(string_of(&out)));
        }
    } else {
        state.may_start_with_whitespace = last_ws;
        state.did_truncate_trailing_white_space = false;
        push_item(&mut items, InnerOrOuterTextItem::Text(string_of(&out)));
    }
    assert(items_view(items@) =~= styled_text(text@, st, *old(state)).0);
    items
}

/// Text inside element `p` is ignored outright.
fn text_ignored(tree: &Tree, p: usize) -> (r: bool)
    requires
        tree.wf(),
        p < tree.len(),
    ensures
        r == text_ignored_under(*tree, p as int),
{
    match tree.nodes[p].kind {
        NodeKind::Element(tag) => {
            if replaced(tag) || tag == ElementTag::Select {
                true
            } else if tag == ElementTag::OptGroup {
                match tree.nodes[p].parent {
                    Some(g) => !(g < tree.nodes.len() && tree.nodes[g].kind == NodeKind::Element(
                        ElementTag::Select,
                    )),
                    None => true,
                }
            } else {
                false
            }
        },
        _ => false,
    }
}

/// The items of text node `node`.
fn text_node_items(tree: &Tree, node: usize, state: &mut RenderedTextCollectionState) -> (items: Vec<InnerOrOuterTextItem>)
    requires
        tree.wf(),
        node < tree.len(),
    ensures
        items_view(items@) == text_outcome(*tree, node as int, *old(state)).0,
        *final(state) == text_outcome(*tree, node as int, *old(state)).1,
{
    let mut items: Vec<InnerOrOuterTextItem> = Vec::new();
    assert(items_view(items@) =~= Seq::empty());
    match tree.nodes[node].parent {
        None => {
            push_item(&mut items, InnerOrOuterTextItem::Text(tree.nodes[node].text.clone()));
            assert(items_view(items@) =~= text_outcome(*tree, node as int, *old(state)).0);
            items
        },
        Some(p) => {
            if p >= tree.nodes.len() || text_ignored(tree, p) || (state.within_table
                && !state.within_table_content) {
                return items;
            }
            let st = match tree.nodes[p].style {
                None => {
                    return items;
                },
                Some(st) => st,
            };
            let kind = tree.nodes[p].kind;
            if st.visibility != Visibility::Visible || (st.display == DisplayType::NotRendered
                && !(kind == NodeKind::Element(ElementTag::OptionItem) || kind == NodeKind::Element(
                ElementTag::OptGroup,
            ))) {
                return items;
            }
            styled_text_items(&tree.nodes[node].text, st, state)
        },
    }
}

/// The `display` step before the children; returns its items and the
/// surrounding line break count.
fn display_prelude_items(d: DisplayType, base: usize, state: &mut RenderedTextCollectionState) -> (r: (Vec<InnerOrOuterTextItem>, usize))
    requires
        base <= 1,
    ensures
        items_view(r.0@) == display_prelude(d, base as nat, *old(state)).0,
        *final(state) == display_prelude(d, base as nat, *old(state)).1,
        r.1 == display_prelude(d, base as nat, *old(state)).2,
        r.1 <= 1,
{
    let mut items: Vec<InnerOrOuterTextItem> = Vec::new();
    assert(items_view(items@) =~= Seq::empty());
    let mut lb = base;
    match d {
        DisplayType::Table => {
            lb = 1;
            state.within_table = true;
        },
        DisplayType::TableCell => {
            if !state.first_table_cell {
                push_item(&mut items, char_fragment('\t'));
                state.did_truncate_trailing_white_space = false;
            }
            state.first_table_cell = false;
            state.within_table_content = true;
        },
        DisplayType::TableRow => {
            if !state.first_table_row {
                push_item(&mut items, char_fragment('\n'));
                state.did_truncate_trailing_white_space = false;
            }
            state.first_table_row = false;
            state.first_table_cell = true;
        },
        DisplayType::Block => {
            lb = 1;
        },
        DisplayType::TableCaption => {
            lb = 1;
            state.within_table_content = true;
        },
        DisplayType::InlineBlock | DisplayType::InlineFlex | DisplayType::InlineGrid => {
            if state.did_truncate_trailing_white_space {
                push_item(&mut items, char_fragment(' '));
                state.did_truncate_trailing_white_space = false;
                state.may_start_with_whitespace = true;
            }
        },
        _ => {},
    }
    proof {
        let e = display_prelude(d, base as nat, *old(state));
        assert(items_view(items@) =~= e.0);
    }
    (items, lb)
}

/// The `display` cleanup after the children.
fn display_cleanup_step(d: DisplayType, state: &mut RenderedTextCollectionState)
    ensures
        *final(state) == display_cleanup(d, *old(state)),
{
    match d {
        DisplayType::InlineBlock | DisplayType::InlineFlex | DisplayType::InlineGrid => {
            state.did_truncate_trailing_white_space = false;
            state.may_start_with_whitespace = false;
        },
        DisplayType::Table => {
            state.within_table = false;
        },
        DisplayType::TableCell | DisplayType::TableCaption => {
            state.within_table_content = false;
        },
        _ => {},
    }
}

/// Emits `lb` as a line break count when it is positive.
fn surround_step(items: &mut Vec<InnerOrOuterTextItem>, lb: usize, state: &mut RenderedTextCollectionState)
    ensures
        items_view(final(items)@) == items_view(old(items)@) + surround(lb as nat, *old(state)).0,
        *final(state) == surround(lb as nat, *old(state)).1,
{
    if lb > 0 {
        push_item(items, InnerOrOuterTextItem::RequiredLineBreakCount(lb));
        state.did_truncate_trailing_white_space = false;
        state.may_start_with_whitespace = true;
        assert(items_view(items@) =~= items_view(old(items)@) + surround(lb as nat, *old(state)).0);
    } else {
        assert(items_view(items@) =~= items_view(old(items)@) + surround(lb as nat, *old(state)).0);
    }
}

/// The items of every child of `node`, in tree order.
fn children_items(tree: &Tree, node: usize, state: &mut RenderedTextCollectionState) -> (items: Vec<InnerOrOuterTextItem>)
    requires
        tree.wf(),
        node < tree.len(),
    ensures
        items_view(items@) == collect_all_children(*tree, node as int, *old(state)).0,
        *final(state) == collect_all_children(*tree, node as int, *old(state)).1,
    decreases tree.len() - node, 0int,
{
    let ghost s0 = *state;
    let mut items: Vec<InnerOrOuterTextItem> = Vec::new();
    assert(items_view(items@) =~= Seq::empty());
    let n = tree.nodes[node].children.len();
    let mut k: usize = 0;
    while k < n
        invariant
            tree.wf(),
            node < tree.len(),
            n == tree.nodes@[node as int].children@.len(),
            k <= n,
            items_view(items@) == collect_children(*tree, node as int, k as int, s0).0,
            *state == collect_children(*tree, node as int, k as int, s0).1,
        decreases n - k,
    {
        let c = tree.nodes[node].children[k];
        proof {
            assert(tree.node_wf(node as int));
            assert(node < c < tree.len());
        }
        let sub = rendered_text_collection_steps(tree, c, state);
        append_items(&mut items, sub);
        k += 1;
    }
    items
}

/// Appends to `items` what element `node` yields after its `display` step,
/// with surrounding line break count `lb`.
fn element_body_items(
    tree: &Tree,
    node: usize,
    tag: ElementTag,
    st: StyleSnapshot,
    lb: usize,
    items: &mut Vec<InnerOrOuterTextItem>,
    state: &mut RenderedTextCollectionState,
)
    requires
        tree.wf(),
        node < tree.len(),
    ensures
        items_view(final(items)@) == items_view(old(items)@) + element_body(
            *tree,
            node as int,
            tag,
            st,
            lb as nat,
            *old(state),
        ).0,
        *final(state) == element_body(*tree, node as int, tag, st, lb as nat, *old(state)).1,
    decreases tree.len() - node, 1int,
{
    let ghost s0 = *state;
    let ghost pre = items_view(items@);
    surround_step(items, lb, state);
    let ghost with_open = items_view(items@);
    if replaced(tag) {
        if st.display != DisplayType::Block && state.did_truncate_trailing_white_space {
            push_item(items, char_fragment(' '));
            state.did_truncate_trailing_white_space = false;
        }
        state.may_start_with_whitespace = false;
    } else {
        let sub = children_items(tree, node, state);
        append_items(items, sub);
    }
    let ghost with_mid = items_view(items@);
    display_cleanup_step(st.display, state);
    surround_step(items, lb, state);
    proof {
        let body = element_body(*tree, node as int, tag, st, lb as nat, s0);
        let mid = with_mid.subrange(with_open.len() as int, with_mid.len() as int);
        assert(with_mid =~= with_open + mid);
        assert(with_open.subrange(0, pre.len() as int) =~= pre);
        assert(items_view(items@) =~= pre + body.0);
    }
}

/// The items of element `node`, whose tag is `tag` (not `br`).
fn element_items(tree: &Tree, node: usize, tag: ElementTag, state: &mut RenderedTextCollectionState) -> (items: Vec<InnerOrOuterTextItem>)
    requires
        tree.wf(),
        node < tree.len(),
    ensures
        items_view(items@) == element_outcome(*tree, node as int, tag, *old(state)).0,
        *final(state) == element_outcome(*tree, node as int, tag, *old(state)).1,
    decreases tree.len() - node, 2int,
{
    let st = match tree.nodes[node].style {
        None => {
            let items: Vec<InnerOrOuterTextItem> = Vec::new();
            assert(items_view(items@) =~= Seq::empty());
            return items;
        },
        Some(st) => st,
    };
    if st.visibility != Visibility::Visible {
        return children_items(tree, node, state);
    }
    let base: usize = if st.position == Position::Absolute || st.float != Float::Unfloated {
        1
    } else {
        0
    };
    let (mut items, lb0) = display_prelude_items(st.display, base, state);
    let lb: usize = match tag {
        ElementTag::Paragraph => 2,
        ElementTag::OptionItem | ElementTag::OptGroup => 1,
        _ => lb0,
    };
    assert(lb as nat == tag_breaks(tag, lb0 as nat));
    element_body_items(tree, node, tag, st, lb, &mut items, state);
    items
}

/// The rendered text collection steps on `node`: the text fragments and
/// required line break counts of its subtree, in document order. `state` is
/// threaded through the walk and left as the last step set it.
pub fn rendered_text_collection_steps(tree: &Tree, node: usize, state: &mut RenderedTextCollectionState) -> (items: Vec<InnerOrOuterTextItem>)
    requires
        tree.wf(),
    ensures
        items_view(items@) == collect(*tree, node as int, *old(state)).0,
        *final(state) == collect(*tree, node as int, *old(state)).1,
    decreases tree.len() - node, 3int,
{
    let mut items: Vec<InnerOrOuterTextItem> = Vec::new();
    assert(items_view(items@) =~= Seq::empty());
    if node >= tree.nodes.len() || !tree.nodes[node].connected {
        return items;
    }
    match tree.nodes[node].kind {
        NodeKind::Text => text_node_items(tree, node, state),
        NodeKind::Element(ElementTag::Br) => {
            state.did_truncate_trailing_white_space = false;
            state.may_start_with_whitespace = true;
            push_item(&mut items, char_fragment('\n'));
            assert(items_view(items@) =~= seq![char_item('\n')]);
            items
        },
        NodeKind::Element(tag) => element_items(tree, node, tag, state),
        NodeKind::Other => items,
    }
}

} // verus!
