use rendered_text::collect::{
    rendered_text_collection_steps, InnerOrOuterTextItem, RenderedTextCollectionState,
};
use rendered_text::style::{DisplayType, Position, StyleSnapshot, TextTransform, Visibility, WhiteSpaceCollapse};
use rendered_text::tree::{ElementTag, NodeKind, Tree};

fn text(s: &str) -> InnerOrOuterTextItem {
    InnerOrOuterTextItem::Text(s.to_string())
}

fn breaks(n: usize) -> InnerOrOuterTextItem {
    InnerOrOuterTextItem::RequiredLineBreakCount(n)
}

fn element(t: &mut Tree, parent: Option<usize>, tag: ElementTag, display: DisplayType) -> usize {
    t.add_node(parent, NodeKind::Element(tag), Some(StyleSnapshot::with_display(display)), "")
}

fn styled(t: &mut Tree, parent: Option<usize>, tag: ElementTag, style: StyleSnapshot) -> usize {
    t.add_node(parent, NodeKind::Element(tag), Some(style), "")
}

fn text_node(t: &mut Tree, parent: usize, s: &str) -> usize {
    t.add_node(Some(parent), NodeKind::Text, None, s)
}

fn run(t: &Tree, node: usize) -> (Vec<InnerOrOuterTextItem>, RenderedTextCollectionState) {
    let mut state = RenderedTextCollectionState::new();
    let items = rendered_text_collection_steps(t, node, &mut state);
    (items, state)
}

fn joined(items: &[InnerOrOuterTextItem]) -> String {
    let mut out = String::new();
    for item in items {
        if let InnerOrOuterTextItem::Text(s) = item {
            out.push_str(s);
        }
    }
    out
}

#[test]
fn paragraphs_get_two_breaks_each() {
    let mut t = Tree::new();
    let root = element(&mut t, None, ElementTag::Other, DisplayType::Inline);
    let p1 = element(&mut t, Some(root), ElementTag::Paragraph, DisplayType::Block);
    text_node(&mut t, p1, "A");
    let p2 = element(&mut t, Some(root), ElementTag::Paragraph, DisplayType::Block);
    text_node(&mut t, p2, "B");
    let (items, _) = run(&t, root);
    assert_eq!(items, vec![breaks(2), text("A"), breaks(2), breaks(2), text("B"), breaks(2)]);
}

#[test]
fn collapsed_text_defers_trailing_space() {
    let mut t = Tree::new();
    let span = element(&mut t, None, ElementTag::Other, DisplayType::Inline);
    text_node(&mut t, span, " a   b ");
    let (items, state) = run(&t, span);
    assert_eq!(items, vec![text("a b")]);
    assert!(state.did_truncate_trailing_white_space);
    assert!(!state.may_start_with_whitespace);
}

#[test]
fn collapsed_text_keeps_leading_space_mid_line() {
    let mut t = Tree::new();
    let span = element(&mut t, None, ElementTag::Other, DisplayType::Inline);
    let n = text_node(&mut t, span, " a   b ");
    let mut state = RenderedTextCollectionState::new();
    state.may_start_with_whitespace = false;
    let items = rendered_text_collection_steps(&t, n, &mut state);
    assert_eq!(items, vec![text(" a b")]);
    assert!(state.did_truncate_trailing_white_space);
}

#[test]
fn replaced_element_reemits_deferred_space() {
    let mut t = Tree::new();
    let span = element(&mut t, None, ElementTag::Other, DisplayType::Inline);
    text_node(&mut t, span, "asd ");
    element(&mut t, Some(span), ElementTag::Input, DisplayType::Inline);
    text_node(&mut t, span, " qwe");
    let (items, _) = run(&t, span);
    assert_eq!(items, vec![text("asd"), text(" "), text(" qwe")]);
    assert_eq!(joined(&items), "asd  qwe");
}

#[test]
fn br_yields_one_line_feed() {
    let mut t = Tree::new();
    let br = element(&mut t, None, ElementTag::Br, DisplayType::Block);
    let mut state = RenderedTextCollectionState::new();
    state.did_truncate_trailing_white_space = true;
    state.may_start_with_whitespace = false;
    let items = rendered_text_collection_steps(&t, br, &mut state);
    assert_eq!(items, vec![text("\n")]);
    assert!(!state.did_truncate_trailing_white_space);
    assert!(state.may_start_with_whitespace);
}

#[test]
fn br_inside_text_breaks_the_line() {
    let mut t = Tree::new();
    let span = element(&mut t, None, ElementTag::Other, DisplayType::Inline);
    text_node(&mut t, span, "one ");
    element(&mut t, Some(span), ElementTag::Br, DisplayType::Inline);
    text_node(&mut t, span, " two");
    let (items, _) = run(&t, span);
    assert_eq!(items, vec![text("one"), text("\n"), text("two")]);
}

fn build_table(t: &mut Tree, parent: Option<usize>, rows: &[&[&str]]) -> usize {
    let table = element(t, parent, ElementTag::Other, DisplayType::Table);
    text_node(t, table, " stray ");
    for row in rows {
        let r = element(t, Some(table), ElementTag::Other, DisplayType::TableRow);
        for cell in row.iter() {
            let c = element(t, Some(r), ElementTag::Other, DisplayType::TableCell);
            text_node(t, c, cell);
        }
    }
    table
}

#[test]
fn table_rows_and_cells_are_separated() {
    let mut t = Tree::new();
    let table = build_table(&mut t, None, &[&["a", "b"], &["c", "d"]]);
    let (items, state) = run(&t, table);
    assert_eq!(
        items,
        vec![
            breaks(1),
            text("a"),
            text("\t"),
            text("b"),
            text("\n"),
            text("c"),
            text("\t"),
            text("d"),
            breaks(1)
        ]
    );
    assert!(!state.within_table);
    assert!(!state.first_table_row);
}

#[test]
fn nested_table_resets_outer_flags() {
    let mut t = Tree::new();
    let outer = element(&mut t, None, ElementTag::Other, DisplayType::Table);
    let row = element(&mut t, Some(outer), ElementTag::Other, DisplayType::TableRow);
    let cell1 = element(&mut t, Some(row), ElementTag::Other, DisplayType::TableCell);
    build_table(&mut t, Some(cell1), &[&["x"]]);
    let cell2 = element(&mut t, Some(row), ElementTag::Other, DisplayType::TableCell);
    text_node(&mut t, cell2, "y");
    text_node(&mut t, row, "z");
    let (items, _) = run(&t, outer);
    assert_eq!(
        items,
        vec![
            breaks(1),
            breaks(1),
            text("stray"),
            text("\n"),
            text("x"),
            breaks(1),
            text("\t"),
            text("y"),
            text("z"),
            breaks(1)
        ]
    );
}

#[test]
fn invisible_subtree_yields_nothing() {
    let mut t = Tree::new();
    let mut hidden = StyleSnapshot::with_display(DisplayType::Block);
    hidden.visibility = Visibility::NotVisible;
    let div = styled(&mut t, None, ElementTag::Other, hidden);
    text_node(&mut t, div, "hidden");
    let inner = styled(&mut t, Some(div), ElementTag::Paragraph, hidden);
    text_node(&mut t, inner, "also hidden");
    let (items, state) = run(&t, div);
    assert!(items.is_empty());
    assert_eq!(state, RenderedTextCollectionState::new());
}

#[test]
fn visible_child_of_invisible_parent_shows() {
    let mut t = Tree::new();
    let mut hidden = StyleSnapshot::with_display(DisplayType::Block);
    hidden.visibility = Visibility::NotVisible;
    let div = styled(&mut t, None, ElementTag::Other, hidden);
    text_node(&mut t, div, "hidden");
    let span = element(&mut t, Some(div), ElementTag::Other, DisplayType::Inline);
    text_node(&mut t, span, "shown");
    let (items, _) = run(&t, div);
    assert_eq!(items, vec![text("shown")]);
}

#[test]
fn br_shows_inside_invisible_parent() {
    let mut t = Tree::new();
    let mut hidden = StyleSnapshot::with_display(DisplayType::Block);
    hidden.visibility = Visibility::NotVisible;
    let div = styled(&mut t, None, ElementTag::Other, hidden);
    element(&mut t, Some(div), ElementTag::Br, DisplayType::Inline);
    let (items, _) = run(&t, div);
    assert_eq!(items, vec![text("\n")]);
}

#[test]
fn options_render_on_their_own_lines() {
    let mut t = Tree::new();
    let select = element(&mut t, None, ElementTag::Select, DisplayType::InlineBlock);
    text_node(&mut t, select, "stray");
    let option = element(&mut t, Some(select), ElementTag::OptionItem, DisplayType::NotRendered);
    text_node(&mut t, option, "one");
    let group = element(&mut t, Some(select), ElementTag::OptGroup, DisplayType::Block);
    text_node(&mut t, group, "g");
    let (items, _) = run(&t, select);
    assert_eq!(items, vec![breaks(1), text("one"), breaks(1), breaks(1), text("g"), breaks(1)]);
}

#[test]
fn optgroup_outside_select_ignores_text() {
    let mut t = Tree::new();
    let div = element(&mut t, None, ElementTag::Other, DisplayType::Inline);
    let group = element(&mut t, Some(div), ElementTag::OptGroup, DisplayType::Inline);
    text_node(&mut t, group, "g");
    let (items, _) = run(&t, div);
    assert_eq!(items, vec![breaks(1), breaks(1)]);
}

#[test]
fn text_in_replaced_element_is_ignored() {
    let mut t = Tree::new();
    let canvas = element(&mut t, None, ElementTag::Canvas, DisplayType::Inline);
    text_node(&mut t, canvas, "fallback");
    let (items, _) = run(&t, canvas);
    assert!(items.is_empty());
}

#[test]
fn display_none_hides_text() {
    let mut t = Tree::new();
    let div = element(&mut t, None, ElementTag::Other, DisplayType::NotRendered);
    let n = text_node(&mut t, div, "gone");
    let (items, _) = run(&t, n);
    assert!(items.is_empty());
}

#[test]
fn unstyled_parent_hides_text() {
    let mut t = Tree::new();
    let div = t.add_node(None, NodeKind::Element(ElementTag::Other), None, "");
    text_node(&mut t, div, "gone");
    let (items, _) = run(&t, div);
    assert!(items.is_empty());
}

#[test]
fn parentless_text_is_verbatim() {
    let mut t = Tree::new();
    let n = t.add_node(None, NodeKind::Text, None, "  raw  ");
    let (items, _) = run(&t, n);
    assert_eq!(items, vec![text("  raw  ")]);
}

#[test]
fn disconnected_and_other_nodes_yield_nothing() {
    let mut t = Tree::new();
    let div = element(&mut t, None, ElementTag::Other, DisplayType::Block);
    text_node(&mut t, div, "x");
    t.set_connected(div, false);
    let other = t.add_node(None, NodeKind::Other, None, "");
    assert!(run(&t, div).0.is_empty());
    assert!(run(&t, other).0.is_empty());
    assert!(run(&t, 99).0.is_empty());
}

#[test]
fn inline_block_restores_deferred_space() {
    let mut t = Tree::new();
    let span = element(&mut t, None, ElementTag::Other, DisplayType::Inline);
    text_node(&mut t, span, "a ");
    let ib = element(&mut t, Some(span), ElementTag::Other, DisplayType::InlineBlock);
    text_node(&mut t, ib, " b");
    let (items, state) = run(&t, span);
    assert_eq!(items, vec![text("a"), text(" "), text("b")]);
    assert!(!state.may_start_with_whitespace);
}

#[test]
fn deferred_space_returns_before_next_text() {
    let mut t = Tree::new();
    let span = element(&mut t, None, ElementTag::Other, DisplayType::Inline);
    text_node(&mut t, span, "a ");
    let b = element(&mut t, Some(span), ElementTag::Other, DisplayType::Inline);
    text_node(&mut t, b, "b");
    let (items, _) = run(&t, span);
    assert_eq!(items, vec![text("a"), text(" "), text("b")]);
}

#[test]
fn absolute_position_counts_as_block() {
    let mut t = Tree::new();
    let mut style = StyleSnapshot::with_display(DisplayType::Inline);
    style.position = Position::Absolute;
    let div = styled(&mut t, None, ElementTag::Other, style);
    text_node(&mut t, div, "x");
    let (items, _) = run(&t, div);
    assert_eq!(items, vec![breaks(1), text("x"), breaks(1)]);
}

#[test]
fn preserved_text_keeps_its_spaces() {
    let mut t = Tree::new();
    let mut style = StyleSnapshot::with_display(DisplayType::Block);
    style.white_space_collapse = WhiteSpaceCollapse::Preserve;
    let pre = styled(&mut t, None, ElementTag::Other, style);
    text_node(&mut t, pre, "  a  ");
    let (items, _) = run(&t, pre);
    assert_eq!(items, vec![breaks(1), text("  a  "), breaks(1)]);
}

#[test]
fn text_transform_applies_to_text() {
    let mut t = Tree::new();
    let root = element(&mut t, None, ElementTag::Other, DisplayType::Inline);
    let mut upper = StyleSnapshot::with_display(DisplayType::Inline);
    upper.text_transform = TextTransform::Uppercase;
    let a = styled(&mut t, Some(root), ElementTag::Other, upper);
    text_node(&mut t, a, "straße ");
    let mut cap = StyleSnapshot::with_display(DisplayType::Inline);
    cap.text_transform = TextTransform::Capitalize;
    let b = styled(&mut t, Some(root), ElementTag::Other, cap);
    text_node(&mut t, b, "hello big world");
    let (items, _) = run(&t, root);
    assert_eq!(items, vec![text("STRASSE"), text(" "), text("Hello Big World")]);
}
