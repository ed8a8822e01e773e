use simple_markdown_rs::{
    create_default_rules, mailto_target, parser_for, preprocess, ASTNode, Rule, RuleKind, RuleMap, State,
};

fn parse_text(input: &str) -> Vec<ASTNode> {
    parser_for(create_default_rules()).parse(input, None)
}

fn inline_state(in_list: bool) -> State {
    let mut st = State::default();
    st.inline = true;
    st.in_list = in_list;
    st
}

#[test]
fn reference_link_resolves_through_definition() {
    let result = parse_text("[foo]: /bar \"Baz\"\n\n[text][foo]");
    let links: Vec<&ASTNode> = result.iter().filter(|n| n.get("type") == "link").collect();
    assert_eq!(links.len(), 1);
    assert_eq!(links[0].get("content"), "text");
    assert_eq!(links[0].get("target"), "/bar");
    assert_eq!(links[0].get("title"), "Baz");
}

#[test]
fn reference_label_is_case_insensitive() {
    let result = parse_text("[FOO]: /bar\n\n[text][foo]");
    assert_eq!(result[0].get("type"), "def");
    assert_eq!(result[0].get("def"), "foo");
    let links: Vec<&ASTNode> = result.iter().filter(|n| n.get("type") == "link").collect();
    assert_eq!(links.len(), 1);
    assert_eq!(links[0].get("target"), "/bar");
}

#[test]
fn unresolved_reference_emits_no_node() {
    let result = parse_text("[text][missing]");
    assert!(result.is_empty());
}

#[test]
fn reference_image_resolves() {
    let result = parse_text("[logo]: /img.png\n\n![alt][logo]");
    let images: Vec<&ASTNode> = result.iter().filter(|n| n.get("type") == "image").collect();
    assert_eq!(images.len(), 1);
    assert_eq!(images[0].get("alt"), "alt");
    assert_eq!(images[0].get("target"), "/img.png");
}

#[test]
fn escape_gives_single_literal_text_node() {
    let result = parse_text("\\*");
    assert_eq!(result.len(), 1);
    assert_eq!(result[0].get("type"), "text");
    assert_eq!(result[0].get("content"), "*");
}

#[test]
fn mailto_prefix_not_doubled() {
    let result = parse_text("<mailto:user@example.com>");
    assert_eq!(result[0].get("type"), "link");
    assert_eq!(result[0].get("target"), "mailto:user@example.com");
}

#[test]
fn mailto_target_values() {
    assert_eq!(mailto_target("user@example.com", false), "mailto:user@example.com");
    assert_eq!(mailto_target("MAILTO:user@example.com", true), "MAILTO:user@example.com");
}

#[test]
fn mailto_scheme_check_ignores_case() {
    let result = parse_text("<MailTo:user@example.com>");
    assert_eq!(result[0].get("target"), "MailTo:user@example.com");
}

#[test]
fn paragraph_suppressed_in_inline_mode() {
    let parser = parser_for(create_default_rules());
    let result = parser.parse("This is a paragraph\n\n", Some(inline_state(false)));
    assert_eq!(result[0].get("type"), "text");
    assert_eq!(result[0].get("content"), "This is a paragraph");
    assert!(result.iter().all(|n| n.get("type") != "paragraph"));
}

#[test]
fn list_needs_block_mode_or_list_context() {
    let parser = parser_for(create_default_rules());
    let inline = parser.parse("* item 1\n\n", Some(inline_state(false)));
    assert!(inline.iter().all(|n| n.get("type") != "list"));
    let nested = parser.parse("* item 1\n\n", Some(inline_state(true)));
    assert_eq!(nested[0].get("type"), "list");
}

#[test]
fn list_after_text_on_same_line_is_not_a_list() {
    let parser = parser_for(create_default_rules());
    let mut st = State::default();
    st.prev_capture = "some text".to_string();
    let result = parser.parse("* item 1\n\n", Some(st));
    assert!(result.iter().all(|n| n.get("type") != "list"));
}

#[test]
fn list_items_and_start() {
    let result = parse_text("1. item 1\n2. item 2\n\n");
    assert_eq!(result[0].get("start"), "1");
    let bullets = parse_text("* item 1\n* item 2\n\n");
    assert_eq!(bullets[0].get("start"), "");
    assert_eq!(bullets[0].get("items"), "[\"* item 1\\n\"]");
}

#[test]
fn repeated_parses_are_identical() {
    let parser = parser_for(create_default_rules());
    let input = "# Title\n\nSome *text* with `code` and https://example.com\n\n";
    let a = parser.parse(input, None);
    let b = parser.parse(input, None);
    assert_eq!(format!("{:?}", a), format!("{:?}", b));
}

#[test]
fn unmatched_characters_are_dropped_one_at_a_time() {
    let mut table = RuleMap::new();
    table.insert("newline".to_string(), Rule { order: 1, kind: RuleKind::Newline });
    let parser = parser_for(table);
    let result = parser.parse("ab\ncd\n", None);
    assert_eq!(result.len(), 2);
    assert!(result.iter().all(|n| n.get("type") == "newline"));
}

#[test]
fn lowest_order_wins() {
    let mut table = create_default_rules();
    table.insert("text".to_string(), Rule { order: 0, kind: RuleKind::Text });
    assert_eq!(table.len(), 25);
    let parser = parser_for(table);
    assert_eq!(parser.rules[0].kind, RuleKind::Text);
    let result = parser.parse("**bold**", None);
    assert_eq!(result[0].get("type"), "text");
}

#[test]
fn equal_orders_keep_table_order() {
    let mut table = RuleMap::new();
    table.insert("b".to_string(), Rule { order: 5, kind: RuleKind::Strong });
    table.insert("a".to_string(), Rule { order: 5, kind: RuleKind::Em });
    table.insert("c".to_string(), Rule { order: 1, kind: RuleKind::Text });
    let parser = parser_for(table);
    let kinds: Vec<RuleKind> = parser.rules.iter().map(|r| r.kind).collect();
    assert_eq!(kinds, vec![RuleKind::Text, RuleKind::Strong, RuleKind::Em]);
}

#[test]
fn default_table_has_all_rules() {
    let table = create_default_rules();
    assert_eq!(table.len(), 25);
    assert_eq!(table.entries[0].name, "heading");
    assert_eq!(table.entries[24].name, "text");
    assert_eq!(table.entries[24].rule.order, 25);
}

#[test]
fn preprocess_normalises() {
    assert_eq!(preprocess("a\r\nb\rc\u{000C}d\te"), "a\nb\ncd    e");
    assert_eq!(preprocess(""), "");
}

#[test]
fn heading_level_counts_hashes() {
    let result = parse_text("###### Six\n\n");
    assert_eq!(result[0].get("level"), "6");
    assert_eq!(result[0].get("content"), "Six");
}

#[test]
fn setext_dash_underline_is_level_two() {
    let result = parse_text("Heading\n---\n\n");
    assert_eq!(result[0].get("type"), "heading");
    assert_eq!(result[0].get("level"), "2");
}

#[test]
fn indented_code_drops_trailing_newlines() {
    let result = parse_text("    code\n\n");
    assert_eq!(result[0].get("type"), "codeBlock");
    assert_eq!(result[0].get("content"), "    code");
}

#[test]
fn link_target_is_unescaped() {
    let result = parse_text("[a](x\\_y)");
    assert_eq!(result[0].get("type"), "link");
    assert_eq!(result[0].get("target"), "x_y");
}

#[test]
fn strong_underline_and_del() {
    assert_eq!(parse_text("__under__")[0].get("type"), "strong");
    assert_eq!(parse_text("~~gone~~")[0].get("inline"), "true");
}

#[test]
fn definitions_are_appended() {
    let mut st = State::default();
    st.define("k".to_string(), "/t".to_string(), "".to_string());
    st.define("k".to_string(), "/u".to_string(), "T".to_string());
    assert_eq!(st.lookup("k"), Some(("/u".to_string(), "T".to_string())));
    assert_eq!(st.lookup("z"), None);
    assert_eq!(st.defs.len(), 2);
}

#[test]
fn removing_a_rule_changes_the_grammar() {
    let mut table = create_default_rules();
    let gone = table.remove("strong");
    assert_eq!(gone, Some(Rule { order: 19, kind: RuleKind::Strong }));
    assert_eq!(table.len(), 24);
    assert_eq!(table.remove("strong"), None);
    let result = parser_for(table).parse("**bold**", None);
    assert!(result.iter().all(|n| n.get("type") != "strong"));
}

#[test]
fn nested_parse_shares_definitions() {
    let parser = parser_for(create_default_rules());
    let mut st = State::default();
    let outer = parser.parse_in("[foo]: /bar \"Baz\"\n\n", &mut st);
    assert_eq!(outer[0].get("type"), "def");
    assert_eq!(st.lookup("foo"), Some(("/bar".to_string(), "Baz".to_string())));
    let inner = parser.parse_in("[text][foo]", &mut st);
    assert_eq!(inner.len(), 1);
    assert_eq!(inner[0].get("target"), "/bar");
    assert_eq!(st.prev_capture, "[text][foo]");
}
