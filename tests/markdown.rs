use simple_markdown_rs::{create_default_rules, parser_for, ASTNode};

fn parse_text(input: &str) -> Vec<ASTNode> {
    let rules = create_default_rules();
    let parser = parser_for(rules);
    parser.parse(input, None)
}

#[test]
fn test_heading() {
    let result = parse_text("# Heading 1\n\n");
    assert_eq!(result[0].get("type"), "heading");
    assert_eq!(result[0].get("level"), "1");
    assert_eq!(result[0].get("content"), "Heading 1");
}

#[test]
fn test_lheading() {
    let result = parse_text("Heading 1\n=======\n\n");
    assert_eq!(result[0].get("type"), "heading");
    assert_eq!(result[0].get("level"), "1");
}

#[test]
fn test_hr() {
    let result = parse_text("---\n\n");
    assert_eq!(result[0].get("type"), "hr");
}

#[test]
fn test_codeblock() {
    let result = parse_text("```js\ncode block\n```\n\n");
    assert_eq!(result[0].get("type"), "codeBlock");
    assert_eq!(result[0].get("content"), "code block");
    assert_eq!(result[0].get("lang"), "js");
}

#[test]
fn test_fence() {
    let result = parse_text("~~~js\ncode block\n~~~\n\n");
    assert_eq!(result[0].get("type"), "codeBlock");
    assert_eq!(result[0].get("content"), "code block");
    assert_eq!(result[0].get("lang"), "js");
}

#[test]
fn test_blockquote() {
    let result = parse_text("> quote\n\n");
    assert_eq!(result[0].get("type"), "blockQuote");
}

#[test]
fn test_list() {
    let result = parse_text("* item 1\n* item 2\n\n");
    assert_eq!(result[0].get("type"), "list");
    assert_eq!(result[0].get("ordered"), "false");
}

#[test]
fn test_ordered_list() {
    let result = parse_text("1. item 1\n2. item 2\n\n");
    assert_eq!(result[0].get("type"), "list");
    assert_eq!(result[0].get("ordered"), "true");
}

#[test]
fn test_link() {
    let result = parse_text("[text](https://example.com)");
    assert_eq!(result[0].get("type"), "link");
    assert_eq!(result[0].get("content"), "text");
    assert_eq!(result[0].get("target"), "https://example.com");
}

#[test]
fn test_image() {
    let result = parse_text("![alt](image.jpg)");
    assert_eq!(result[0].get("type"), "image");
    assert_eq!(result[0].get("alt"), "alt");
    assert_eq!(result[0].get("target"), "image.jpg");
}

#[test]
fn test_strong() {
    let result = parse_text("**bold**");
    assert_eq!(result[0].get("type"), "strong");
    assert_eq!(result[0].get("content"), "bold");
}

#[test]
fn test_em() {
    let result = parse_text("*italic*");
    assert_eq!(result[0].get("type"), "em");
    assert_eq!(result[0].get("content"), "italic");
}

#[test]
fn test_inline_code() {
    let result = parse_text("`code`");
    assert_eq!(result[0].get("type"), "inlineCode");
    assert_eq!(result[0].get("content"), "code");
}

#[test]
fn test_url() {
    let result = parse_text("https://example.com");
    assert_eq!(result[0].get("type"), "link");
    assert_eq!(result[0].get("target"), "https://example.com");
}

#[test]
fn test_autolink() {
    let result = parse_text("<https://example.com>");
    assert_eq!(result[0].get("type"), "link");
    assert_eq!(result[0].get("target"), "https://example.com");
}

#[test]
fn test_mailto() {
    let result = parse_text("<user@example.com>");
    assert_eq!(result[0].get("type"), "link");
    assert_eq!(result[0].get("target"), "mailto:user@example.com");
}

#[test]
fn test_paragraph() {
    let result = parse_text("This is a paragraph\n\n");
    assert_eq!(result[0].get("type"), "paragraph");
    assert!(result[0].get("content").contains("This is a paragraph"));
}

#[test]
fn test_escape() {
    let result = parse_text(r#"\*not italic\*"#);
    assert_eq!(result[0].get("type"), "text");
    assert_eq!(result[0].get("content"), "*");
}

#[test]
fn test_del() {
    let result = parse_text("~~strikethrough~~");
    assert_eq!(result[0].get("type"), "del");
    assert_eq!(result[0].get("content"), "strikethrough");
}

#[test]
fn test_multiple_elements() {
    let result = parse_text("# Heading\n\n**strong**\n_italic_\n\n");
    println!("{:?}", result);
    assert_eq!(result[0].get("type"), "heading");
    assert_eq!(result[0].get("content"), "Heading");
    assert_eq!(result[1].get("type"), "newline");
    assert_eq!(result[2].get("type"), "newline");
    assert_eq!(result[3].get("type"), "strong");
    assert_eq!(result[3].get("content"), "strong");
    assert_eq!(result[4].get("type"), "newline");
    assert_eq!(result[5].get("type"), "em");
    assert_eq!(result[5].get("content"), "italic");
    assert_eq!(result[6].get("type"), "newline");
    assert_eq!(result[7].get("type"), "newline");
    assert_eq!(result.len(), 8);
}

#[test]
fn heading_level_one_in_full_scenario() {
    let result = parse_text("# Heading\n\n**strong**\n_italic_\n\n");
    assert_eq!(result[0].get("level"), "1");
}

#[test]
fn missing_field_reads_empty() {
    let result = parse_text("---\n\n");
    assert_eq!(result[0].get("content"), "");
}

#[test]
fn empty_input_gives_no_nodes() {
    assert!(parse_text("").is_empty());
}
