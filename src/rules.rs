//! The rules: what each one matches at the front of the buffer, how much it
//! consumes, and the node it builds.
use vstd::prelude::*;
use crate::node::{ASTNode, NodeView, node_view_of, view0, view1, view2, view3};
use crate::pattern::{captures, find_all, replace_all, to_json, to_lower, trim, lower_of, regex_captures,
    regex_find_all, regex_replace_all, trimmed, json_string_array};
use crate::state::{State, StateView, lookup_def};
use crate::text::{decimal, decimal_string, trailing_blank_line, blank_line_suffix, without_trailing, trim_trailing};

verus! {

pub const HEADING_RE: &'static str = r"^ *(#{1,6})([^\n]+?)#* *(?:\n *)+\n";
pub const LHEADING_RE: &'static str = r"^([^\n]+)\n *(=|-){3,} *(?:\n *)+\n";
pub const HR_RE: &'static str = r"^( *[*_-]){3,} *(?:\n *)+\n";
pub const CODE_BLOCK_RE: &'static str = r"^(?: {4}[^\n]+\n*)+(?:\n *)+\n";
pub const FENCE_RE: &'static str = r"^ *(`{3,}|~{3,}) *(?:(\S+) *)?\n([\S\s]+?)\n?\1 *(?:\n *)+\n";
pub const BLOCK_QUOTE_RE: &'static str = r"^( *>[^\n]+(\n[^\n]+)*\n*)+\n{2,}";
pub const LIST_RE: &'static str = r"^( *)((?:[*+-]|\d+\.))[^\S\n][\s\S]+?(?:\n{2,}(?! )(?!\1(?:[*+-]|\d+\.) )\n*|\s*\n*$)";
pub const LIST_ITEM_RE: &'static str = r"^( *)(?:[*+-]|\d+\.) +[^\n]*(?:\n(?!(?:[*+-]|\d+\.) )[^\n]*)*(\n|$)";
pub const LIST_BLOCK_END_RE: &'static str = r"\n{2,}$";
pub const DEF_RE: &'static str = r#"^ *\[([^\]]+)\]: *<?([^\s>]*)>?(?: +["(]([^\n]+)[")])? *(?:\n+|$)"#;
pub const NEWLINE_RE: &'static str = r"^(?:\n *)*\n";
pub const ESCAPE_RE: &'static str = r"^\\([^\d\sA-Za-z])";
pub const AUTOLINK_RE: &'static str = r"^<([^ :>]+:\/[^ >]+)>";
pub const MAILTO_RE: &'static str = r"^<([^ >]+@[^ >]+)>";
pub const MAILTO_SCHEME_RE: &'static str = r"(?i)mailto:";
pub const URL_RE: &'static str = r#"^(https?:\/\/[^\s<]+[^:\s<"'\)\]}])"#;
pub const LINK_RE: &'static str = r#"^\[((?:\[[^\]]*\]|[^\[\]]|\](?=[^\[]*\]))*)]\(((?:\s*<(?:[^<>]|\\.)*>|\s*(?:[^\s\\\)]|\\.)*?)(?:\s+["']([^"']*)["'])?\s*)\)"#;
pub const IMAGE_RE: &'static str = r#"^!\[((?:\[[^\]]*\]|[^\[\]]|\](?=[^\[]*\]))*)]\(((?:\s*<(?:[^<>]|\\.)*>|\s*(?:[^\s\\\)]|\\.)*?)(?:\s+["']([^"']*)["'])?\s*)\)"#;
pub const REFLINK_RE: &'static str = r"^\[((?:\[[^\]]*\]|[^\[\]]|\](?=[^\[]*\]))*)]\s*\[([^\]]*)]";
pub const REFIMAGE_RE: &'static str = r"^!\[((?:\[[^\]]*\]|[^\[\]]|\](?=[^\[]*\]))*)]\s*\[([^\]]*)]";
pub const EM_RE: &'static str = r"^\b_((?:__|\\[\s\S]|[^\\_])+?)_\b|^\*(?=\S)((?:\*\*|\\[\s\S]|\s+(?:\\[\s\S]|[^\s\*\\]|\*\*)|[^\s\*\\])+?)\*(?!\*)";
pub const STRONG_RE: &'static str = r"^(\*\*|__)((?:\\[\s\S]|[^\\]|(?!\1)[*_])+?)\1";
pub const U_RE: &'static str = r"^__((?:\\[\S\s]|[^\\])+?)__(?!_)";
pub const DEL_RE: &'static str = r"^~~(?=\S)((?:\\[\S\s]|~(?!~)|[^\s\\~]|\s(?!~~))+?)~~";
pub const INLINE_CODE_RE: &'static str = r"^(`+)([\S\s]*?[^`])\1(?!`)";
pub const BR_RE: &'static str = r"^ {2,}\n";
pub const PARAGRAPH_RE: &'static str = r"^((?:[^\n]|\n(?! *\n))+)(?:\n *)+\n";
pub const TEXT_RE: &'static str = r"^[\S\s]+?(?=[^\d\sA-Za-z\u00C0-\uFFFF]|\n\n| {2,}\n|\w+:\S|$)";
pub const UNESCAPE_RE: &'static str = r"\\([^\d\sA-Za-z])";

/// The constructs the rules recognise.
#[derive(Debug, Clone, Copy, PartialEq, Eq, Structural)]
pub enum RuleKind {
    Heading,
    LHeading,
    Hr,
    CodeBlock,
    Fence,
    BlockQuote,
    List,
    Def,
    Newline,
    Escape,
    Autolink,
    Mailto,
    Url,
    Link,
    Image,
    RefLink,
    RefImage,
    Em,
    Strong,
    U,
    Del,
    InlineCode,
    Br,
    Paragraph,
    Text,
}

/// A rule: what it recognises, and its priority (lower is tried first).
#[derive(Debug, Clone, Copy, PartialEq, Eq, Structural)]
pub struct Rule {
    pub order: u64,
    pub kind: RuleKind,
}

/// The pattern a rule matches the buffer against.
pub open spec fn pattern(kind: RuleKind) -> Seq<char> {
    match kind {
        RuleKind::Heading => HEADING_RE@,
        RuleKind::LHeading => LHEADING_RE@,
        RuleKind::Hr => HR_RE@,
        RuleKind::CodeBlock => CODE_BLOCK_RE@,
        RuleKind::Fence => FENCE_RE@,
        RuleKind::BlockQuote => BLOCK_QUOTE_RE@,
        RuleKind::List => LIST_RE@,
        RuleKind::Def => DEF_RE@,
        RuleKind::Newline => NEWLINE_RE@,
        RuleKind::Escape => ESCAPE_RE@,
        RuleKind::Autolink => AUTOLINK_RE@,
        RuleKind::Mailto => MAILTO_RE@,
        RuleKind::Url => URL_RE@,
        RuleKind::Link => LINK_RE@,
        RuleKind::Image => IMAGE_RE@,
        RuleKind::RefLink => REFLINK_RE@,
        RuleKind::RefImage => REFIMAGE_RE@,
        RuleKind::Em => EM_RE@,
        RuleKind::Strong => STRONG_RE@,
        RuleKind::U => U_RE@,
        RuleKind::Del => DEL_RE@,
        RuleKind::InlineCode => INLINE_CODE_RE@,
        RuleKind::Br => BR_RE@,
        RuleKind::Paragraph => PARAGRAPH_RE@,
        RuleKind::Text => TEXT_RE@,
    }
}

fn pattern_of(kind: RuleKind) -> (r: &'static str)
    ensures
        r@ == pattern(kind),
{
    match kind {
        RuleKind::Heading => HEADING_RE,
        RuleKind::LHeading => LHEADING_RE,
        RuleKind::Hr => HR_RE,
        RuleKind::CodeBlock => CODE_BLOCK_RE,
        RuleKind::Fence => FENCE_RE,
        RuleKind::BlockQuote => BLOCK_QUOTE_RE,
        RuleKind::List => LIST_RE,
        RuleKind::Def => DEF_RE,
        RuleKind::Newline => NEWLINE_RE,
        RuleKind::Escape => ESCAPE_RE,
        RuleKind::Autolink => AUTOLINK_RE,
        RuleKind::Mailto => MAILTO_RE,
        RuleKind::Url => URL_RE,
        RuleKind::Link => LINK_RE,
        RuleKind::Image => IMAGE_RE,
        RuleKind::RefLink => REFLINK_RE,
        RuleKind::RefImage => REFIMAGE_RE,
        RuleKind::Em => EM_RE,
        RuleKind::Strong => STRONG_RE,
        RuleKind::U => U_RE,
        RuleKind::Del => DEL_RE,
        RuleKind::InlineCode => INLINE_CODE_RE,
        RuleKind::Br => BR_RE,
        RuleKind::Paragraph => PARAGRAPH_RE,
        RuleKind::Text => TEXT_RE,
    }
}

/// The pattern groups a rule hands to its builder, in order.
pub open spec fn groups(kind: RuleKind) -> Seq<usize> {
    match kind {
        RuleKind::Heading => seq![1, 2],
        RuleKind::LHeading => seq![1, 2],
        RuleKind::Hr => seq![],
        RuleKind::CodeBlock => seq![0],
        RuleKind::Fence => seq![1, 2, 3],
        RuleKind::BlockQuote => seq![0],
        RuleKind::List => seq![0, 1, 2],
        RuleKind::Def => seq![1, 2, 3, 0],
        RuleKind::Newline => seq![],
        RuleKind::Escape => seq![1],
        RuleKind::Autolink => seq![1],
        RuleKind::Mailto => seq![1],
        RuleKind::Url => seq![0],
        RuleKind::Link => seq![0, 1, 2, 3],
        RuleKind::Image => seq![0, 1, 2, 3],
        RuleKind::RefLink => seq![1, 2, 0],
        RuleKind::RefImage => seq![1, 2, 0],
        RuleKind::Em => seq![1, 0],
        RuleKind::Strong => seq![0, 2],
        RuleKind::U => seq![0, 1],
        RuleKind::Del => seq![1],
        RuleKind::InlineCode => seq![0, 2],
        RuleKind::Br => seq![],
        RuleKind::Paragraph => seq![1],
        RuleKind::Text => seq![0],
    }
}

fn group_list(kind: RuleKind) -> (r: Vec<usize>)
    ensures
        r@ == groups(kind),
{
    let r: Vec<usize> = match kind {
        RuleKind::Heading => vec![1, 2],
        RuleKind::LHeading => vec![1, 2],
        RuleKind::Hr => vec![],
        RuleKind::CodeBlock => vec![0],
        RuleKind::Fence => vec![1, 2, 3],
        RuleKind::BlockQuote => vec![0],
        RuleKind::List => vec![0, 1, 2],
        RuleKind::Def => vec![1, 2, 3, 0],
        RuleKind::Newline => vec![],
        RuleKind::Escape => vec![1],
        RuleKind::Autolink => vec![1],
        RuleKind::Mailto => vec![1],
        RuleKind::Url => vec![0],
        RuleKind::Link => vec![0, 1, 2, 3],
        RuleKind::Image => vec![0, 1, 2, 3],
        RuleKind::RefLink => vec![1, 2, 0],
        RuleKind::RefImage => vec![1, 2, 0],
        RuleKind::Em => vec![1, 0],
        RuleKind::Strong => vec![0, 2],
        RuleKind::U => vec![0, 1],
        RuleKind::Del => vec![1],
        RuleKind::InlineCode => vec![0, 2],
        RuleKind::Br => vec![],
        RuleKind::Paragraph => vec![1],
        RuleKind::Text => vec![0],
    };
    assert(r@ =~= groups(kind));
    r
}

/// The text of group `i` of a pattern match; empty where the group is absent.
pub open spec fn group(g: Seq<Option<Seq<char>>>, i: int) -> Seq<char> {
    if 0 <= i < g.len() {
        match g[i] {
            Some(t) => t,
            None => Seq::empty(),
        }
    } else {
        Seq::empty()
    }
}

/// The groups `idx` of a pattern match, in that order.
pub open spec fn selected(g: Seq<Option<Seq<char>>>, idx: Seq<usize>) -> Seq<Seq<char>> {
    idx.map_values(|i: usize| group(g, i as int))
}

/// What `pattern` captures at the front of `text`, as the groups `idx`.
pub open spec fn captured(p: Seq<char>, text: Seq<char>, idx: Seq<usize>) -> Option<Seq<Seq<char>>> {
    match regex_captures(p, text) {
        Some(g) => Some(selected(g, idx)),
        None => None,
    }
}

/// The captures of a rule on the front of `src` in state `st`, or `None`
/// where it does not match. A paragraph never matches in inline mode; a
/// list matches only after a match whose last line is blank, and only inside
/// a list or in block mode. The list pattern is tried on that blank line's
/// spaces put before `src`.
pub open spec fn match_spec(kind: RuleKind, src: Seq<char>, st: StateView) -> Option<Seq<Seq<char>>> {
    match kind {
        RuleKind::Heading => match captured(HEADING_RE@, src, groups(kind)) {
            Some(c) => Some(c.update(1, trimmed(c[1]))),
            None => None,
        },
        RuleKind::List => if st.in_list || !st.inline {
            match trailing_blank_line(st.prev_capture) {
                Some(lead) => captured(LIST_RE@, lead + src, groups(kind)),
                None => None,
            }
        } else {
            None
        },
        RuleKind::Paragraph => if st.inline {
            None
        } else {
            captured(PARAGRAPH_RE@, src, groups(kind))
        },
        RuleKind::Em => match regex_captures(EM_RE@, src) {
            Some(g) => Some(seq![em_body(g), group(g, 0)]),
            None => None,
        },
        _ => captured(pattern(kind), src, groups(kind)),
    }
}

/// The emphasised text: the starred form's group where it took part, else
/// the underscored form's.
pub open spec fn em_body(g: Seq<Option<Seq<char>>>) -> Seq<char> {
    if 2 < g.len() && g[2] is Some {
        group(g, 2)
    } else {
        group(g, 1)
    }
}

fn group_text(g: &Vec<Option<String>>, i: usize) -> (r: String)
    ensures
        r@ == group(g.deep_view(), i as int),
{
    if i < g.len() {
        assert(g.deep_view()[i as int] == g@[i as int].deep_view());
        match &g[i] {
            Some(t) => t.clone(),
            None => String::new(),
        }
    } else {
        String::new()
    }
}

fn select(g: &Vec<Option<String>>, idx: &Vec<usize>) -> (r: Vec<String>)
    ensures
        r.deep_view() == selected(g.deep_view(), idx@),
{
    let mut r: Vec<String> = Vec::new();
    let mut j: usize = 0;
    while j < idx.len()
        invariant
            j <= idx@.len(),
            r@.len() == j,
            forall|k: int| 0 <= k < j ==> r@[k]@ == group(g.deep_view(), idx@[k] as int),
        decreases idx@.len() - j,
    {
        let t = group_text(g, idx[j]);
        r.push(t);
        j = j + 1;
    }
    assert(r.deep_view() =~= selected(g.deep_view(), idx@));
    r
}

fn capture_groups(p: &str, text: &str, kind: RuleKind) -> (r: Option<Vec<String>>)
    ensures
        r.deep_view() == captured(p@, text@, groups(kind)),
{
    match captures(p, text) {
        Some(g) => {
            let idx = group_list(kind);
            Some(select(&g, &idx))
        },
        None => None,
    }
}

/// Tries a rule on the front of `src`.
pub fn match_rule(kind: RuleKind, src: &str, state: &State) -> (r: Option<Vec<String>>)
    ensures
        r.deep_view() == match_spec(kind, src@, state@),
{
    match kind {
        RuleKind::Heading => {
            match capture_groups(HEADING_RE, src, kind) {
                Some(c) => {
                    assert(c.deep_view().len() == 2);
                    assert(c@.len() == c.deep_view().len());
                    assert(c.deep_view()[1] == c@[1]@ && c.deep_view()[0] == c@[0]@);
                    let t = trim(c[1].as_str());
                    let r = vec![c[0].clone(), t];
                    assert(r.deep_view() =~= c.deep_view().update(1, trimmed(c.deep_view()[1])));
                    Some(r)
                },
                None => None,
            }
        },
        RuleKind::List => {
            if state.in_list || !state.inline {
                match blank_line_suffix(state.prev_capture.as_str()) {
                    Some(lead) => {
                        let text = lead.concat(src);
                        capture_groups(LIST_RE, text.as_str(), kind)
                    },
                    None => None,
                }
            } else {
                None
            }
        },
        RuleKind::Paragraph => {
            if state.inline {
                None
            } else {
                capture_groups(PARAGRAPH_RE, src, kind)
            }
        },
        RuleKind::Em => {
            match captures(EM_RE, src) {
                Some(g) => {
                    let body = if 2 < g.len() && g[2].is_some() {
                        group_text(&g, 2)
                    } else {
                        group_text(&g, 1)
                    };
                    proof {
                        if 2 < g.len() {
                            assert(g.deep_view()[2] == g@[2].deep_view());
                        }
                    }
                    let r = vec![body, group_text(&g, 0)];
                    assert(r.deep_view() =~= seq![em_body(g.deep_view()), group(g.deep_view(), 0)]);
                    Some(r)
                },
                None => None,
            }
        },
        _ => capture_groups(pattern_of(kind), src, kind),
    }
}

/// Capture `i`, or the empty string past the end.
pub open spec fn cap(c: Seq<Seq<char>>, i: int) -> Seq<char> {
    if 0 <= i < c.len() {
        c[i]
    } else {
        Seq::empty()
    }
}

/// How many characters a rule asks to consume, given its captures. Unless a
/// rule says otherwise, that is the length of its first capture, or 1 where
/// it has none.
pub open spec fn len_spec(kind: RuleKind, c: Seq<Seq<char>>) -> nat {
    match kind {
        RuleKind::Heading => 2 + cap(c, 1).len(),
        RuleKind::Hr => 1,
        RuleKind::Fence => 3 + cap(c, 0).len() + cap(c, 1).len() + cap(c, 2).len(),
        RuleKind::Def => cap(c, 3).len(),
        RuleKind::Escape => 1 + cap(c, 0).len(),
        RuleKind::Autolink => 2 + cap(c, 0).len(),
        RuleKind::Mailto => 2 + cap(c, 0).len(),
        RuleKind::RefLink => cap(c, 2).len(),
        RuleKind::RefImage => cap(c, 2).len(),
        RuleKind::Em => cap(c, 1).len(),
        RuleKind::Del => 4 + cap(c, 0).len(),
        _ => if c.len() > 0 {
            c[0].len()
        } else {
            1
        },
    }
}

fn cap_str(c: &Vec<String>, i: usize) -> (r: String)
    ensures
        r@ == cap(c.deep_view(), i as int),
{
    if i < c.len() {
        assert(c.deep_view()[i as int] == c@[i as int]@);
        c[i].clone()
    } else {
        String::new()
    }
}

fn cap_len(c: &Vec<String>, i: usize) -> (r: usize)
    ensures
        r == cap(c.deep_view(), i as int).len(),
{
    if i < c.len() {
        assert(c.deep_view()[i as int] == c@[i as int]@);
        c[i].as_str().unicode_len()
    } else {
        0
    }
}

/// How many characters a rule asks to consume (see `len_spec`).
pub fn capture_len(kind: RuleKind, c: &Vec<String>) -> (r: u128)
    ensures
        r == len_spec(kind, c.deep_view()),
{
    match kind {
        RuleKind::Heading => 2 + cap_len(c, 1) as u128,
        RuleKind::Hr => 1,
        RuleKind::Fence => 3 + cap_len(c, 0) as u128 + cap_len(c, 1) as u128 + cap_len(c, 2) as u128,
        RuleKind::Def => cap_len(c, 3) as u128,
        RuleKind::Escape => 1 + cap_len(c, 0) as u128,
        RuleKind::Autolink => 2 + cap_len(c, 0) as u128,
        RuleKind::Mailto => 2 + cap_len(c, 0) as u128,
        RuleKind::RefLink => cap_len(c, 2) as u128,
        RuleKind::RefImage => cap_len(c, 2) as u128,
        RuleKind::Em => cap_len(c, 1) as u128,
        RuleKind::Del => 4 + cap_len(c, 0) as u128,
        _ => if c.len() > 0 {
            cap_len(c, 0) as u128
        } else {
            1
        },
    }
}

/// The text of a boolean field.
pub open spec fn bool_text(b: bool) -> Seq<char> {
    if b {
        "true"@
    } else {
        "false"@
    }
}

/// The link target of an address in angle brackets: `mailto:` is put in
/// front unless the address already names that scheme.
pub open spec fn mailto_spec(address: Seq<char>, has_scheme: bool) -> Seq<char> {
    if has_scheme {
        address
    } else {
        "mailto:"@ + address
    }
}

/// Builds the target of a mail link from the address and whether it already
/// holds `mailto:` (in any case).
pub fn mailto_target(address: &str, has_scheme: bool) -> (r: String)
    ensures
        r@ == mailto_spec(address@, has_scheme),
{
    if has_scheme {
        String::from_str(address)
    } else {
        String::from_str("mailto:").concat(address)
    }
}

/// Whether an address already holds the `mailto:` scheme, in any case.
pub open spec fn has_mailto_scheme(address: Seq<char>) -> bool {
    regex_captures(MAILTO_SCHEME_RE@, address) is Some
}

/// A link target with its backslash escapes of punctuation undone.
pub open spec fn unescaped(s: Seq<char>) -> Seq<char> {
    regex_replace_all(UNESCAPE_RE@, s, "$1"@)
}

/// Undoes the backslash escapes of punctuation in a link target.
fn unescape_url(raw: &str) -> (r: String)
    ensures
        r@ == unescaped(raw@),
{
    replace_all(UNESCAPE_RE, raw, "$1")
}

/// The raw items of a list block, as a JSON array of strings.
pub open spec fn list_items(block: Seq<char>) -> Seq<char> {
    json_string_array(regex_find_all(LIST_ITEM_RE@, regex_replace_all(LIST_BLOCK_END_RE@, block, "\n"@)))
}

/// The start number of a list: the bullet without its dot when the list is
/// ordered, else empty.
pub open spec fn list_start(bullet: Seq<char>) -> Seq<char> {
    if bullet.len() > 1 {
        without_trailing(bullet, '.')
    } else {
        Seq::empty()
    }
}

/// The node a rule builds from its captures in state `st`; `None` for a
/// reference whose label has no definition.
pub open spec fn build_spec(kind: RuleKind, c: Seq<Seq<char>>, st: StateView) -> Option<NodeView> {
    match kind {
        RuleKind::Heading => Some(view2("heading"@, "level"@, decimal(cap(c, 0).len()), "content"@, cap(c, 1))),
        RuleKind::LHeading => Some(view2("heading"@, "level"@, if cap(c, 1) == "="@ { "1"@ } else { "2"@ }, "content"@, cap(c, 0))),
        RuleKind::Hr => Some(view0("hr"@)),
        RuleKind::CodeBlock => Some(view1("codeBlock"@, "content"@, without_trailing(cap(c, 0), '\n'))),
        RuleKind::Fence => Some(view2("codeBlock"@, "lang"@, cap(c, 1), "content"@, cap(c, 2))),
        RuleKind::BlockQuote => Some(view1("blockQuote"@, "content"@, cap(c, 0))),
        RuleKind::List => Some(view3("list"@, "ordered"@, bool_text(cap(c, 2).len() > 1),
            "start"@, list_start(cap(c, 2)), "items"@, list_items(cap(c, 0)))),
        RuleKind::Def => Some(view3("def"@, "def"@, lower_of(cap(c, 0)), "target"@, cap(c, 1), "title"@, cap(c, 2))),
        RuleKind::Newline => Some(view0("newline"@)),
        RuleKind::Escape => Some(view1("text"@, "content"@, cap(c, 0))),
        RuleKind::Autolink => Some(view2("link"@, "content"@, cap(c, 0), "target"@, cap(c, 0))),
        RuleKind::Mailto => Some(view2("link"@, "content"@, cap(c, 0), "target"@,
            mailto_spec(cap(c, 0), has_mailto_scheme(cap(c, 0))))),
        RuleKind::Url => Some(view3("link"@, "content"@, cap(c, 0), "target"@, cap(c, 0), "inline"@, "true"@)),
        RuleKind::Link => Some(view3("link"@, "content"@, cap(c, 1), "target"@, unescaped(cap(c, 2)), "title"@, cap(c, 3))),
        RuleKind::Image => Some(view3("image"@, "alt"@, cap(c, 1), "target"@, unescaped(cap(c, 2)), "title"@, cap(c, 3))),
        RuleKind::RefLink => match lookup_def(st.defs, lower_of(cap(c, 1))) {
            Some(d) => Some(view3("link"@, "content"@, cap(c, 0), "target"@, d.0, "title"@, d.1)),
            None => None,
        },
        RuleKind::RefImage => match lookup_def(st.defs, lower_of(cap(c, 1))) {
            Some(d) => Some(view3("image"@, "alt"@, cap(c, 0), "target"@, d.0, "title"@, d.1)),
            None => None,
        },
        RuleKind::Em => Some(view2("em"@, "content"@, cap(c, 0), "inline"@, "true"@)),
        RuleKind::Strong => Some(view1("strong"@, "content"@, cap(c, 1))),
        RuleKind::U => Some(view2("u"@, "content"@, cap(c, 1), "inline"@, "true"@)),
        RuleKind::Del => Some(view2("del"@, "content"@, cap(c, 0), "inline"@, "true"@)),
        RuleKind::InlineCode => Some(view1("inlineCode"@, "content"@, cap(c, 1))),
        RuleKind::Br => Some(view0("br"@)),
        RuleKind::Paragraph => Some(view1("paragraph"@, "content"@, cap(c, 0))),
        RuleKind::Text => Some(view2("text"@, "content"@, cap(c, 0), "inline"@, "true"@)),
    }
}

/// The state after a rule has built its node: a definition registers its
/// lower-cased label; no other rule changes the state.
pub open spec fn state_after(kind: RuleKind, c: Seq<Seq<char>>, st: StateView) -> StateView {
    if kind == RuleKind::Def {
        StateView { defs: st.defs.push((lower_of(cap(c, 0)), cap(c, 1), cap(c, 2))), ..st }
    } else {
        st
    }
}

/// Builds the node of a rule from its captures (see `build_spec`), and
/// registers a definition.
pub fn build(kind: RuleKind, c: &Vec<String>, state: &mut State) -> (r: Option<ASTNode>)
    ensures
        node_view_of(r) == build_spec(kind, c.deep_view(), old(state)@),
        final(state)@ == state_after(kind, c.deep_view(), old(state)@),
{
    match kind {
        RuleKind::Heading => {
            let level = decimal_string(cap_len(c, 0));
            Some(ASTNode::with2("heading", "level", level, "content", cap_str(c, 1)))
        },
        RuleKind::LHeading => {
            let underline = cap_str(c, 1);
            let level = if underline == String::from_str("=") {
                String::from_str("1")
            } else {
                String::from_str("2")
            };
            Some(ASTNode::with2("heading", "level", level, "content", cap_str(c, 0)))
        },
        RuleKind::Hr => Some(ASTNode::leaf("hr")),
        RuleKind::CodeBlock => {
            let body = cap_str(c, 0);
            Some(ASTNode::with1("codeBlock", "content", trim_trailing(body.as_str(), '\n')))
        },
        RuleKind::Fence => Some(ASTNode::with2("codeBlock", "lang", cap_str(c, 1), "content", cap_str(c, 2))),
        RuleKind::BlockQuote => Some(ASTNode::with1("blockQuote", "content", cap_str(c, 0))),
        RuleKind::List => {
            let block = cap_str(c, 0);
            let bullet = cap_str(c, 2);
            let ordered = bullet.as_str().unicode_len() > 1;
            let start = if ordered {
                trim_trailing(bullet.as_str(), '.')
            } else {
                String::new()
            };
            let body = replace_all(LIST_BLOCK_END_RE, block.as_str(), "\n");
            let items = find_all(LIST_ITEM_RE, body.as_str());
            let ordered_text = if ordered {
                String::from_str("true")
            } else {
                String::from_str("false")
            };
            Some(ASTNode::with3("list", "ordered", ordered_text, "start", start, "items", to_json(&items)))
        },
        RuleKind::Def => {
            let label = cap_str(c, 0);
            let key = to_lower(label.as_str());
            let target = cap_str(c, 1);
            let title = cap_str(c, 2);
            state.define(key.clone(), target.clone(), title.clone());
            Some(ASTNode::with3("def", "def", key, "target", target, "title", title))
        },
        RuleKind::Newline => Some(ASTNode::leaf("newline")),
        RuleKind::Escape => Some(ASTNode::with1("text", "content", cap_str(c, 0))),
        RuleKind::Autolink => Some(ASTNode::with2("link", "content", cap_str(c, 0), "target", cap_str(c, 0))),
        RuleKind::Mailto => {
            let address = cap_str(c, 0);
            let has_scheme = captures(MAILTO_SCHEME_RE, address.as_str()).is_some();
            let target = mailto_target(address.as_str(), has_scheme);
            Some(ASTNode::with2("link", "content", address, "target", target))
        },
        RuleKind::Url => Some(ASTNode::with3("link", "content", cap_str(c, 0), "target", cap_str(c, 0),
            "inline", String::from_str("true"))),
        RuleKind::Link => {
            let target = unescape_url(cap_str(c, 2).as_str());
            Some(ASTNode::with3("link", "content", cap_str(c, 1), "target", target, "title", cap_str(c, 3)))
        },
        RuleKind::Image => {
            let target = unescape_url(cap_str(c, 2).as_str());
            Some(ASTNode::with3("image", "alt", cap_str(c, 1), "target", target, "title", cap_str(c, 3)))
        },
        RuleKind::RefLink => {
            let key = to_lower(cap_str(c, 1).as_str());
            match state.lookup(key.as_str()) {
                Some((target, title)) => Some(ASTNode::with3("link", "content", cap_str(c, 0), "target", target, "title", title)),
                None => None,
            }
        },
        RuleKind::RefImage => {
            let key = to_lower(cap_str(c, 1).as_str());
            match state.lookup(key.as_str()) {
                Some((target, title)) => Some(ASTNode::with3("image", "alt", cap_str(c, 0), "target", target, "title", title)),
                None => None,
            }
        },
        RuleKind::Em => Some(ASTNode::with2("em", "content", cap_str(c, 0), "inline", String::from_str("true"))),
        RuleKind::Strong => Some(ASTNode::with1("strong", "content", cap_str(c, 1))),
        RuleKind::U => Some(ASTNode::with2("u", "content", cap_str(c, 1), "inline", String::from_str("true"))),
        RuleKind::Del => Some(ASTNode::with2("del", "content", cap_str(c, 0), "inline", String::from_str("true"))),
        RuleKind::InlineCode => Some(ASTNode::with1("inlineCode", "content", cap_str(c, 1))),
        RuleKind::Br => Some(ASTNode::leaf("br")),
        RuleKind::Paragraph => Some(ASTNode::with1("paragraph", "content", cap_str(c, 0))),
        RuleKind::Text => Some(ASTNode::with2("text", "content", cap_str(c, 0), "inline", String::from_str("true"))),
    }
}

} // verus!
