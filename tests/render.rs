use proxima::document::{Document, DocumentNode, RenderError, TextRun};
use proxima::json::JsonValue;
use proxima::render::{build_body, build_header, build_paragraph, build_text, render, render_node, render_run, TocItem};

fn s(text: &str) -> JsonValue {
    JsonValue::Str(text.to_string())
}

fn obj(members: Vec<(&str, JsonValue)>) -> JsonValue {
    JsonValue::Object(members.into_iter().map(|(k, v)| (k.to_string(), v)).collect())
}

fn run(text: &str) -> JsonValue {
    obj(vec![("text", s(text))])
}

fn body(children: Vec<JsonValue>) -> JsonValue {
    obj(vec![("children", JsonValue::Array(children))])
}

fn toc(title: &str, header: i64) -> TocItem {
    TocItem { title: title.to_string(), header }
}

fn missing(field: &str) -> RenderError {
    RenderError::MissingField(field.to_string())
}

#[test]
fn empty_document_renders_title_only() {
    let (html, items) = render("My article", &body(vec![])).unwrap();
    assert_eq!(html, "");
    assert_eq!(items, vec![toc("My article", 0)]);
}

#[test]
fn special_characters_are_escaped() {
    let doc = body(vec![obj(vec![("name", s("paragraph")), ("children", JsonValue::Array(vec![run("a < b && c > d")]))])]);
    let (html, _) = render("t", &doc).unwrap();
    assert_eq!(html, "<p class='fx-paragraph'><span >a &lt; b &amp;&amp; c &gt; d</span></p>");
    let inner = &html["<p class='fx-paragraph'><span >".len()..html.len() - "</span></p>".len()];
    assert!(!inner.contains('<') && !inner.contains('>'));
}

#[test]
fn header_text_is_escaped() {
    let doc = body(vec![obj(vec![("name", s("header")), ("header", JsonValue::Number(Some(1))), ("children", JsonValue::Array(vec![run("x<y")]))])]);
    let (html, items) = render("t", &doc).unwrap();
    assert_eq!(html, "<h1 id='x&lt;y'>x&lt;y</h1>");
    assert_eq!(items, vec![toc("t", 0), toc("x&lt;y", 1)]);
}

#[test]
fn rendering_is_deterministic() {
    let make = || {
        body(vec![
            obj(vec![("name", s("header")), ("header", JsonValue::Number(Some(3))), ("children", JsonValue::Array(vec![run("A"), run("B")]))]),
            obj(vec![("name", s("paragraph")), ("children", JsonValue::Array(vec![run("one\ntwo")]))]),
        ])
    };
    let first = render("doc", &make()).unwrap();
    let second = render("doc", &make()).unwrap();
    assert_eq!(first, second);
}

#[test]
fn plain_paragraph_renders_single_span() {
    let doc = body(vec![obj(vec![("name", s("paragraph")), ("children", JsonValue::Array(vec![run("hello")]))])]);
    let (html, items) = render("t", &doc).unwrap();
    assert_eq!(html, "<p class='fx-paragraph'><span >hello</span></p>");
    assert_eq!(items, vec![toc("t", 0)]);
}

#[test]
fn header_adds_one_entry_per_run() {
    let doc = body(vec![obj(vec![("name", s("header")), ("header", JsonValue::Number(Some(2))), ("children", JsonValue::Array(vec![run("A"), run("B")]))])]);
    let (html, items) = render("Title", &doc).unwrap();
    assert_eq!(html, "<h2 id='AB'>AB</h2>");
    assert_eq!(items, vec![toc("Title", 0), toc("A", 2), toc("AB", 2)]);
}

#[test]
fn nameless_node_fails_whole_document() {
    let doc = body(vec![
        obj(vec![("name", s("paragraph")), ("children", JsonValue::Array(vec![run("fine")]))]),
        obj(vec![("children", JsonValue::Array(vec![]))]),
        obj(vec![("name", s("image"))]),
    ]);
    assert_eq!(render("t", &doc), Err(missing("name")));
}

#[test]
fn name_of_wrong_type_counts_as_missing() {
    let doc = body(vec![obj(vec![("name", JsonValue::Number(Some(4)))])]);
    assert_eq!(render("t", &doc), Err(missing("name")));
}

#[test]
fn code_block_renders_literal() {
    let doc = body(vec![obj(vec![
        ("name", s("code-block")),
        ("children", JsonValue::Array(vec![run("fn main() {}")])),
        ("language", s("rust")),
    ])]);
    let (html, items) = render("t", &doc).unwrap();
    assert_eq!(html, "code-block");
    assert_eq!(items, vec![toc("t", 0)]);
}

#[test]
fn nodes_are_concatenated_in_order() {
    let doc = body(vec![
        obj(vec![("name", s("code-block"))]),
        obj(vec![("name", s("header")), ("header", JsonValue::Number(Some(1))), ("children", JsonValue::Array(vec![run("H")]))]),
        obj(vec![("name", s("paragraph")), ("children", JsonValue::Array(vec![run("p")]))]),
        obj(vec![("name", s("header")), ("header", JsonValue::Number(Some(2))), ("children", JsonValue::Array(vec![run("K")]))]),
    ]);
    let (html, items) = render("T", &doc).unwrap();
    assert_eq!(html, "code-block<h1 id='H'>H</h1><p class='fx-paragraph'><span >p</span></p><h2 id='K'>K</h2>");
    assert_eq!(items, vec![toc("T", 0), toc("H", 1), toc("K", 2)]);
}

#[test]
fn class_flags_join_without_separator() {
    let node = obj(vec![("text", s("x")), ("code", s("y")), ("italic", JsonValue::Bool(true)), ("bold", JsonValue::Null)]);
    assert_eq!(render_run(&node), Ok("<span  class='fx-boldfx-italicfx-code'>x</span>".to_string()));
}

#[test]
fn decoration_flags_join_without_separator() {
    let node = obj(vec![("text", s("x")), ("underline", s("1")), ("strike", s("1"))]);
    assert_eq!(render_run(&node), Ok("<span  style='text-decoration:line-throughunderline'>x</span>".to_string()));
}

#[test]
fn class_and_style_together() {
    let node = obj(vec![("text", s("x")), ("bold", s("1")), ("underline", s("1"))]);
    assert_eq!(render_run(&node), Ok("<span  class='fx-bold' style='text-decoration:underline'>x</span>".to_string()));
}

#[test]
fn flag_with_false_value_is_on() {
    let node = obj(vec![("text", s("x")), ("bold", JsonValue::Bool(false))]);
    assert_eq!(render_run(&node), Ok("<span  class='fx-bold'>x</span>".to_string()));
}

#[test]
fn paragraph_line_feeds_become_breaks() {
    let doc = body(vec![obj(vec![("name", s("paragraph")), ("children", JsonValue::Array(vec![run("a\nb\n"), run("c")]))])]);
    let (html, _) = render("t", &doc).unwrap();
    assert_eq!(html, "<p class='fx-paragraph'><span >a<br/>b<br/></span><span >c</span></p>");
}

#[test]
fn empty_paragraph() {
    let doc = body(vec![obj(vec![("name", s("paragraph")), ("children", JsonValue::Array(vec![]))])]);
    assert_eq!(render("t", &doc).unwrap().0, "<p class='fx-paragraph'></p>");
}

#[test]
fn empty_header_adds_no_entry() {
    let doc = body(vec![obj(vec![("name", s("header")), ("header", JsonValue::Number(Some(4))), ("children", JsonValue::Array(vec![]))])]);
    let (html, items) = render("t", &doc).unwrap();
    assert_eq!(html, "<h4 id=''></h4>");
    assert_eq!(items, vec![toc("t", 0)]);
}

#[test]
fn header_levels_in_decimal() {
    let doc = body(vec![
        obj(vec![("name", s("header")), ("header", JsonValue::Number(Some(-3))), ("children", JsonValue::Array(vec![run("n")]))]),
        obj(vec![("name", s("header")), ("header", JsonValue::Number(Some(120))), ("children", JsonValue::Array(vec![run("m")]))]),
        obj(vec![("name", s("header")), ("header", JsonValue::Number(Some(0))), ("children", JsonValue::Array(vec![run("z")]))]),
    ]);
    let (html, items) = render("t", &doc).unwrap();
    assert_eq!(html, "<h-3 id='n'>n</h-3><h120 id='m'>m</h120><h0 id='z'>z</h0>");
    assert_eq!(items, vec![toc("t", 0), toc("n", -3), toc("m", 120), toc("z", 0)]);
}

#[test]
fn extreme_header_levels() {
    let doc = body(vec![
        obj(vec![("name", s("header")), ("header", JsonValue::Number(Some(i64::MIN))), ("children", JsonValue::Array(vec![]))]),
        obj(vec![("name", s("header")), ("header", JsonValue::Number(Some(i64::MAX))), ("children", JsonValue::Array(vec![]))]),
    ]);
    let (html, _) = render("t", &doc).unwrap();
    assert_eq!(
        html,
        "<h-9223372036854775808 id=''></h-9223372036854775808><h9223372036854775807 id=''></h9223372036854775807>"
    );
}

#[test]
fn body_without_children_fails() {
    assert_eq!(render("t", &obj(vec![])), Err(missing("children")));
    assert_eq!(render("t", &JsonValue::Null), Err(missing("children")));
}

#[test]
fn paragraph_without_children_fails() {
    let doc = body(vec![obj(vec![("name", s("paragraph"))])]);
    assert_eq!(render("t", &doc), Err(missing("children")));
}

#[test]
fn header_without_level_fails() {
    let doc = body(vec![obj(vec![("name", s("header")), ("children", JsonValue::Array(vec![]))])]);
    assert_eq!(render("t", &doc), Err(missing("header")));
    let doc = body(vec![obj(vec![("name", s("header")), ("header", s("2")), ("children", JsonValue::Array(vec![]))])]);
    assert_eq!(render("t", &doc), Err(missing("header")));
    let doc = body(vec![obj(vec![("name", s("header")), ("header", JsonValue::Number(None)), ("children", JsonValue::Array(vec![]))])]);
    assert_eq!(render("t", &doc), Err(missing("header")));
}

#[test]
fn header_without_children_fails() {
    let doc = body(vec![obj(vec![("name", s("header")), ("header", JsonValue::Number(Some(2)))])]);
    assert_eq!(render("t", &doc), Err(missing("children")));
}

#[test]
fn run_without_text_fails() {
    let doc = body(vec![obj(vec![("name", s("paragraph")), ("children", JsonValue::Array(vec![run("ok"), obj(vec![("bold", s("1"))])]))])]);
    assert_eq!(render("t", &doc), Err(missing("text")));
    assert_eq!(render_run(&obj(vec![("text", JsonValue::Number(Some(1)))])), Err(missing("text")));
}

#[test]
fn unknown_kind_is_unsupported() {
    let doc = body(vec![obj(vec![("name", s("image"))])]);
    assert_eq!(render("t", &doc), Err(RenderError::UnsupportedNodeKind("image".to_string())));
}

#[test]
fn first_error_in_order_wins() {
    let doc = body(vec![
        obj(vec![("name", s("table"))]),
        obj(vec![("name", s("paragraph"))]),
    ]);
    assert_eq!(render("t", &doc), Err(RenderError::UnsupportedNodeKind("table".to_string())));
}

#[test]
fn first_member_of_a_name_is_read() {
    let node = obj(vec![("text", s("first")), ("text", s("second"))]);
    assert_eq!(render_run(&node), Ok("<span >first</span>".to_string()));
}

#[test]
fn render_node_adds_header_entries() {
    let mut items = vec![toc("t", 0)];
    let node = obj(vec![("name", s("header")), ("header", JsonValue::Number(Some(2))), ("children", JsonValue::Array(vec![run("A"), run("&")]))]);
    assert_eq!(render_node(&mut items, &node), Ok("<h2 id='A&amp;'>A&amp;</h2>".to_string()));
    assert_eq!(items, vec![toc("t", 0), toc("A", 2), toc("A&amp;", 2)]);
}

#[test]
fn render_node_error_leaves_entries() {
    let mut items = vec![toc("t", 0)];
    let node = obj(vec![("name", s("header")), ("header", JsonValue::Number(Some(2))), ("children", JsonValue::Array(vec![run("A"), obj(vec![])]))]);
    assert_eq!(render_node(&mut items, &node), Err(missing("text")));
    assert_eq!(items, vec![toc("t", 0)]);
}

#[test]
fn typed_document_builds() {
    let plain = |t: &str| TextRun { text: t.to_string(), bold: false, italic: false, underline: false, strike: false, code: false };
    let doc = Document {
        children: vec![
            DocumentNode::Header { level: 1, children: vec![plain("X"), plain("Y")] },
            DocumentNode::Paragraph { children: vec![plain("p&q")] },
            DocumentNode::CodeBlock,
        ],
    };
    let mut items = Vec::new();
    let html = build_body(&mut items, &doc);
    assert_eq!(html, "<h1 id='XY'>XY</h1><p class='fx-paragraph'><span >p&amp;q</span></p>code-block");
    assert_eq!(items, vec![toc("X", 1), toc("XY", 1)]);
    let mut more = Vec::new();
    assert_eq!(build_header(&mut more, 5, &vec![plain("a")]), "<h5 id='a'>a</h5>");
    assert_eq!(build_paragraph(&vec![plain(">")]), "<p class='fx-paragraph'><span >&gt;</span></p>");
    let styled = TextRun { text: "s".to_string(), bold: false, italic: false, underline: false, strike: true, code: true };
    assert_eq!(build_text(&styled), "<span  class='fx-code' style='text-decoration:line-through'>s</span>");
}

#[test]
fn decoding_typed_nodes() {
    let node = obj(vec![("name", s("header")), ("header", JsonValue::Number(Some(3))), ("children", JsonValue::Array(vec![obj(vec![("text", s("a")), ("strike", JsonValue::Null)])]))]);
    match DocumentNode::from_json(&node).unwrap() {
        DocumentNode::Header { level, children } => {
            assert_eq!(level, 3);
            assert_eq!(children.len(), 1);
            assert_eq!(children[0].text, "a");
            assert!(children[0].strike && !children[0].bold && !children[0].italic && !children[0].underline && !children[0].code);
        },
        other => panic!("unexpected node {:?}", other),
    }
    let run = TextRun::from_json(&obj(vec![("text", s("t")), ("underline", s("u"))])).unwrap();
    assert!(run.underline && !run.strike);
    assert_eq!(Document::from_json(&body(vec![])).unwrap().children.len(), 0);
}
