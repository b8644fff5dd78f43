//! Rendering of a typed article body into HTML and a table of contents.
use vstd::prelude::*;
use vstd::string::StringExecFns;
use vstd::utf8::encode_utf8;
use crate::document::{
    decode_document, decode_nodes, lemma_decode_nodes_error_prefix, decode_node, decode_run, nodes_view, runs_view, Document, DocumentNode,
    ErrorModel, NodeModel, RenderError, RunModel, TextRun,
};
use crate::html::{
    br_lines, builder_append, builder_bytes, builder_string, encode_text, escape_char, escape_text,
    lemma_encode_utf8_concat, new_builder, replace_newlines,
};
use crate::json::JsonValue;

verus! {

/// An entry of an article's table of contents.
#[derive(Debug, Clone, PartialEq, Eq)]
pub struct TocItem {
    pub title: String,
    /// The heading level; the entry for the article itself has level 0.
    pub header: i64,
}

/// A table-of-contents entry as a mathematical value.
pub struct TocEntry {
    pub title: Seq<char>,
    pub header: i64,
}

impl View for TocItem {
    type V = TocEntry;

    open spec fn view(&self) -> TocEntry {
        TocEntry { title: self.title@, header: self.header }
    }
}

/// The models of a sequence of table-of-contents items.
pub open spec fn toc_view(items: Seq<TocItem>) -> Seq<TocEntry> {
    items.map_values(|t: TocItem| t@)
}

/// The class tokens of a run, run together in the order bold, italic, code.
pub open spec fn class_names(r: RunModel) -> Seq<char> {
    (if r.bold { "fx-bold"@ } else { Seq::empty() }) + (if r.italic {
        "fx-italic"@
    } else {
        Seq::empty()
    }) + (if r.code { "fx-code"@ } else { Seq::empty() })
}

/// The text decorations of a run, run together in the order strike, underline.
pub open spec fn decorations(r: RunModel) -> Seq<char> {
    (if r.strike { "line-through"@ } else { Seq::empty() }) + (if r.underline {
        "underline"@
    } else {
        Seq::empty()
    })
}

/// The attributes of a run's `span`: a `class` when a class flag is on, a
/// `style` when a decoration flag is on, each left out otherwise.
pub open spec fn span_attributes(r: RunModel) -> Seq<char> {
    (if r.bold || r.italic || r.code {
        " class='"@ + class_names(r) + "'"@
    } else {
        Seq::empty()
    }) + (if r.strike || r.underline {
        " style='text-decoration:"@ + decorations(r) + "'"@
    } else {
        Seq::empty()
    })
}

/// The HTML of a run: its escaped text in a `span`.
pub open spec fn run_html(r: RunModel) -> Seq<char> {
    "<span "@ + span_attributes(r) + ">"@ + escape_text(r.text) + "</span>"@
}

/// The HTML of a paragraph's runs, each with its line feeds made `<br/>`.
pub open spec fn runs_html(runs: Seq<RunModel>) -> Seq<char>
    decreases runs.len(),
{
    if runs.len() == 0 {
        Seq::empty()
    } else {
        runs_html(runs.drop_last()) + br_lines(run_html(runs.last()))
    }
}

/// The HTML of a paragraph.
pub open spec fn paragraph_html(runs: Seq<RunModel>) -> Seq<char> {
    "<p class='fx-paragraph'>"@ + runs_html(runs) + "</p>"@
}

/// The text of a heading: the escaped texts of its runs, run together.
pub open spec fn header_text(runs: Seq<RunModel>) -> Seq<char>
    decreases runs.len(),
{
    if runs.len() == 0 {
        Seq::empty()
    } else {
        header_text(runs.drop_last()) + escape_text(runs.last().text)
    }
}

/// The table-of-contents entries of a heading: one per run, titled with the
/// heading's text up to and including that run.
pub open spec fn header_toc(level: i64, runs: Seq<RunModel>) -> Seq<TocEntry>
    decreases runs.len(),
{
    if runs.len() == 0 {
        Seq::empty()
    } else {
        header_toc(level, runs.drop_last()).push(TocEntry { title: header_text(runs), header: level })
    }
}

/// The decimal digit `d`.
pub open spec fn digit_char(d: nat) -> char {
    seq!['0', '1', '2', '3', '4', '5', '6', '7', '8', '9'][d as int]
}

/// The decimal digits of `n`.
pub open spec fn digits(n: nat) -> Seq<char>
    decreases n,
{
    if n < 10 {
        seq![digit_char(n)]
    } else {
        digits(n / 10).push(digit_char(n % 10))
    }
}

/// `n` in decimal, with a `-` when negative.
pub open spec fn decimal(n: int) -> Seq<char> {
    if n < 0 {
        seq!['-'] + digits((-n) as nat)
    } else {
        digits(n as nat)
    }
}

/// The HTML of a heading: the heading's text as its anchor id and as its content.
pub open spec fn header_html(level: i64, runs: Seq<RunModel>) -> Seq<char> {
    "<h"@ + decimal(level as int) + " id='"@ + header_text(runs) + "'>"@ + header_text(runs) + "</h"@
        + decimal(level as int) + ">"@
}

/// The HTML of a node.
pub open spec fn node_html(node: NodeModel) -> Seq<char> {
    match node {
        NodeModel::Paragraph(runs) => paragraph_html(runs),
        NodeModel::Header(level, runs) => header_html(level, runs),
        NodeModel::CodeBlock => "code-block"@,
    }
}

/// The table-of-contents entries of a node.
pub open spec fn node_toc(node: NodeModel) -> Seq<TocEntry> {
    match node {
        NodeModel::Header(level, runs) => header_toc(level, runs),
        _ => Seq::empty(),
    }
}

/// The HTML of a sequence of nodes, run together without separators.
pub open spec fn body_html(nodes: Seq<NodeModel>) -> Seq<char>
    decreases nodes.len(),
{
    if nodes.len() == 0 {
        Seq::empty()
    } else {
        body_html(nodes.drop_last()) + node_html(nodes.last())
    }
}

/// The table-of-contents entries of a sequence of nodes, in order.
pub open spec fn body_toc(nodes: Seq<NodeModel>) -> Seq<TocEntry>
    decreases nodes.len(),
{
    if nodes.len() == 0 {
        Seq::empty()
    } else {
        body_toc(nodes.drop_last()) + node_toc(nodes.last())
    }
}

/// The outcome of rendering the stored body `body` of an article titled
/// `title`: its HTML and its table of contents, which starts with the title
/// at level 0; or the first error met in document order.
pub open spec fn render_outcome(title: Seq<char>, body: JsonValue) -> Result<(Seq<char>, Seq<TocEntry>), ErrorModel> {
    match decode_document(body) {
        Err(e) => Err(e),
        Ok(nodes) => Ok((body_html(nodes), seq![TocEntry { title, header: 0 }] + body_toc(nodes))),
    }
}

/// The mathematical value of what `render` returned.
pub open spec fn rendered_view(r: Result<(String, Vec<TocItem>), RenderError>) -> Result<(Seq<char>, Seq<TocEntry>), ErrorModel> {
    match r {
        Ok((html, toc)) => Ok((html@, toc_view(toc@))),
        Err(e) => Err(e@),
    }
}

/// Renders a run: its text escaped, in a `span` with the run's class and
/// style attributes.
pub fn build_text(run: &TextRun) -> (r: String)
    ensures
        r@ == run_html(run@),
{
    let text_html = encode_text(run.text.as_str());
    let mut class_name = String::new();
    if run.bold {
        class_name.append("fx-bold");
    }
    if run.italic {
        class_name.append("fx-italic");
    }
    if run.code {
        class_name.append("fx-code");
    }
    let mut decoration = String::new();
    if run.strike {
        decoration.append("line-through");
    }
    if run.underline {
        decoration.append("underline");
    }
    assert(class_name@ =~= class_names(run@));
    assert(decoration@ =~= decorations(run@));
    let mut property = String::new();
    if run.bold || run.italic || run.code {
        property.append(" class='");
        property.append(class_name.as_str());
        property.append("'");
    }
    if run.strike || run.underline {
        property.append(" style='text-decoration:");
        property.append(decoration.as_str());
        property.append("'");
    }
    assert(property@ =~= span_attributes(run@));
    let mut out = String::from_str("<span ");
    out.append(property.as_str());
    out.append(">");
    out.append(text_html.as_str());
    out.append("</span>");
    out
}

/// Renders a run inside a heading: its text escaped, with no markup.
pub fn build_header_text(run: &TextRun) -> (r: String)
    ensures
        r@ == escape_text(run.text@),
{
    encode_text(run.text.as_str())
}

/// Renders a paragraph: its runs' HTML, each with line feeds made `<br/>`,
/// in a `p` element.
pub fn build_paragraph(children: &Vec<TextRun>) -> (r: String)
    ensures
        r@ == paragraph_html(runs_view(children@)),
{
    let ghost runs = runs_view(children@);
    let mut builder = new_builder();
    builder_append(&mut builder, "<p class='fx-paragraph'>");
    let ghost mut text: Seq<char> = "<p class='fx-paragraph'>"@;
    assert(Seq::<u8>::empty() + encode_utf8(text) =~= encode_utf8(text));
    assert(runs.take(0) =~= Seq::<RunModel>::empty());
    assert(text + runs_html(runs.take(0)) =~= text);
    let mut i: usize = 0;
    while i < children.len()
        invariant
            0 <= i <= children@.len(),
            runs == runs_view(children@),
            builder_bytes(builder) == encode_utf8(text),
            text == "<p class='fx-paragraph'>"@ + runs_html(runs.take(i as int)),
        decreases children@.len() - i,
    {
        let content = build_text(&children[i]);
        let piece = replace_newlines(content.as_str());
        builder_append(&mut builder, piece.as_str());
        proof {
            lemma_encode_utf8_concat(text, piece@);
            assert(runs.take(i + 1).drop_last() =~= runs.take(i as int));
            assert(runs.take(i + 1).last() == children@[i as int]@);
            text = text + piece@;
        }
        i = i + 1;
    }
    builder_append(&mut builder, "</p>");
    proof {
        lemma_encode_utf8_concat(text, "</p>"@);
        assert(runs.take(i as int) =~= runs);
        text = text + "</p>"@;
        vstd::utf8::encode_utf8_valid_utf8(text);
        vstd::utf8::encode_utf8_decode_utf8(text);
    }
    builder_string(builder).unwrap()
}

/// Appends the decimal digits of `n` to `s`.
fn push_digits(s: &mut String, n: u64)
    ensures
        final(s)@ == old(s)@ + digits(n as nat),
    decreases n,
{
    if n >= 10 {
        push_digits(s, n / 10);
    }
    let d = (n % 10) as usize;
    let table = "0123456789";
    proof {
        reveal_strlit("0123456789");
    }
    assert(table@ =~= seq!['0', '1', '2', '3', '4', '5', '6', '7', '8', '9']);
    let digit = table.substring_char(d, d + 1);
    assert(digit@ =~= seq![digit_char(d as nat)]);
    s.append(digit);
    if n >= 10 {
        assert(digits(n as nat) == digits((n / 10) as nat).push(digit_char((n % 10) as nat)));
    }
    assert(s@ =~= old(s)@ + digits(n as nat));
}

/// `n` in decimal.
fn decimal_string(n: i64) -> (r: String)
    ensures
        r@ == decimal(n as int),
{
    if n < 0 {
        let mut s = String::from_str("-");
        proof {
            reveal_strlit("-");
        }
        let magnitude: u64 = (-(n + 1)) as u64 + 1;
        push_digits(&mut s, magnitude);
        assert(s@ =~= decimal(n as int));
        s
    } else {
        let mut s = String::new();
        push_digits(&mut s, n as u64);
        assert(s@ =~= decimal(n as int));
        s
    }
}

/// Renders a heading of level `level`, and adds one table-of-contents entry
/// per run, titled with the heading's text up to and including that run.
pub fn build_header(toc: &mut Vec<TocItem>, level: i64, children: &Vec<TextRun>) -> (r: String)
    ensures
        r@ == header_html(level, runs_view(children@)),
        toc_view(final(toc)@) == toc_view(old(toc)@) + header_toc(level, runs_view(children@)),
{
    let ghost runs = runs_view(children@);
    let mut text = String::new();
    let mut i: usize = 0;
    assert(runs.take(0) =~= Seq::<RunModel>::empty());
    assert(toc_view(toc@) + header_toc(level, runs.take(0)) =~= toc_view(toc@));
    while i < children.len()
        invariant
            0 <= i <= children@.len(),
            runs == runs_view(children@),
            text@ == header_text(runs.take(i as int)),
            toc_view(toc@) == toc_view(old(toc)@) + header_toc(level, runs.take(i as int)),
        decreases children@.len() - i,
    {
        let content = build_header_text(&children[i]);
        text.append(content.as_str());
        let ghost before = toc@;
        toc.push(TocItem { title: text.clone(), header: level });
        proof {
            assert(runs.take(i + 1).drop_last() =~= runs.take(i as int));
            assert(runs.take(i + 1).last() == children@[i as int]@);
            assert(toc_view(toc@) =~= toc_view(before).push(TocEntry { title: text@, header: level }));
        }
        i = i + 1;
    }
    assert(runs.take(i as int) =~= runs);
    let number = decimal_string(level);
    let mut out = String::from_str("<h");
    out.append(number.as_str());
    out.append(" id='");
    out.append(text.as_str());
    out.append("'>");
    out.append(text.as_str());
    out.append("</h");
    out.append(number.as_str());
    out.append(">");
    assert(out@ =~= header_html(level, runs));
    out
}

/// Renders a node, adding the entries of a heading to the table of contents.
pub fn build_node(toc: &mut Vec<TocItem>, node: &DocumentNode) -> (r: String)
    ensures
        r@ == node_html(node@),
        toc_view(final(toc)@) == toc_view(old(toc)@) + node_toc(node@),
{
    match node {
        DocumentNode::Paragraph { children } => {
            assert(toc_view(toc@) + Seq::<TocEntry>::empty() =~= toc_view(toc@));
            build_paragraph(children)
        },
        DocumentNode::Header { level, children } => build_header(toc, *level, children),
        DocumentNode::CodeBlock => {
            assert(toc_view(toc@) + Seq::<TocEntry>::empty() =~= toc_view(toc@));
            String::from_str("code-block")
        },
    }
}

/// Renders the nodes of a document in order, their HTML run together without
/// separators, and adds the entries of its headings to the table of contents.
pub fn build_body(toc: &mut Vec<TocItem>, doc: &Document) -> (r: String)
    ensures
        r@ == body_html(doc@),
        toc_view(final(toc)@) == toc_view(old(toc)@) + body_toc(doc@),
{
    let ghost nodes = doc@;
    let mut builder = new_builder();
    let ghost mut text: Seq<char> = Seq::empty();
    assert(encode_utf8(text) =~= Seq::<u8>::empty());
    assert(nodes.take(0) =~= Seq::<NodeModel>::empty());
    assert(toc_view(toc@) + body_toc(nodes.take(0)) =~= toc_view(toc@));
    let mut i: usize = 0;
    while i < doc.children.len()
        invariant
            0 <= i <= doc.children@.len(),
            nodes == doc@,
            nodes == nodes_view(doc.children@),
            builder_bytes(builder) == encode_utf8(text),
            text == body_html(nodes.take(i as int)),
            toc_view(toc@) == toc_view(old(toc)@) + body_toc(nodes.take(i as int)),
        decreases doc.children@.len() - i,
    {
        let ghost before = toc_view(toc@);
        let content = build_node(toc, &doc.children[i]);
        builder_append(&mut builder, content.as_str());
        proof {
            lemma_encode_utf8_concat(text, content@);
            assert(nodes.take(i + 1).drop_last() =~= nodes.take(i as int));
            assert(nodes.take(i + 1).last() == doc.children@[i as int]@);
            assert(toc_view(toc@) =~= toc_view(old(toc)@) + body_toc(nodes.take(i + 1)));
            text = text + content@;
        }
        i = i + 1;
    }
    proof {
        assert(nodes.take(i as int) =~= nodes);
        vstd::utf8::encode_utf8_valid_utf8(text);
        vstd::utf8::encode_utf8_decode_utf8(text);
    }
    builder_string(builder).unwrap()
}

/// Renders the stored body `body` of the article titled `title` into its HTML
/// and its table of contents, whose first entry is the title at level 0.
/// Fails with the first error met in document order; nothing is rendered then.
pub fn render(title: &str, body: &JsonValue) -> (r: Result<(String, Vec<TocItem>), RenderError>)
    ensures
        rendered_view(r) == render_outcome(title@, *body),
{
    let doc = match Document::from_json(body) {
        Err(e) => {
            return Err(e);
        },
        Ok(doc) => doc,
    };
    let mut toc: Vec<TocItem> = Vec::new();
    toc.push(TocItem { title: String::from_str(title), header: 0 });
    assert(toc_view(toc@) =~= seq![TocEntry { title: title@, header: 0 }]);
    let html = build_body(&mut toc, &doc);
    Ok((html, toc))
}

/// Renders one stored node: its HTML, the entries of a heading added to the
/// table of contents. On an error the table of contents is left as it was.
pub fn render_node(toc: &mut Vec<TocItem>, node: &JsonValue) -> (r: Result<String, RenderError>)
    ensures
        match decode_node(*node) {
            Ok(n) => r matches Ok(html) && html@ == node_html(n)
                && toc_view(final(toc)@) == toc_view(old(toc)@) + node_toc(n),
            Err(e) => r matches Err(err) && err@ == e && final(toc)@ == old(toc)@,
        },
{
    match DocumentNode::from_json(node) {
        Err(e) => Err(e),
        Ok(n) => Ok(build_node(toc, &n)),
    }
}

/// Renders one stored text run into its `span`.
pub fn render_run(node: &JsonValue) -> (r: Result<String, RenderError>)
    ensures
        match decode_run(*node) {
            Ok(run) => r matches Ok(html) && html@ == run_html(run),
            Err(e) => r matches Err(err) && err@ == e,
        },
{
    match TextRun::from_json(node) {
        Err(e) => Err(e),
        Ok(run) => Ok(build_text(&run)),
    }
}

/// Whether the `&` at `i` in `t` begins one of `&amp;`, `&lt;`, `&gt;`.
pub open spec fn begins_entity(t: Seq<char>, i: int) -> bool {
    ||| (i + 5 <= t.len() && t.subrange(i, i + 5) == seq!['&', 'a', 'm', 'p', ';'])
    ||| (i + 4 <= t.len() && t.subrange(i, i + 4) == seq!['&', 'l', 't', ';'])
    ||| (i + 4 <= t.len() && t.subrange(i, i + 4) == seq!['&', 'g', 't', ';'])
}

/// Text escaped for HTML holds no `<` and no `>`, and each `&` in it begins
/// an entity: none of the three characters is left unescaped.
pub proof fn lemma_escaped_text_is_safe(s: Seq<char>)
    ensures
        forall|i: int| 0 <= i < escape_text(s).len() ==> #[trigger] escape_text(s)[i] != '<' && escape_text(s)[i] != '>',
        forall|i: int| 0 <= i < escape_text(s).len() && #[trigger] escape_text(s)[i] == '&' ==> begins_entity(escape_text(s), i),
    decreases s.len(),
{
    if s.len() > 0 {
        let prefix = escape_text(s.drop_last());
        let tail = escape_char(s.last());
        let t = escape_text(s);
        lemma_escaped_text_is_safe(s.drop_last());
        assert(t == prefix + tail);
        assert forall|i: int| 0 <= i < t.len() implies t[i] != '<' && t[i] != '>' && (t[i] == '&' ==> begins_entity(t, i)) by {
            if i < prefix.len() {
                assert(t[i] == prefix[i]);
                if prefix[i] == '&' {
                    assert(begins_entity(prefix, i));
                    if i + 5 <= prefix.len() && prefix.subrange(i, i + 5) == seq!['&', 'a', 'm', 'p', ';'] {
                        assert(t.subrange(i, i + 5) =~= prefix.subrange(i, i + 5));
                    } else if i + 4 <= prefix.len() && prefix.subrange(i, i + 4) == seq!['&', 'l', 't', ';'] {
                        assert(t.subrange(i, i + 4) =~= prefix.subrange(i, i + 4));
                    } else {
                        assert(t.subrange(i, i + 4) =~= prefix.subrange(i, i + 4));
                    }
                }
            } else {
                let j = i - prefix.len();
                assert(t[i] == tail[j]);
                if t[i] == '&' {
                    assert(j == 0);
                    assert(t.subrange(i, t.len() as int) =~= tail);
                    if s.last() == '&' {
                        assert(t.subrange(i, i + 5) =~= tail);
                    } else if s.last() == '<' {
                        assert(t.subrange(i, i + 4) =~= tail);
                    } else {
                        assert(t.subrange(i, i + 4) =~= tail);
                    }
                }
            }
        }
    }
}

/// An empty document renders to no HTML, and its table of contents holds the
/// title alone, at level 0.
pub proof fn lemma_empty_document(title: Seq<char>, body: JsonValue)
    requires
        body.array_field("children"@) == Some(Seq::<JsonValue>::empty()),
    ensures
        render_outcome(title, body) == Ok::<(Seq<char>, Seq<TocEntry>), ErrorModel>(
            (Seq::<char>::empty(), seq![TocEntry { title, header: 0 }]),
        ),
{
    assert(seq![TocEntry { title, header: 0 }] + body_toc(Seq::<NodeModel>::empty()) =~= seq![TocEntry { title, header: 0 }]);
}

/// Rendering is deterministic: two results that `render` may return for the
/// same title and body hold the same HTML and the same table of contents.
pub proof fn lemma_render_deterministic(
    title: Seq<char>,
    body: JsonValue,
    first: Result<(String, Vec<TocItem>), RenderError>,
    second: Result<(String, Vec<TocItem>), RenderError>,
)
    requires
        rendered_view(first) == render_outcome(title, body),
        rendered_view(second) == render_outcome(title, body),
    ensures
        rendered_view(first) == rendered_view(second),
        first is Ok <==> second is Ok,
{
}

/// The first node that fails to decode decides the outcome of the whole
/// render: with the nodes before it sound, a node without a string `name`
/// makes the render fail with `MissingField("name")`, and no HTML is returned.
pub proof fn lemma_nameless_node_fails_render(title: Seq<char>, body: JsonValue, k: int)
    requires
        body.array_field("children"@) matches Some(items) && 0 <= k < items.len()
            && decode_nodes(items.take(k)) is Ok && items[k].str_field("name"@) is None,
    ensures
        render_outcome(title, body) == Err::<(Seq<char>, Seq<TocEntry>), ErrorModel>(ErrorModel::MissingField("name"@)),
{
    let items = body.array_field("children"@)->Some_0;
    assert(items.take(k + 1).drop_last() =~= items.take(k));
    assert(items.take(k + 1).last() == items[k]);
    lemma_decode_nodes_error_prefix(items, k + 1);
}

/// A `code-block` node renders to the literal `code-block` whatever its other
/// members, and adds nothing to the table of contents.
pub proof fn lemma_code_block_is_literal(v: JsonValue)
    requires
        v.str_field("name"@) == Some("code-block"@),
    ensures
        decode_node(v) == Ok::<NodeModel, ErrorModel>(NodeModel::CodeBlock),
        node_html(NodeModel::CodeBlock) == "code-block"@,
        node_toc(NodeModel::CodeBlock) == Seq::<TocEntry>::empty(),
{
    reveal_strlit("code-block");
    reveal_strlit("paragraph");
    reveal_strlit("header");
    assert("code-block"@ != "paragraph"@) by {
        assert("code-block"@[1] != "paragraph"@[1]);
    }
    assert("code-block"@ != "header"@) by {
        assert("code-block"@.len() != "header"@.len());
    }
}

} // verus!
