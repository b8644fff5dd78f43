//! The typed article body, and its decoding from stored JSON.
use vstd::prelude::*;
use vstd::string::StringExecFns;
use crate::json::JsonValue;

verus! {

/// One run of text with its formatting flags.
///
/// A flag is on when the stored run has a member of that name, whatever the
/// member's value: a stored `"bold": false` still makes the run bold.
#[derive(Debug)]
pub struct TextRun {
    pub text: String,
    pub bold: bool,
    pub italic: bool,
    pub underline: bool,
    pub strike: bool,
    pub code: bool,
}

/// A node of an article body.
#[derive(Debug)]
pub enum DocumentNode {
    Paragraph { children: Vec<TextRun> },
    Header { level: i64, children: Vec<TextRun> },
    /// A code block; its content is not interpreted.
    CodeBlock,
}

/// An article body: its top-level nodes, in order.
#[derive(Debug)]
pub struct Document {
    pub children: Vec<DocumentNode>,
}

/// Why an article body could not be rendered.
#[derive(Debug, PartialEq, Eq)]
pub enum RenderError {
    /// A member that the node needs is absent, or not of the needed type.
    MissingField(String),
    /// The node's `name` is none of the known kinds.
    UnsupportedNodeKind(String),
}

/// A text run as a mathematical value.
pub struct RunModel {
    pub text: Seq<char>,
    pub bold: bool,
    pub italic: bool,
    pub underline: bool,
    pub strike: bool,
    pub code: bool,
}

/// A node as a mathematical value.
pub enum NodeModel {
    Paragraph(Seq<RunModel>),
    Header(i64, Seq<RunModel>),
    CodeBlock,
}

/// A render error as a mathematical value.
pub enum ErrorModel {
    MissingField(Seq<char>),
    UnsupportedNodeKind(Seq<char>),
}

impl View for TextRun {
    type V = RunModel;

    open spec fn view(&self) -> RunModel {
        RunModel {
            text: self.text@,
            bold: self.bold,
            italic: self.italic,
            underline: self.underline,
            strike: self.strike,
            code: self.code,
        }
    }
}

/// The models of a sequence of runs.
pub open spec fn runs_view(runs: Seq<TextRun>) -> Seq<RunModel> {
    runs.map_values(|r: TextRun| r@)
}

impl View for DocumentNode {
    type V = NodeModel;

    open spec fn view(&self) -> NodeModel {
        match self {
            DocumentNode::Paragraph { children } => NodeModel::Paragraph(runs_view(children@)),
            DocumentNode::Header { level, children } => NodeModel::Header(*level, runs_view(children@)),
            DocumentNode::CodeBlock => NodeModel::CodeBlock,
        }
    }
}

/// The models of a sequence of nodes.
pub open spec fn nodes_view(nodes: Seq<DocumentNode>) -> Seq<NodeModel> {
    nodes.map_values(|n: DocumentNode| n@)
}

impl View for Document {
    type V = Seq<NodeModel>;

    open spec fn view(&self) -> Seq<NodeModel> {
        nodes_view(self.children@)
    }
}

impl View for RenderError {
    type V = ErrorModel;

    open spec fn view(&self) -> ErrorModel {
        match self {
            RenderError::MissingField(f) => ErrorModel::MissingField(f@),
            RenderError::UnsupportedNodeKind(k) => ErrorModel::UnsupportedNodeKind(k@),
        }
    }
}

/// The run that a stored JSON value describes.
pub open spec fn decode_run(v: JsonValue) -> Result<RunModel, ErrorModel> {
    match v.str_field("text"@) {
        Some(text) => Ok(
            RunModel {
                text,
                bold: v.has_field("bold"@),
                italic: v.has_field("italic"@),
                underline: v.has_field("underline"@),
                strike: v.has_field("strike"@),
                code: v.has_field("code"@),
            },
        ),
        None => Err(ErrorModel::MissingField("text"@)),
    }
}

/// The runs that stored values describe, or the error of the first that
/// describes none.
pub open spec fn decode_runs(items: Seq<JsonValue>) -> Result<Seq<RunModel>, ErrorModel>
    decreases items.len(),
{
    if items.len() == 0 {
        Ok(Seq::empty())
    } else {
        match decode_runs(items.drop_last()) {
            Err(e) => Err(e),
            Ok(runs) => match decode_run(items.last()) {
                Err(e) => Err(e),
                Ok(run) => Ok(runs.push(run)),
            },
        }
    }
}

/// The node that a stored JSON value describes.
pub open spec fn decode_node(v: JsonValue) -> Result<NodeModel, ErrorModel> {
    match v.str_field("name"@) {
        None => Err(ErrorModel::MissingField("name"@)),
        Some(name) => if name == "paragraph"@ {
            match v.array_field("children"@) {
                None => Err(ErrorModel::MissingField("children"@)),
                Some(items) => match decode_runs(items) {
                    Err(e) => Err(e),
                    Ok(runs) => Ok(NodeModel::Paragraph(runs)),
                },
            }
        } else if name == "header"@ {
            match v.int_field("header"@) {
                None => Err(ErrorModel::MissingField("header"@)),
                Some(level) => match v.array_field("children"@) {
                    None => Err(ErrorModel::MissingField("children"@)),
                    Some(items) => match decode_runs(items) {
                        Err(e) => Err(e),
                        Ok(runs) => Ok(NodeModel::Header(level, runs)),
                    },
                },
            }
        } else if name == "code-block"@ {
            Ok(NodeModel::CodeBlock)
        } else {
            Err(ErrorModel::UnsupportedNodeKind(name))
        },
    }
}

/// The nodes that stored values describe, or the error of the first that
/// describes none.
pub open spec fn decode_nodes(items: Seq<JsonValue>) -> Result<Seq<NodeModel>, ErrorModel>
    decreases items.len(),
{
    if items.len() == 0 {
        Ok(Seq::empty())
    } else {
        match decode_nodes(items.drop_last()) {
            Err(e) => Err(e),
            Ok(nodes) => match decode_node(items.last()) {
                Err(e) => Err(e),
                Ok(node) => Ok(nodes.push(node)),
            },
        }
    }
}

/// The document that a stored article body describes.
pub open spec fn decode_document(v: JsonValue) -> Result<Seq<NodeModel>, ErrorModel> {
    match v.array_field("children"@) {
        None => Err(ErrorModel::MissingField("children"@)),
        Some(items) => decode_nodes(items),
    }
}

/// An error for the member `name`, which is absent.
fn missing(name: &str) -> (e: RenderError)
    ensures
        e@ == ErrorModel::MissingField(name@),
{
    RenderError::MissingField(String::from_str(name))
}

/// Whether `s` reads `lit`.
fn is_word(s: &String, lit: &str) -> (r: bool)
    ensures
        r == (s@ == lit@),
{
    *s == String::from_str(lit)
}

impl TextRun {
    /// Decodes a stored text run: its `text` must be a string; each flag is
    /// on when its member is present.
    pub fn from_json(v: &JsonValue) -> (r: Result<TextRun, RenderError>)
        ensures
            match r {
                Ok(run) => decode_run(*v) == Ok::<RunModel, ErrorModel>(run@),
                Err(e) => decode_run(*v) == Err::<RunModel, ErrorModel>(e@),
            },
    {
        match v.get_str("text") {
            None => Err(missing("text")),
            Some(text) => Ok(
                TextRun {
                    text: text.clone(),
                    bold: v.contains("bold"),
                    italic: v.contains("italic"),
                    underline: v.contains("underline"),
                    strike: v.contains("strike"),
                    code: v.contains("code"),
                },
            ),
        }
    }
}

/// Decodes stored text runs in order, stopping at the first that fails.
pub fn decode_text_runs(items: &Vec<JsonValue>) -> (r: Result<Vec<TextRun>, RenderError>)
    ensures
        match r {
            Ok(runs) => decode_runs(items@) == Ok::<Seq<RunModel>, ErrorModel>(runs_view(runs@)),
            Err(e) => decode_runs(items@) == Err::<Seq<RunModel>, ErrorModel>(e@),
        },
{
    let mut runs: Vec<TextRun> = Vec::new();
    let mut i: usize = 0;
    assert(items@.take(0) =~= Seq::<JsonValue>::empty());
    assert(runs_view(runs@) =~= Seq::<RunModel>::empty());
    while i < items.len()
        invariant
            0 <= i <= items@.len(),
            decode_runs(items@.take(i as int)) == Ok::<Seq<RunModel>, ErrorModel>(runs_view(runs@)),
        decreases items@.len() - i,
    {
        assert(items@.take(i + 1).drop_last() =~= items@.take(i as int));
        assert(items@.take(i + 1).last() == items@[i as int]);
        match TextRun::from_json(&items[i]) {
            Err(e) => {
                assert(decode_runs(items@.take(i + 1)) == Err::<Seq<RunModel>, ErrorModel>(e@));
                proof { lemma_decode_runs_error_prefix(items@, i + 1); }
                return Err(e);
            },
            Ok(run) => {
                let ghost before = runs@;
                runs.push(run);
                assert(runs_view(runs@) =~= runs_view(before).push(run@));
                assert(decode_runs(items@.take(i + 1)) == Ok::<Seq<RunModel>, ErrorModel>(runs_view(before).push(run@)));
            },
        }
        i = i + 1;
    }
    assert(items@.take(i as int) =~= items@);
    Ok(runs)
}

/// An error in a prefix of the runs is the error of the whole.
proof fn lemma_decode_runs_error_prefix(items: Seq<JsonValue>, n: int)
    requires
        0 <= n <= items.len(),
        decode_runs(items.take(n)) is Err,
    ensures
        decode_runs(items) == decode_runs(items.take(n)),
    decreases items.len() - n,
{
    if n < items.len() {
        assert(items.take(n + 1).drop_last() =~= items.take(n));
        lemma_decode_runs_error_prefix(items, n + 1);
    } else {
        assert(items.take(n) =~= items);
    }
}

/// An error in a prefix of the nodes is the error of the whole.
pub proof fn lemma_decode_nodes_error_prefix(items: Seq<JsonValue>, n: int)
    requires
        0 <= n <= items.len(),
        decode_nodes(items.take(n)) is Err,
    ensures
        decode_nodes(items) == decode_nodes(items.take(n)),
    decreases items.len() - n,
{
    if n < items.len() {
        assert(items.take(n + 1).drop_last() =~= items.take(n));
        lemma_decode_nodes_error_prefix(items, n + 1);
    } else {
        assert(items.take(n) =~= items);
    }
}

impl DocumentNode {
    /// Decodes a stored node by its `name`: `paragraph` needs `children`,
    /// `header` needs an integer `header` and `children`, `code-block` needs
    /// nothing more; any other name is unsupported.
    pub fn from_json(v: &JsonValue) -> (r: Result<DocumentNode, RenderError>)
        ensures
            match r {
                Ok(node) => decode_node(*v) == Ok::<NodeModel, ErrorModel>(node@),
                Err(e) => decode_node(*v) == Err::<NodeModel, ErrorModel>(e@),
            },
    {
        let name = match v.get_str("name") {
            None => {
                return Err(missing("name"));
            },
            Some(name) => name,
        };
        if is_word(name, "paragraph") {
            match v.get_array("children") {
                None => Err(missing("children")),
                Some(items) => match decode_text_runs(items) {
                    Err(e) => Err(e),
                    Ok(children) => Ok(DocumentNode::Paragraph { children }),
                },
            }
        } else if is_word(name, "header") {
            match v.get_i64("header") {
                None => Err(missing("header")),
                Some(level) => match v.get_array("children") {
                    None => Err(missing("children")),
                    Some(items) => match decode_text_runs(items) {
                        Err(e) => Err(e),
                        Ok(children) => Ok(DocumentNode::Header { level, children }),
                    },
                },
            }
        } else if is_word(name, "code-block") {
            Ok(DocumentNode::CodeBlock)
        } else {
            Err(RenderError::UnsupportedNodeKind(name.clone()))
        }
    }
}

impl Document {
    /// Decodes a stored article body: its `children` must be an array, whose
    /// nodes are decoded in order, stopping at the first that fails.
    pub fn from_json(v: &JsonValue) -> (r: Result<Document, RenderError>)
        ensures
            match r {
                Ok(doc) => decode_document(*v) == Ok::<Seq<NodeModel>, ErrorModel>(doc@),
                Err(e) => decode_document(*v) == Err::<Seq<NodeModel>, ErrorModel>(e@),
            },
    {
        let items = match v.get_array("children") {
            None => {
                return Err(missing("children"));
            },
            Some(items) => items,
        };
        let mut children: Vec<DocumentNode> = Vec::new();
        let mut i: usize = 0;
        assert(items@.take(0) =~= Seq::<JsonValue>::empty());
        assert(nodes_view(children@) =~= Seq::<NodeModel>::empty());
        while i < items.len()
            invariant
                0 <= i <= items@.len(),
                v.array_field("children"@) == Some(items@),
                decode_nodes(items@.take(i as int)) == Ok::<Seq<NodeModel>, ErrorModel>(nodes_view(children@)),
            decreases items@.len() - i,
        {
            assert(items@.take(i + 1).drop_last() =~= items@.take(i as int));
            assert(items@.take(i + 1).last() == items@[i as int]);
            match DocumentNode::from_json(&items[i]) {
                Err(e) => {
                    assert(decode_nodes(items@.take(i + 1)) == Err::<Seq<NodeModel>, ErrorModel>(e@));
                    proof { lemma_decode_nodes_error_prefix(items@, i + 1); }
                    return Err(e);
                },
                Ok(node) => {
                    let ghost before = children@;
                    children.push(node);
                    assert(nodes_view(children@) =~= nodes_view(before).push(node@));
                    assert(decode_nodes(items@.take(i + 1)) == Ok::<Seq<NodeModel>, ErrorModel>(nodes_view(before).push(node@)));
                },
            }
            i = i + 1;
        }
        assert(items@.take(i as int) =~= items@);
        Ok(Document { children })
    }
}

} // verus!
