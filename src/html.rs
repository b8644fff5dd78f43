//! Escaping of text for HTML, line breaks, and the byte buffer that assembles fragments.
use vstd::prelude::*;
use vstd::string::StringExecFns;
use vstd::utf8::{decode_utf8, encode_utf8, valid_utf8};
use crate::utils::push_char;

verus! {

/// What stands for `c` in HTML text content: an entity for `&`, `<` and `>`,
/// the character itself otherwise.
pub open spec fn escape_char(c: char) -> Seq<char> {
    if c == '&' {
        seq!['&', 'a', 'm', 'p', ';']
    } else if c == '<' {
        seq!['&', 'l', 't', ';']
    } else if c == '>' {
        seq!['&', 'g', 't', ';']
    } else {
        seq![c]
    }
}

/// `s` escaped for HTML text content, character by character.
pub open spec fn escape_text(s: Seq<char>) -> Seq<char>
    decreases s.len(),
{
    if s.len() == 0 {
        Seq::empty()
    } else {
        escape_text(s.drop_last()) + escape_char(s.last())
    }
}

/// Relies on `html_escape::encode_text`: every `&`, `<` and `>` of `s` is
/// replaced by `&amp;`, `&lt;` and `&gt;`, every other character is kept.
#[verifier::external_body]
pub(crate) fn encode_text(s: &str) -> (r: String)
    ensures
        r@ == escape_text(s@),
{
    html_escape::encode_text(s).into_owned()
}

#[verifier::external_type_specification]
#[verifier::external_body]
pub struct ExBuilder(string_builder::Builder);

#[verifier::external_type_specification]
#[verifier::external_body]
pub struct ExFromUtf8Error(std::string::FromUtf8Error);

/// The bytes that a `string_builder::Builder` holds.
pub uninterp spec fn builder_bytes(b: string_builder::Builder) -> Seq<u8>;

/// Relies on `string_builder::Builder::default`: the new buffer is empty.
#[verifier::external_body]
pub(crate) fn new_builder() -> (r: string_builder::Builder)
    ensures
        builder_bytes(r) == Seq::<u8>::empty(),
{
    string_builder::Builder::default()
}

/// Relies on `string_builder::Builder::append` for a `&str`: the UTF-8 bytes
/// of `s` are written after those already held.
#[verifier::external_body]
pub(crate) fn builder_append(b: &mut string_builder::Builder, s: &str)
    ensures
        builder_bytes(*final(b)) == builder_bytes(*old(b)) + encode_utf8(s@),
{
    b.append(s)
}

/// Relies on `string_builder::Builder::string`, which is `String::from_utf8`
/// on the bytes held: it succeeds exactly on valid UTF-8, and decodes them.
#[verifier::external_body]
pub(crate) fn builder_string(b: string_builder::Builder) -> (r: Result<String, std::string::FromUtf8Error>)
    ensures
        r is Ok <==> valid_utf8(builder_bytes(b)),
        r matches Ok(s) ==> s@ == decode_utf8(builder_bytes(b)),
{
    b.string()
}

/// Encoding a concatenation concatenates the encodings.
pub proof fn lemma_encode_utf8_concat(a: Seq<char>, b: Seq<char>)
    ensures
        encode_utf8(a + b) == encode_utf8(a) + encode_utf8(b),
    decreases a.len(),
{
    if a.len() == 0 {
        assert(a + b =~= b);
        assert(encode_utf8(a) =~= Seq::<u8>::empty());
        assert(encode_utf8(a) + encode_utf8(b) =~= encode_utf8(b));
    } else {
        assert((a + b).drop_first() =~= a.drop_first() + b);
        assert((a + b)[0] == a[0]);
        lemma_encode_utf8_concat(a.drop_first(), b);
        assert(encode_utf8(a + b) =~= encode_utf8(a) + encode_utf8(b));
    }
}

/// `s` with each line feed replaced by a `<br/>` tag.
pub open spec fn br_lines(s: Seq<char>) -> Seq<char>
    decreases s.len(),
{
    if s.len() == 0 {
        Seq::empty()
    } else if s.last() == '\n' {
        br_lines(s.drop_last()) + "<br/>"@
    } else {
        br_lines(s.drop_last()).push(s.last())
    }
}

/// Replaces each line feed of `s` by a `<br/>` tag.
pub fn replace_newlines(s: &str) -> (r: String)
    ensures
        r@ == br_lines(s@),
{
    broadcast use vstd::string::group_string_axioms;
    let mut out = String::new();
    for c in it: s.chars()
        invariant
            it.seq() == s@,
            out@ == br_lines(s@.take(it.index())),
    {
        assert(s@.take(it.index() + 1).drop_last() =~= s@.take(it.index()));
        if c == '\n' {
            out.append("<br/>");
        } else {
            push_char(&mut out, c);
        }
    }
    assert(s@.take(s@.len() as int) =~= s@);
    out
}

} // verus!
