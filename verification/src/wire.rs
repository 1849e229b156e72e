//! The flat document that carries a message: one root element whose
//! children are the message's fields, each a name and a text.

use std::collections::BTreeMap;
use vstd::prelude::*;
use vstd::string::*;
use vstd::utf8::*;
use crate::text::str_equal;

verus! {

/// One field of a message: the name of its element and the text in it.
#[derive(Debug, Clone, PartialEq, Eq)]
pub struct Field {
    pub name: String,
    pub value: String,
}

impl View for Field {
    type V = (Seq<char>, Seq<char>);

    open spec fn view(&self) -> (Seq<char>, Seq<char>) {
        (self.name@, self.value@)
    }
}

/// The names and texts of a list of fields, in its order.
pub open spec fn fields_view(fields: Seq<Field>) -> Seq<(Seq<char>, Seq<char>)> {
    Seq::new(fields.len(), |i: int| fields[i]@)
}

/// The text of the first field called `name`, if there is one.
pub open spec fn field_value(fields: Seq<(Seq<char>, Seq<char>)>, name: Seq<char>) -> Option<
    Seq<char>,
>
    decreases fields.len(),
{
    if fields.len() == 0 {
        None
    } else if fields[0].0 == name {
        Some(fields[0].1)
    } else {
        field_value(fields.drop_first(), name)
    }
}

/// The first field called `name` is the one at `i` if that one has the
/// name and none before it has.
pub proof fn lemma_field_value_at(fields: Seq<(Seq<char>, Seq<char>)>, name: Seq<char>, i: int)
    requires
        0 <= i < fields.len(),
        fields[i].0 == name,
        forall|j: int| 0 <= j < i ==> fields[j].0 != name,
    ensures
        field_value(fields, name) == Some(fields[i].1),
    decreases i,
{
    if i > 0 {
        lemma_field_value_at(fields.drop_first(), name, i - 1);
    }
}

/// No field is found under a name that no field has.
pub proof fn lemma_field_value_absent(fields: Seq<(Seq<char>, Seq<char>)>, name: Seq<char>)
    requires
        forall|j: int| 0 <= j < fields.len() ==> fields[j].0 != name,
    ensures
        field_value(fields, name) is None,
    decreases fields.len(),
{
    if fields.len() > 0 {
        lemma_field_value_absent(fields.drop_first(), name);
    }
}

/// Looks up the text of the first field called `name`.
pub fn find_field<'a>(fields: &'a Vec<Field>, name: &str) -> (r: Option<&'a String>)
    ensures
        text_of(r) == field_value(fields_view(fields@), name@),
{
    let ghost all = fields_view(fields@);
    let mut i: usize = 0;
    assert(all.skip(0) =~= all);
    while i < fields.len()
        invariant
            i <= fields.len(),
            all == fields_view(fields@),
            field_value(all, name@) == field_value(all.skip(i as int), name@),
        decreases fields.len() - i,
    {
        let field = &fields[i];
        proof {
            assert(all.skip(i as int).drop_first() =~= all.skip(i + 1));
        }
        if str_equal(field.name.as_str(), name) {
            return Some(&field.value);
        }
        i = i + 1;
    }
    None
}

/// The characters of an optional borrowed string.
pub open spec fn text_of(o: Option<&String>) -> Option<Seq<char>> {
    match o {
        Some(s) => Some(s@),
        None => None,
    }
}

/// Appends a field to a list.
pub fn push_field(fields: &mut Vec<Field>, name: &str, value: String)
    ensures
        fields_view(final(fields)@) == fields_view(old(fields)@).push((name@, value@)),
{
    let field = Field { name: name.to_owned(), value };
    fields.push(field);
}

/// What stands in a document for one character of a text: the three
/// characters that would read as markup are written as entities.
pub open spec fn escaped_char(c: char) -> Seq<char> {
    if c == '&' {
        seq!['&', 'a', 'm', 'p', ';']
    } else if c == '<' {
        seq!['&', 'l', 't', ';']
    } else if c == '>' {
        seq!['&', 'g', 't', ';']
    } else {
        seq![c]
    }
}

/// A text as it stands in a document.
pub open spec fn escaped(text: Seq<char>) -> Seq<char>
    decreases text.len(),
{
    if text.len() == 0 {
        Seq::empty()
    } else {
        escaped(text.drop_last()) + escaped_char(text.last())
    }
}

/// A text as it stands in a document holds neither of the two characters
/// that open and close a tag, so no text can be taken for markup.
pub proof fn lemma_escaped_has_no_markup(text: Seq<char>)
    ensures
        forall|i: int|
            0 <= i < escaped(text).len() ==> (#[trigger] escaped(text)[i]) != '<' && escaped(
                text,
            )[i] != '>',
    decreases text.len(),
{
    if text.len() > 0 {
        lemma_escaped_has_no_markup(text.drop_last());
        let head = escaped(text.drop_last());
        let tail = escaped_char(text.last());
        assert forall|i: int| 0 <= i < escaped(text).len() implies (#[trigger] escaped(text)[i])
            != '<' && escaped(text)[i] != '>' by {
            if i < head.len() {
                assert(escaped(text)[i] == head[i]);
            } else {
                assert(escaped(text)[i] == tail[i - head.len()]);
            }
        }
    }
}

/// One element: its name in a start tag, its text, its name in an end tag.
pub open spec fn element(name: Seq<char>, value: Seq<char>) -> Seq<char> {
    seq!['<'] + name + seq!['>'] + escaped(value) + seq!['<', '/'] + name + seq!['>']
}

/// The elements of a list of fields, one after the other.
pub open spec fn elements(fields: Seq<(Seq<char>, Seq<char>)>) -> Seq<char>
    decreases fields.len(),
{
    if fields.len() == 0 {
        Seq::empty()
    } else {
        elements(fields.drop_last()) + element(fields.last().0, fields.last().1)
    }
}

/// The document of a message: the root element, named `root`, around the
/// elements of the fields. Nothing stands before, between or after them.
/// Texts are written whole, white space at their ends included, though a
/// reader that trims what it reads will not give that white space back.
pub open spec fn document(root: Seq<char>, fields: Seq<(Seq<char>, Seq<char>)>) -> Seq<char> {
    seq!['<'] + root + seq!['>'] + elements(fields) + seq!['<', '/'] + root + seq!['>']
}

/// Appends a text to `out` as it stands in a document.
fn push_escaped(out: &mut String, text: &str)
    ensures
        final(out)@ == old(out)@ + escaped(text@),
{
    for c in it: text.chars()
        invariant
            it.seq() == text@,
            out@ == old(out)@ + escaped(text@.take(it.index())),
    {
        if c == '&' {
            out.append("&amp;");
            proof {
                reveal_strlit("&amp;");
            }
        } else if c == '<' {
            out.append("&lt;");
            proof {
                reveal_strlit("&lt;");
            }
        } else if c == '>' {
            out.append("&gt;");
            proof {
                reveal_strlit("&gt;");
            }
        } else {
            out.push(c);
        }
        proof {
            let next = text@.take(it.index() + 1);
            assert(next.drop_last() =~= text@.take(it.index()));
        }
    }
    assert(text@.take(text@.len() as int) =~= text@);
}

/// Appends one element to `out`.
fn push_element(out: &mut String, name: &str, value: &str)
    ensures
        final(out)@ == old(out)@ + element(name@, value@),
{
    out.push('<');
    out.append(name);
    out.push('>');
    push_escaped(out, value);
    out.push('<');
    out.push('/');
    out.append(name);
    out.push('>');
}

/// Writes the document of a message whose root element is called `root`.
pub fn render_document(root: &str, fields: &Vec<Field>) -> (r: String)
    ensures
        r@ == document(root@, fields_view(fields@)),
{
    let ghost all = fields_view(fields@);
    let mut out = String::new();
    out.push('<');
    out.append(root);
    out.push('>');
    let ghost head = out@;
    let mut i: usize = 0;
    while i < fields.len()
        invariant
            i <= fields.len(),
            all == fields_view(fields@),
            head == seq!['<'] + root@ + seq!['>'],
            out@ == head + elements(all.take(i as int)),
        decreases fields.len() - i,
    {
        let field = &fields[i];
        push_element(&mut out, field.name.as_str(), field.value.as_str());
        proof {
            let next = all.take(i + 1);
            assert(next.drop_last() =~= all.take(i as int));
        }
        i = i + 1;
    }
    assert(all.take(fields.len() as int) =~= all);
    out.push('<');
    out.push('/');
    out.append(root);
    out.push('>');
    out
}

/// The fields that `serde_xml_rs::from_str` reads from a document when it
/// is asked for a map from names to texts: `None` where it refuses the
/// document, else the fields in the order of their names, each name once.
pub uninterp spec fn xml_fields_of(text: Seq<char>) -> Option<Seq<(Seq<char>, Seq<char>)>>;

/// The error with which `serde_xml_rs` refuses a document.
#[verifier::external_type_specification]
#[verifier::external_body]
pub struct ExXmlError(serde_xml_rs::Error);

/// Calls `serde_xml_rs::from_str` for a map from names to texts and hands
/// the map's entries out as a list. Trusted: what comes back depends on
/// the text alone. The parser reads the root element's attributes and
/// child elements as fields, trims the text of each, keeps the last of
/// several fields of one name, and refuses a document that is not well
/// formed or in which a child holds elements of its own.
#[verifier::external_body]
fn parse_fields(text: &str) -> (r: Result<Vec<Field>, serde_xml_rs::Error>)
    ensures
        r is Ok <==> xml_fields_of(text@) is Some,
        r is Ok ==> fields_view(r->Ok_0@) == xml_fields_of(text@)->0,
{
    let parsed: Result<BTreeMap<String, String>, serde_xml_rs::Error> = serde_xml_rs::from_str(
        text,
    );
    match parsed {
        Ok(map) => Ok(map.into_iter().map(|(name, value)| Field { name, value }).collect()),
        Err(e) => Err(e),
    }
}

/// Calls `std::str::from_utf8`. Trusted: the bytes are accepted exactly
/// when they are well-formed UTF-8, and the string then holds the
/// characters that they encode.
#[verifier::external_body]
fn utf8_text(bytes: &[u8]) -> (r: Option<&str>)
    ensures
        r is Some <==> valid_utf8(bytes@),
        r is Some ==> r->0@ == decode_utf8(bytes@),
{
    match std::str::from_utf8(bytes) {
        Ok(text) => Some(text),
        Err(_) => None,
    }
}

/// The fields of the document that a run of bytes holds: `None` where the
/// bytes are not UTF-8 or the text is no document that can be read.
pub open spec fn document_fields(bytes: Seq<u8>) -> Option<Seq<(Seq<char>, Seq<char>)>> {
    if valid_utf8(bytes) {
        xml_fields_of(decode_utf8(bytes))
    } else {
        None
    }
}

/// Reads the fields of the document that `bytes` holds.
pub fn read_document(bytes: &[u8]) -> (r: Option<Vec<Field>>)
    ensures
        r is Some <==> document_fields(bytes@) is Some,
        r is Some ==> fields_view(r->0@) == document_fields(bytes@)->0,
{
    match utf8_text(bytes) {
        None => None,
        Some(text) => match parse_fields(text) {
            Ok(fields) => Some(fields),
            Err(_) => None,
        },
    }
}

} // verus!
