//! XML escaping of request values, done by quick-xml.

use vstd::prelude::*;

verus! {

/// What one character becomes in escaped XML text: the five XML special
/// characters and the carriage return are replaced by references, every other
/// character stands for itself.
pub open spec fn escape_char(c: char) -> Seq<char> {
    if c == '<' {
        seq!['&', 'l', 't', ';']
    } else if c == '>' {
        seq!['&', 'g', 't', ';']
    } else if c == '&' {
        seq!['&', 'a', 'm', 'p', ';']
    } else if c == '\'' {
        seq!['&', 'a', 'p', 'o', 's', ';']
    } else if c == '"' {
        seq!['&', 'q', 'u', 'o', 't', ';']
    } else if c == '\r' {
        seq!['&', '#', '1', '3', ';']
    } else {
        seq![c]
    }
}

/// Escaped XML text of `s`: each character replaced as `escape_char` says.
pub open spec fn xml_escape(s: Seq<char>) -> Seq<char>
    decreases s.len(),
{
    if s.len() == 0 {
        Seq::empty()
    } else {
        xml_escape(s.drop_last()) + escape_char(s.last())
    }
}

/// `quick_xml::escape::escape`: replaces `<`, `>`, `&`, `'`, `"` and `\r` by
/// `&lt;`, `&gt;`, `&amp;`, `&apos;`, `&quot;` and `&#13;`, and keeps every
/// other character, as the crate documents it and its source does.
#[verifier::external_body]
pub(crate) fn escape(raw: &str) -> (escaped: String)
    ensures
        escaped@ == xml_escape(raw@),
{
    quick_xml::escape::escape(raw).into_owned()
}

} // verus!
