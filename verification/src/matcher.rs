//! Case-insensitive literal-substring matching for free-text search. The
//! query string is escaped and compiled once; the compiled matcher is then
//! run over the name, summary and description of every catalog entry.

use vstd::prelude::*;

verus! {

#[verifier::external_type_specification]
#[verifier::external_body]
pub struct ExRegex(regex::Regex);

/// The number of bytes of the UTF-8 encoding of `s`; match positions are byte
/// offsets into that encoding.
pub open spec fn byte_len(s: Seq<char>) -> int {
    vstd::utf8::encode_utf8(s).len() as int
}

/// Byte offsets `(start, end)` of the leftmost case-insensitive occurrence of
/// the literal `query` in `text`, or `None` when `text` does not contain it.
/// The exact positions are a function of the two character sequences alone,
/// so they are left uninterpreted and pinned to the outside matcher below.
pub uninterp spec fn ci_find(query: Seq<char>, text: Seq<char>) -> Option<(int, int)>;

/// Does the escaped query compile into a matcher? The regex engine accepts
/// or rejects the escaped pattern deterministically (rejection happens only
/// over its fixed compiled-size limit), so the answer is a function of the
/// query text alone; it is left uninterpreted and pinned to the outside
/// builder below.
pub uninterp spec fn query_compiles(q: Seq<char>) -> bool;

/// A query string compiled into a case-insensitive literal-substring matcher.
pub struct QueryMatcher {
    query: String,
    regex: regex::Regex,
}

impl View for QueryMatcher {
    type V = Seq<char>;

    closed spec fn view(&self) -> Seq<char> {
        self.query@
    }
}

impl QueryMatcher {
    /// Relies on regex::escape and regex::RegexBuilder: escaping makes the
    /// pattern match the query text literally, the builder flag makes the
    /// match case-insensitive, and whether the escaped pattern compiles
    /// depends on the query text alone.
    #[verifier::external_body]
    pub(crate) fn compile(query: &str) -> (r: Option<QueryMatcher>)
        ensures
            r matches Some(m) ==> m@ == query@,
            r is Some <==> query_compiles(query@),
    {
        let pattern = regex::escape(query);
        match regex::RegexBuilder::new(&pattern).case_insensitive(true).build() {
            Ok(regex) => Some(QueryMatcher { query: query.to_owned(), regex }),
            Err(_) => None,
        }
    }

    /// Relies on regex::Regex::find: it returns the byte offsets of the first
    /// match of the compiled pattern in `text`, with start <= end <= the byte
    /// length of `text`, or `None` when there is no match.
    #[verifier::external_body]
    pub(crate) fn find(&self, text: &str) -> (r: Option<(usize, usize)>)
        ensures
            r matches Some(p) ==> ci_find(self@, text@) == Some((p.0 as int, p.1 as int)),
            r matches Some(p) ==> p.0 <= p.1 <= byte_len(text@),
            r is None ==> ci_find(self@, text@) is None,
    {
        self.regex.find(text).map(|m| (m.start(), m.end()))
    }
}

} // verus!
