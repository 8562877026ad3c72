//! Query-string parameters, read with the `qstring` crate.

use vstd::prelude::*;
use vstd::utf8::is_ascii_chars;

verus! {

#[verifier::external_type_specification]
#[verifier::external_body]
pub struct ExQString(qstring::QString);

/// The (name, value) pairs that `QString::from` finds in a query text, in
/// order of appearance, names and values percent-decoded.
pub uninterp spec fn parsed_query(query: Seq<char>) -> Seq<(Seq<char>, Seq<char>)>;

/// The (name, value) pairs a `QString` holds, in order; a name given without
/// a value holds the empty value.
pub uninterp spec fn qstring_pairs(qs: qstring::QString) -> Seq<(Seq<char>, Seq<char>)>;

/// The value of the first pair with the given name.
pub open spec fn first_value(pairs: Seq<(Seq<char>, Seq<char>)>, name: Seq<char>) -> Option<Seq<char>>
    decreases pairs.len(),
{
    if pairs.len() == 0 {
        None
    } else if pairs[0].0 == name {
        Some(pairs[0].1)
    } else {
        first_value(pairs.drop_first(), name)
    }
}

/// The value that a query text gives a parameter, if it names it.
pub open spec fn query_value(query: Seq<char>, name: Seq<char>) -> Option<Seq<char>> {
    first_value(parsed_query(query), name)
}

/// Calls `qstring::QString::from(&str)`. Its source slices the text at byte
/// offsets one past a '?' or '&', which panics unless that offset is a
/// character boundary; on ASCII text (all that an HTTP request line can
/// carry in its query) it never panics. The pairs it finds are named, not
/// spelled out: the splitting on '&' and '=' and the percent-decoding are
/// left unstated.
#[verifier::external_body]
fn qstring_from(query: &str) -> (qs: qstring::QString)
    requires
        is_ascii_chars(query@),
    ensures
        qstring_pairs(qs) == parsed_query(query@),
{
    qstring::QString::from(query)
}

/// Calls `qstring::QString::get`, which per its source returns the value of
/// the first pair whose name equals `name` (the empty text for a name given
/// without a value).
#[verifier::external_body]
fn qstring_get(qs: &qstring::QString, name: &str) -> (res: Option<String>)
    ensures
        res.deep_view() == first_value(qstring_pairs(*qs), name@),
{
    qs.get(name).map(String::from)
}

/// The parameters of a request's query text.
pub struct QueryParams {
    parsed: qstring::QString,
}

impl QueryParams {
    pub closed spec fn pairs(&self) -> Seq<(Seq<char>, Seq<char>)> {
        qstring_pairs(self.parsed)
    }

    /// Reads the parameters of an ASCII query text.
    pub fn parse(query: &str) -> (res: QueryParams)
        requires
            is_ascii_chars(query@),
        ensures
            res.pairs() == parsed_query(query@),
    {
        QueryParams { parsed: qstring_from(query) }
    }

    /// The value of the first parameter with this name.
    pub fn get(&self, name: &str) -> (res: Option<String>)
        ensures
            res.deep_view() == first_value(self.pairs(), name@),
    {
        qstring_get(&self.parsed, name)
    }
}

/// A name's value is the value of its first occurrence among the pairs:
/// the pair at `i` gives it when no earlier pair has the name, and a name
/// that no pair has has no value.
pub proof fn lemma_first_occurrence_wins(pairs: Seq<(Seq<char>, Seq<char>)>, name: Seq<char>, i: int)
    ensures
        0 <= i < pairs.len() && pairs[i].0 == name && (forall|j: int| 0 <= j < i ==> pairs[j].0 != name)
            ==> first_value(pairs, name) == Some(pairs[i].1),
        (forall|j: int| 0 <= j < pairs.len() ==> pairs[j].0 != name) ==> first_value(pairs, name) is None,
    decreases pairs.len(),
{
    if pairs.len() > 0 {
        lemma_first_occurrence_wins(pairs.drop_first(), name, i - 1);
        if 0 < i < pairs.len() && pairs[i].0 == name && (forall|j: int| 0 <= j < i ==> pairs[j].0 != name) {
            assert(pairs[0].0 != name);
            assert forall|j: int| 0 <= j < i - 1 implies pairs.drop_first()[j].0 != name by {
                assert(pairs.drop_first()[j] == pairs[j + 1]);
            }
        }
        if forall|j: int| 0 <= j < pairs.len() ==> pairs[j].0 != name {
            assert(pairs[0].0 != name);
            assert forall|j: int| 0 <= j < pairs.drop_first().len() implies pairs.drop_first()[j].0 != name by {
                assert(pairs.drop_first()[j] == pairs[j + 1]);
            }
        }
    }
}

} // verus!
