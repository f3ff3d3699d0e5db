//! The query string of a request.
//!
//! A query string is a row of pairs separated by `&`. Within a pair the
//! name is what stands before the first `=`, the value what stands between
//! the first and the second `=`; a pair without `=` has an empty value.
//! Where a name occurs in several pairs, the last pair counts.

use crate::codec::{percent_decode, percent_decoded};
use crate::pagination::DEFAULT_PAGE;
use crate::text::{
    is_digit, is_numeral, parse_usize, parsed_usize, same_text, split, split_on, texts_of,
};
use vstd::prelude::*;

verus! {

/// The name and the value that one piece of a query string gives.
pub open spec fn pair_of(piece: Seq<char>) -> (Seq<char>, Seq<char>) {
    let parts = split_on(piece, '=');
    (
        parts[0],
        if parts.len() > 1 {
            parts[1]
        } else {
            Seq::empty()
        },
    )
}

/// The pairs of a query string, in order.
pub open spec fn pairs_of(query: Seq<char>) -> Seq<(Seq<char>, Seq<char>)> {
    split_on(query, '&').map_values(|piece: Seq<char>| pair_of(piece))
}

/// The parameters that a row of pairs gives: each pair is put into the map
/// in turn, so a later pair replaces an earlier one of the same name.
pub open spec fn collected(pairs: Seq<(Seq<char>, Seq<char>)>) -> Map<Seq<char>, Seq<char>>
    decreases pairs.len(),
{
    if pairs.len() == 0 {
        Map::empty()
    } else {
        collected(pairs.drop_last()).insert(pairs.last().0, pairs.last().1)
    }
}

/// The parameters of a request: none where the request has no query string.
pub open spec fn params_of(query: Option<Seq<char>>) -> Map<Seq<char>, Seq<char>> {
    match query {
        Some(text) => collected(pairs_of(text)),
        None => Map::empty(),
    }
}

/// What a list of pairs of strings says, pair by pair.
pub open spec fn pair_texts(pairs: Seq<(String, String)>) -> Seq<(Seq<char>, Seq<char>)> {
    pairs.map_values(|pair: (String, String)| (pair.0@, pair.1@))
}

/// The number that a parameter gives: the default where the parameter is
/// missing or does not write a machine word in decimal.
pub open spec fn number_param(
    params: Map<Seq<char>, Seq<char>>,
    name: Seq<char>,
    default: usize,
) -> usize {
    if params.contains_key(name) {
        match parsed_usize(params[name]) {
            Some(n) => n,
            None => default,
        }
    } else {
        default
    }
}

/// Whether a parameter is present with the value `true`.
pub open spec fn flag_param(params: Map<Seq<char>, Seq<char>>, name: Seq<char>) -> bool {
    params.contains_key(name) && params[name] == "true"@
}

/// The page that the parameters ask for.
pub open spec fn requested_page(params: Map<Seq<char>, Seq<char>>) -> usize {
    number_param(params, "page"@, DEFAULT_PAGE)
}

/// The page size that the parameters ask for.
pub open spec fn requested_size(params: Map<Seq<char>, Seq<char>>, default: usize) -> usize {
    number_param(params, "size"@, default)
}

/// A text with its percent escapes replaced; the text itself where the
/// replaced bytes are not UTF-8.
pub open spec fn decoded_or_raw(text: Seq<char>) -> Seq<char> {
    match percent_decoded(text) {
        Some(decoded) => decoded,
        None => text,
    }
}

/// The parameters of a request, as the pairs of its query string in order.
#[derive(Clone, Debug, PartialEq, Eq)]
pub struct QueryParams {
    pub pairs: Vec<(String, String)>,
}

impl View for QueryParams {
    type V = Map<Seq<char>, Seq<char>>;

    open spec fn view(&self) -> Map<Seq<char>, Seq<char>> {
        collected(pair_texts(self.pairs@))
    }
}

/// A name that no pair has is not among the parameters.
pub proof fn lemma_param_absent(pairs: Seq<(Seq<char>, Seq<char>)>, name: Seq<char>)
    requires
        forall|i: int| 0 <= i < pairs.len() ==> (#[trigger] pairs[i]).0 != name,
    ensures
        !collected(pairs).contains_key(name),
    decreases pairs.len(),
{
    if pairs.len() > 0 {
        assert(pairs.last() == pairs[pairs.len() - 1]);
        lemma_param_absent(pairs.drop_last(), name);
    }
}

/// The last pair of a name gives the parameter.
pub proof fn lemma_param_found(pairs: Seq<(Seq<char>, Seq<char>)>, at: int, name: Seq<char>)
    requires
        0 <= at < pairs.len(),
        pairs[at].0 == name,
        forall|i: int| at < i < pairs.len() ==> (#[trigger] pairs[i]).0 != name,
    ensures
        collected(pairs).contains_key(name),
        collected(pairs)[name] == pairs[at].1,
    decreases pairs.len(),
{
    if at < pairs.len() - 1 {
        assert(pairs.last() == pairs[pairs.len() - 1]);
        lemma_param_found(pairs.drop_last(), at, name);
    }
}

/// A number that is missing or is no decimal numeral counts as not given:
/// the default is used.
pub proof fn lemma_unreadable_number(
    params: Map<Seq<char>, Seq<char>>,
    name: Seq<char>,
    default: usize,
)
    requires
        !params.contains_key(name) || !is_numeral(params[name]),
    ensures
        number_param(params, name, default) == default,
{
}

/// A text that begins with a character that is neither a digit nor a plus
/// sign is no decimal numeral.
pub proof fn lemma_not_a_numeral(text: Seq<char>)
    requires
        text.len() == 0 || (!is_digit(text[0]) && text[0] != '+'),
    ensures
        !is_numeral(text),
        parsed_usize(text) is None,
{
    if text.len() > 0 {
        assert(crate::text::numeral_digits(text)[0] == text[0]);
    }
}

impl QueryParams {
    /// No parameters.
    pub fn new() -> (params: QueryParams)
        ensures
            params@ == Map::<Seq<char>, Seq<char>>::empty(),
    {
        let params = QueryParams { pairs: Vec::new() };
        proof {
            assert(pair_texts(params.pairs@) =~= Seq::empty());
        }
        params
    }

    /// Reads the query string of a request, if it has one.
    pub fn parse(query: Option<&str>) -> (params: QueryParams)
        ensures
            params@ == params_of(
                match query {
                    Some(text) => Some(text@),
                    None => None,
                },
            ),
    {
        let text = match query {
            Some(text) => text,
            None => {
                return QueryParams::new();
            },
        };
        let pieces = split(text, '&');
        let mut pairs: Vec<(String, String)> = Vec::new();
        let mut i: usize = 0;
        while i < pieces.len()
            invariant
                i <= pieces.len(),
                texts_of(pieces@) == split_on(text@, '&'),
                pair_texts(pairs@) == pairs_of(text@).take(i as int),
            decreases pieces.len() - i,
        {
            let parts = split(pieces[i].as_str(), '=');
            let name = parts[0].clone();
            let value = if parts.len() > 1 {
                parts[1].clone()
            } else {
                String::new()
            };
            proof {
                let piece = pieces@[i as int]@;
                assert(texts_of(pieces@)[i as int] == piece);
                assert(texts_of(parts@).len() == parts@.len());
                assert(texts_of(parts@)[0] == parts@[0]@);
                if parts.len() > 1 {
                    assert(texts_of(parts@)[1] == parts@[1]@);
                }
                assert((name@, value@) == pair_of(piece));
                assert(pairs_of(text@).len() == pieces@.len());
                assert(pairs_of(text@)[i as int] == pair_of(piece));
                assert(pair_texts(pairs@.push((name, value))) =~= pair_texts(pairs@).push(
                    (name@, value@),
                ));
                assert(pairs_of(text@).take(i as int).push(pairs_of(text@)[i as int])
                    =~= pairs_of(text@).take(i + 1));
            }
            pairs.push((name, value));
            i += 1;
        }
        proof {
            assert(pairs_of(text@).take(i as int) =~= pairs_of(text@));
        }
        QueryParams { pairs }
    }

    /// The value of a parameter, if the request has it.
    pub fn get(&self, name: &str) -> (value: Option<&String>)
        ensures
            match value {
                Some(text) => self@.contains_key(name@) && self@[name@] == text@,
                None => !self@.contains_key(name@),
            },
    {
        let ghost pairs = pair_texts(self.pairs@);
        let mut i: usize = self.pairs.len();
        while i > 0
            invariant
                i <= self.pairs.len(),
                pairs == pair_texts(self.pairs@),
                forall|j: int| i <= j < pairs.len() ==> (#[trigger] pairs[j]).0 != name@,
            decreases i,
        {
            i -= 1;
            if same_text(self.pairs[i].0.as_str(), name) {
                proof {
                    lemma_param_found(pairs, i as int, name@);
                }
                return Some(&self.pairs[i].1);
            }
        }
        proof {
            lemma_param_absent(pairs, name@);
        }
        None
    }

    /// The number that a parameter gives, or the default.
    pub fn number(&self, name: &str, default: usize) -> (n: usize)
        ensures
            n == number_param(self@, name@, default),
    {
        match self.get(name) {
            Some(text) => match parse_usize(text.as_str()) {
                Some(n) => n,
                None => default,
            },
            None => default,
        }
    }

    /// Whether a parameter is present with the value `true`.
    pub fn flag(&self, name: &str) -> (set: bool)
        ensures
            set == flag_param(self@, name@),
    {
        match self.get(name) {
            Some(text) => same_text(text.as_str(), "true"),
            None => false,
        }
    }

    /// The page that the request asks for.
    pub fn page(&self) -> (page: usize)
        ensures
            page == requested_page(self@),
    {
        self.number("page", DEFAULT_PAGE)
    }

    /// The page size that the request asks for.
    pub fn size(&self, default: usize) -> (size: usize)
        ensures
            size == requested_size(self@, default),
    {
        self.number("size", default)
    }
}

/// What follows a call of the percent decoder: the decoded text where there
/// is one, the text as it came otherwise.
pub fn decoded_or(raw: &str, decoded: Option<String>) -> (text: String)
    ensures
        text@ == match decoded {
            Some(d) => d@,
            None => raw@,
        },
{
    match decoded {
        Some(d) => d,
        None => raw.to_owned(),
    }
}

/// Replaces the percent escapes of a text; the text stays as it is where
/// the replaced bytes are not UTF-8.
pub fn decode_or_raw(raw: &str) -> (text: String)
    ensures
        text@ == decoded_or_raw(raw@),
{
    let decoded = match percent_decode(raw) {
        Ok(d) => Some(d),
        Err(_) => None,
    };
    decoded_or(raw, decoded)
}

} // verus!
