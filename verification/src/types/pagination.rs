//! The window of a listing that a request asks for, read from its query parameters.

use crate::decimal::{parse_number, parse_number_spec, ParseIntFailure};
use crate::error::{Error, ErrorView};
use vstd::hash_map::StringHashMap;
use vstd::prelude::*;

verus! {

/// A window of a listing: `limit` records, starting after the first `offset` ones.
///
/// Nothing ties the window to the size of a listing: where it reaches beyond the end, it is
/// cut short when it is applied.
#[derive(Debug, Clone, Copy, PartialEq, Eq, Structural)]
pub struct Pagination {
    pub offset: usize,
    pub limit: usize,
}

/// The parameters of a query: each name with its value, in no order.
pub struct QueryParams {
    map: StringHashMap<String>,
}

impl View for QueryParams {
    type V = Map<Seq<char>, Seq<char>>;

    closed spec fn view(&self) -> Map<Seq<char>, Seq<char>> {
        Map::new(|name: Seq<char>| self.map@.contains_key(name), |name: Seq<char>| self.map@[name]@)
    }
}

impl QueryParams {
    /// A query without parameters.
    pub fn new() -> (params: QueryParams)
        ensures
            params@ == Map::<Seq<char>, Seq<char>>::empty(),
    {
        let params = QueryParams { map: StringHashMap::new() };
        assert(params@ =~= Map::<Seq<char>, Seq<char>>::empty());
        params
    }

    /// Gives the parameter `name` the value `value`, in place of the value that it had, if
    /// it had one.
    pub fn insert(&mut self, name: String, value: String)
        ensures
            final(self)@ == old(self)@.insert(name@, value@),
    {
        self.map.insert(name, value);
        assert(self@ =~= old(self)@.insert(name@, value@));
    }

    /// Whether the query has no parameter.
    pub fn is_empty(&self) -> (empty: bool)
        ensures
            empty == (self@ == Map::<Seq<char>, Seq<char>>::empty()),
    {
        let empty = self.map.is_empty();
        proof {
            if empty {
                assert(self@ =~= Map::<Seq<char>, Seq<char>>::empty());
            } else {
                let name = choose|name: Seq<char>| self.map@.contains_key(name);
                assert(self@.contains_key(name));
            }
        }
        empty
    }

    /// Whether the query has the parameter `name`.
    pub fn contains_key(&self, name: &str) -> (found: bool)
        ensures
            found == self@.contains_key(name@),
    {
        self.map.contains_key(name)
    }

    /// The value of the parameter `name`, if the query has it.
    pub fn get(&self, name: &str) -> (value: Option<&String>)
        ensures
            match value {
                Some(text) => self@.contains_key(name@) && text@ == self@[name@],
                None => !self@.contains_key(name@),
            },
    {
        self.map.get(name)
    }
}

/// The window from position `start` up to, not including, position `end`. Where `end` lies
/// before `start` the window is empty.
pub open spec fn window(start: usize, end: usize) -> Pagination {
    Pagination {
        offset: start,
        limit: if end >= start {
            (end - start) as usize
        } else {
            0
        },
    }
}

/// The failure of reading the parameter `field` from `raw_value`.
pub open spec fn parse_error(
    field: Seq<char>,
    raw_value: Seq<char>,
    cause: ParseIntFailure,
) -> ErrorView {
    ErrorView::ParameterParseError { field, raw_value, cause }
}

/// What the query parameters `params` ask for.
///
/// Both `start` and `end` must be there. `start` is read first, so where neither is a number
/// the failure names `start`.
pub open spec fn extract_pagination_spec(params: Map<Seq<char>, Seq<char>>) -> Result<
    Pagination,
    ErrorView,
> {
    if !params.contains_key("start"@) || !params.contains_key("end"@) {
        Err(ErrorView::MissingParameters)
    } else {
        let start = params["start"@];
        let end = params["end"@];
        match parse_number_spec(start) {
            Err(cause) => Err(parse_error("start"@, start, cause)),
            Ok(first) => match parse_number_spec(end) {
                Err(cause) => Err(parse_error("end"@, end, cause)),
                Ok(last) => Ok(window(first, last)),
            },
        }
    }
}

/// Reads the number that the parameter `field` holds in `raw_value`.
fn read_parameter(field: &str, raw_value: &String) -> (r: Result<usize, Error>)
    ensures
        match parse_number_spec(raw_value@) {
            Ok(n) => r == Ok::<usize, Error>(n),
            Err(cause) => r matches Err(e) && e@ == parse_error(field@, raw_value@, cause),
        },
{
    match parse_number(raw_value.as_str()) {
        Ok(n) => Ok(n),
        Err(cause) => Err(
            Error::ParameterParseError {
                field: String::from_str(field),
                raw_value: raw_value.clone(),
                cause,
            },
        ),
    }
}

/// Reads the window that the query parameters ask for.
///
/// Fails with `MissingParameters` unless both `start` and `end` are given, and with
/// `ParameterParseError` where one of them is not a number.
pub fn extract_pagination(params: QueryParams) -> (r: Result<Pagination, Error>)
    ensures
        match extract_pagination_spec(params@) {
            Ok(p) => r == Ok::<Pagination, Error>(p),
            Err(e) => r matches Err(err) && err@ == e,
        },
{
    match (params.get("start"), params.get("end")) {
        (Some(start), Some(end)) => {
            let first = match read_parameter("start", start) {
                Ok(n) => n,
                Err(e) => {
                    return Err(e);
                },
            };
            let last = match read_parameter("end", end) {
                Ok(n) => n,
                Err(e) => {
                    return Err(e);
                },
            };
            let limit = if last >= first {
                last - first
            } else {
                0
            };
            Ok(Pagination { offset: first, limit })
        },
        _ => Err(Error::MissingParameters),
    }
}

/// A query that names exactly one of `start` and `end` is refused for its missing
/// parameter, whatever the one that it names holds.
pub proof fn lemma_one_parameter_is_missing_parameters(params: Map<Seq<char>, Seq<char>>)
    requires
        params.contains_key("start"@) != params.contains_key("end"@),
    ensures
        extract_pagination_spec(params) == Err::<Pagination, ErrorView>(
            ErrorView::MissingParameters,
        ),
{
}

/// A query that gives both parameters, one of them not as a number, is refused with a
/// failure that names that parameter and holds its text. Where neither is a number, the
/// failure names `start`.
pub proof fn lemma_not_a_number_names_the_parameter(params: Map<Seq<char>, Seq<char>>)
    requires
        params.contains_key("start"@),
        params.contains_key("end"@),
        parse_number_spec(params["start"@]) is Err || parse_number_spec(params["end"@]) is Err,
    ensures
        extract_pagination_spec(params) matches Err(
            ErrorView::ParameterParseError { field, raw_value, cause },
        ) && (if parse_number_spec(params["start"@]) is Err {
            field == "start"@ && raw_value == params["start"@] && parse_number_spec(raw_value)
                == Err::<usize, ParseIntFailure>(cause)
        } else {
            field == "end"@ && raw_value == params["end"@] && parse_number_spec(raw_value)
                == Err::<usize, ParseIntFailure>(cause)
        }),
{
}

/// A query whose parameters are both numbers is accepted, and asks for the window between
/// them.
pub proof fn lemma_two_numbers_give_the_window(
    params: Map<Seq<char>, Seq<char>>,
    start: usize,
    end: usize,
)
    requires
        params.contains_key("start"@),
        params.contains_key("end"@),
        parse_number_spec(params["start"@]) == Ok::<usize, ParseIntFailure>(start),
        parse_number_spec(params["end"@]) == Ok::<usize, ParseIntFailure>(end),
    ensures
        extract_pagination_spec(params) == Ok::<Pagination, ErrorView>(window(start, end)),
{
}

} // verus!
