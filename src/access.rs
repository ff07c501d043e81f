use vstd::prelude::*;

use crate::error::ApiError;
use crate::graph::{detail_of, CreateGraphRequest, Graph, GraphDetail};
use crate::translate::{is_runnable, lemma_translation_keeps_soundness, translates_graph, GraphData};

verus! {

/// Longest graph name accepted, in characters.
pub const NAME_MAX_CHARS: u64 = 100;

/// Longest graph description accepted, in characters.
pub const DESCRIPTION_MAX_CHARS: u64 = 500;

/// `c` has the Unicode White_Space property.
pub open spec fn is_white_space(c: char) -> bool {
    let u = c as u32;
    ||| 0x09 <= u <= 0x0d
    ||| u == 0x20
    ||| u == 0x85
    ||| u == 0xa0
    ||| u == 0x1680
    ||| 0x2000 <= u <= 0x200a
    ||| u == 0x2028
    ||| u == 0x2029
    ||| u == 0x202f
    ||| u == 0x205f
    ||| u == 0x3000
}

/// Every character of `s` is white space (so is the empty string).
pub open spec fn is_blank_text(s: Seq<char>) -> bool {
    forall|i: int| 0 <= i < s.len() ==> is_white_space(#[trigger] s[i])
}

/// A name and description that a graph can be created with.
pub open spec fn is_valid_create(name: Seq<char>, description: Seq<char>) -> bool {
    &&& !is_blank_text(name)
    &&& 1 <= name.len() <= NAME_MAX_CHARS
    &&& 1 <= description.len() <= DESCRIPTION_MAX_CHARS
}

/// Relies on `char::is_whitespace`, which tests the Unicode White_Space
/// property.
#[verifier::external_body]
fn char_is_whitespace(c: char) -> (r: bool)
    ensures
        r == is_white_space(c),
{
    c.is_whitespace()
}

/// Relies on validator's `ValidateLength::validate_length` for `str`: the
/// length is the number of characters, and with a minimum and a maximum and
/// no exact length it holds when the minimum <= length <= the maximum.
#[verifier::external_body]
fn length_within(s: &str, min: u64, max: u64) -> (r: bool)
    ensures
        r == (min <= s@.len() && s@.len() <= max),
{
    validator::ValidateLength::<u64>::validate_length(s, Some(min), Some(max), None)
}

/// The text is empty or white space only.
pub fn is_blank(s: &str) -> (r: bool)
    ensures
        r == is_blank_text(s@),
{
    let n = s.unicode_len();
    let mut i: usize = 0;
    while i < n
        invariant
            n == s@.len(),
            i <= n,
            forall|k: int| 0 <= k < i ==> is_white_space(#[trigger] s@[k]),
        decreases n - i,
    {
        if !char_is_whitespace(s.get_char(i)) {
            return false;
        }
        i = i + 1;
    }
    true
}

impl CreateGraphRequest {
    /// Accepts a name that is not blank, of 1 to 100 characters, and a
    /// description of 1 to 500 characters.
    pub fn validate(&self) -> (r: Result<(), ApiError>)
        ensures
            r is Ok <==> is_valid_create(self.name@, self.description@),
            r is Err ==> r == Err::<(), ApiError>(ApiError::InvalidParams),
    {
        if is_blank(self.name.as_str()) {
            return Err(ApiError::InvalidParams);
        }
        if !length_within(self.name.as_str(), 1, NAME_MAX_CHARS) {
            return Err(ApiError::InvalidParams);
        }
        if !length_within(self.description.as_str(), 1, DESCRIPTION_MAX_CHARS) {
            return Err(ApiError::InvalidParams);
        }
        Ok(())
    }
}

/// `g` is present and `user` owns it.
pub open spec fn owned_by(g: Option<Graph>, user: Seq<char>) -> bool {
    match g {
        Some(g) => g.owner@ == user,
        None => false,
    }
}

/// What a read of a graph's detail answers: the detail when `user` owns the
/// graph, not-found both when it is missing and when it is someone else's.
pub fn read_access(g: Option<Graph>, user: &str) -> (r: Result<GraphDetail, ApiError>)
    ensures
        match r {
            Ok(d) => owned_by(g, user@) && d == detail_of(g.unwrap()),
            Err(e) => !owned_by(g, user@) && e == ApiError::GraphNotFound,
        },
{
    match g {
        Some(g) => {
            if crate::text::str_eq(g.owner.as_str(), user) {
                Ok(GraphDetail::from(g))
            } else {
                Err(ApiError::GraphNotFound)
            }
        },
        None => Err(ApiError::GraphNotFound),
    }
}

/// Whether `user` may replace the content of the graph read under the
/// identifier: not-found when there is none, not-owned when it is someone
/// else's.
pub fn update_access(g: Option<&Graph>, user: &str) -> (r: Result<(), ApiError>)
    ensures
        match g {
            Some(g) => if g.owner@ == user@ {
                r is Ok
            } else {
                r == Err::<(), ApiError>(ApiError::GraphNotOwned)
            },
            None => r == Err::<(), ApiError>(ApiError::GraphNotFound),
        },
{
    match g {
        Some(g) => {
            if crate::text::str_eq(g.owner.as_str(), user) {
                Ok(())
            } else {
                Err(ApiError::GraphNotOwned)
            }
        },
        None => Err(ApiError::GraphNotFound),
    }
}

/// Whether `user` may delete the graph read under the identifier: only its
/// owner may; not-found when there is none, not-owned when it is someone
/// else's.
pub fn delete_access(g: Option<&Graph>, user: &str) -> (r: Result<(), ApiError>)
    ensures
        match g {
            Some(g) => if g.owner@ == user@ {
                r is Ok
            } else {
                r == Err::<(), ApiError>(ApiError::GraphNotOwned)
            },
            None => r == Err::<(), ApiError>(ApiError::GraphNotFound),
        },
{
    match g {
        Some(g) => {
            if crate::text::str_eq(g.owner.as_str(), user) {
                Ok(())
            } else {
                Err(ApiError::GraphNotOwned)
            }
        },
        None => Err(ApiError::GraphNotFound),
    }
}

/// The engine input for a run of the graph that the owner-scoped lookup
/// returned: not-found when it returned nothing, malformed when a designator
/// or an edge endpoint names no node, else the translation.
pub fn prepare_run(g: Option<Graph>) -> (r: Result<GraphData, ApiError>)
    ensures
        match r {
            Ok(d) => g is Some && is_runnable(g.unwrap()) && translates_graph(g.unwrap(), d),
            Err(e) => match g {
                Some(g) => !is_runnable(g) && e == ApiError::MalformedGraph,
                None => e == ApiError::GraphNotFound,
            },
        },
{
    match g {
        Some(g) => {
            let ghost src = g;
            let data = g.to_graph_data();
            proof {
                lemma_translation_keeps_soundness(src, data);
            }
            match data.validate_structure() {
                Ok(()) => Ok(data),
                Err(_) => Err(ApiError::MalformedGraph),
            }
        },
        None => Err(ApiError::GraphNotFound),
    }
}

} // verus!
