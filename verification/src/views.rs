//! Small view helpers shared by the contracts: they lift optional and
//! fallible strings to their mathematical views.

use vstd::prelude::*;

use crate::errors::HttpError;

verus! {

/// The view of an optional string.
pub open spec fn opt_str_view(o: Option<String>) -> Option<Seq<char>> {
    match o {
        Option::Some(s) => Option::Some(s@),
        Option::None => Option::None,
    }
}

/// The view of a string-or-error result.
pub open spec fn res_str_view(r: Result<String, HttpError>) -> Result<Seq<char>, HttpError> {
    match r {
        Result::Ok(s) => Result::Ok(s@),
        Result::Err(e) => Result::Err(e),
    }
}

} // verus!
