//! `curio reject`: which lane a page being rejected lives in.
use vstd::prelude::*;

use crate::text::str_eq;

verus! {

pub open spec fn lane_of(first: Option<Seq<char>>) -> Seq<char> {
    match first {
        Some(f) => if f == "review"@ || f == "staged"@ || f == "intake"@ || f == "published"@ {
            f
        } else {
            "unknown"@
        },
        None => "unknown"@,
    }
}

/// The lane of a page from the first component of its path under the wiki:
/// `review`, `staged`, `intake` or `published`, else `unknown`.
pub fn detect_lane(first_component: Option<&str>) -> (r: &'static str)
    ensures
        r@ == lane_of(match first_component {
            Some(f) => Some(f@),
            None => None,
        }),
{
    match first_component {
        Some(f) => if str_eq(f, "review") {
            "review"
        } else if str_eq(f, "staged") {
            "staged"
        } else if str_eq(f, "intake") {
            "intake"
        } else if str_eq(f, "published") {
            "published"
        } else {
            "unknown"
        },
        None => "unknown",
    }
}

} // verus!
