use vstd::prelude::*;

use crate::primitives::{Color, Stroke};

verus! {

/// The outline paint a stroke request resolves to: its color and width,
/// or nothing when no outline is to be drawn.
///
/// Color presence gates stroking: `None` as the stroke, and a stroke whose
/// own color is `None`, both resolve to "draw no outline". A width alone
/// never triggers drawing.
pub open spec fn resolved_stroke(stroke: Option<Stroke>) -> Option<(Color, i64)> {
    match stroke {
        Some(st) => match st.color {
            Some(c) => Some((c, st.width)),
            None => None,
        },
        None => None,
    }
}

/// Resolves a stroke request at run time; see [`resolved_stroke`].
pub fn resolve_stroke(stroke: &Option<Stroke>) -> (r: Option<(Color, i64)>)
    ensures
        r == resolved_stroke(*stroke),
{
    match stroke {
        Some(st) => match st.color {
            Some(c) => Some((c, st.width)),
            None => None,
        },
        None => None,
    }
}

} // verus!
