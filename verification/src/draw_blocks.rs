//! Helpers of the older drawing code.
use vstd::prelude::*;
use crate::constants::spec_max_line_width;
use crate::text::{line_widths, line_widths_of, max_of, seq_max};

verus! {

/// From a given text, the largest number of chars on one of its lines, 0
/// when it has none.
pub fn max_line_width(text: &str) -> (w: usize)
    ensures
        w as nat == seq_max(line_widths(text@)),
{
    let widths = line_widths_of(text);
    let m = max_of(&widths);
    proof {
        assert(widths@.map_values(|x: usize| x as nat) =~= line_widths(text@));
    }
    m
}

/// The two measures of the widest line agree on a text with lines; on a
/// text without any, the components count one char and this helper none.
pub proof fn law_max_line_width_agree(text: Seq<char>)
    ensures
        line_widths(text).len() > 0 ==> spec_max_line_width(text) == seq_max(line_widths(text)),
        line_widths(text).len() == 0 ==> spec_max_line_width(text) == 1 && seq_max(line_widths(text)) == 0,
{
}

} // verus!
