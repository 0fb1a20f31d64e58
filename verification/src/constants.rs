use vstd::prelude::*;
use crate::text::{line_widths, line_widths_of, max_of, seq_max};

verus! {

/// The application's name, drawn in letters of characters.
pub const NAME_TEXT: &'static str = r#"
                          88                               
                          88                               
                          88                               
 ,adPPYba,   8b,     ,d8  88   ,d8    ,adPPYba,  8b,dPPYba,
a8"     "8a   `Y8, ,8P'   88 ,a8"    a8P_____88  88P'   "Y8
8b       d8     )888(     8888[      8PP"""""""  88        
"8a,   ,a8"   ,d8" "8b,   88`"Yba,   "8b,   ,aa  88        
 `"YbbdP"'   8P'     `Y8  88   `Y8a   `"Ybbd8"'  88        "#;

/// Widest line of `input` in chars, as the components measure text:
/// a text with no line at all counts as one char wide.
pub open spec fn spec_max_line_width(input: Seq<char>) -> nat {
    if line_widths(input).len() == 0 {
        1
    } else {
        seq_max(line_widths(input))
    }
}

/// Calculate maximum line width for text: the largest number of chars on
/// one line of `input`, or 1 when `input` has no line.
pub fn max_line_width(input: &str) -> (w: usize)
    ensures
        w as nat == spec_max_line_width(input@),
{
    let widths = line_widths_of(input);
    if widths.len() == 0 {
        1
    } else {
        let m = max_of(&widths);
        proof {
            assert(widths@.map_values(|x: usize| x as nat) =~= line_widths(input@));
        }
        m
    }
}

} // verus!
