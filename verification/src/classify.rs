//! Language classification: does the query contain Chinese-script text?

use vstd::prelude::*;
use vstd::string::StrSliceExecFns;

verus! {

/// A character in the CJK Unified Ideographs block, U+4E00 through U+9FFF.
pub open spec fn is_cjk_char(c: char) -> bool {
    0x4E00 <= c as u32 <= 0x9FFF
}

/// A string counts as Chinese text when at least one of its characters
/// lies in the CJK Unified Ideographs block.
pub open spec fn contains_cjk(s: Seq<char>) -> bool {
    exists|i: int| 0 <= i < s.len() && is_cjk_char(s[i])
}

/// Decides whether `text` contains at least one character in the CJK
/// Unified Ideographs block; this choice selects the extraction path.
pub fn is_chinese(text: &str) -> (r: bool)
    ensures
        r == contains_cjk(text@),
{
    let n = text.unicode_len();
    let mut i: usize = 0;
    while i < n
        invariant
            n == text@.len(),
            i <= n,
            forall|k: int| 0 <= k < i ==> !is_cjk_char(text@[k]),
        decreases n - i,
    {
        let c = text.get_char(i);
        let u = c as u32;
        if 0x4E00 <= u && u <= 0x9FFF {
            assert(is_cjk_char(text@[i as int]));
            return true;
        }
        i += 1;
    }
    false
}

} // verus!
