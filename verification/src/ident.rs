use vstd::prelude::*;

verus! {

/// A character tmux rejects inside a session or window name: ASCII control
/// characters (including DEL), and tmux's own separators `.` and `:`.
pub open spec fn rejected_char(c: char) -> bool {
    (c as u32) < 32 || (c as u32) == 127 || c == '.' || c == ':'
}

/// A string tmux accepts as a session or window name: non-empty, and free of
/// control and separator characters.
pub open spec fn is_valid_identifier(s: Seq<char>) -> bool {
    &&& s.len() > 0
    &&& forall|i: int| 0 <= i < s.len() ==> !rejected_char(s[i])
}

/// Decides whether tmux accepts `name` as a session or window name.
pub fn valid_tmux_identifier(name: &str) -> (r: bool)
    ensures
        r <==> is_valid_identifier(name@),
{
    let len: usize = name.unicode_len();
    if len == 0 {
        return false;
    }
    let mut i: usize = 0;
    while i < len
        invariant
            0 <= i <= len,
            len == name@.len(),
            forall|j: int| 0 <= j < i ==> !rejected_char(name@[j]),
        decreases len - i,
    {
        let c = name.get_char(i);
        if (c as u32) < 32 || (c as u32) == 127 || c == '.' || c == ':' {
            return false;
        }
        i = i + 1;
    }
    true
}

} // verus!
