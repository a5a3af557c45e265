use vstd::prelude::*;
use vstd::string::*;
use vstd::utf8::*;

verus! {

/// The first `limit` characters of `text`, or all of it where it has no more.
pub open spec fn truncated(text: Seq<char>, limit: nat) -> Seq<char> {
    if text.len() <= limit {
        text
    } else {
        text.subrange(0, limit as int)
    }
}

/// `text` followed by as many spaces as it lacks to `width` characters.
pub open spec fn padded(text: Seq<char>, width: nat) -> Seq<char> {
    if text.len() >= width {
        text
    } else {
        text + Seq::new((width - text.len()) as nat, |i: int| ' ')
    }
}

/// A cut text is the start of the text: as many characters as the limit allows, each in its
/// place, and nothing added. A text within the limit is unchanged.
pub proof fn lemma_truncated_is_prefix(text: Seq<char>, limit: nat)
    ensures
        truncated(text, limit).len() == if text.len() <= limit {
            text.len()
        } else {
            limit
        },
        forall|i: int|
            0 <= i < truncated(text, limit).len() ==> #[trigger] truncated(text, limit)[i]
                == text[i],
        text.len() <= limit ==> truncated(text, limit) == text,
{
}

/// Whether two texts hold the same characters.
pub fn str_eq(a: &str, b: &str) -> (same: bool)
    ensures
        same == (a@ == b@),
{
    let x = a.as_bytes();
    let y = b.as_bytes();
    proof {
        encode_utf8_decode_utf8(a@);
        encode_utf8_decode_utf8(b@);
    }
    if x.len() != y.len() {
        return false;
    }
    let mut i: usize = 0;
    while i < x.len()
        invariant
            i <= x.len(),
            x.len() == y.len(),
            x@ == encode_utf8(a@),
            y@ == encode_utf8(b@),
            forall|k: int| 0 <= k < i ==> x@[k] == y@[k],
        decreases x.len() - i,
    {
        if x[i] != y[i] {
            return false;
        }
        i += 1;
    }
    assert(x@ =~= y@);
    true
}

/// Cuts `string` down to its first `limit` characters; a shorter one is returned whole.
/// Characters are counted, not the width they take on a screen, and nothing marks the cut.
pub fn str_truncate(string: &str, limit: u32) -> (cut: String)
    ensures
        cut@ == truncated(string@, limit as nat),
{
    let length = string.unicode_len();
    if length <= limit as usize {
        string.to_owned()
    } else {
        string.substring_char(0, limit as usize).to_owned()
    }
}

/// Fills `text` up with spaces to `width` characters; a longer one is returned whole.
pub fn pad_right(text: &str, width: usize) -> (filled: String)
    ensures
        filled@ == padded(text@, width as nat),
{
    let length = text.unicode_len();
    let mut filled = text.to_owned();
    let mut count: usize = length;
    while count < width
        invariant
            length == text@.len(),
            length <= count,
            count <= width || count == length,
            filled@ == text@ + Seq::new((count - length) as nat, |i: int| ' '),
        decreases width - count,
    {
        proof {
            reveal_strlit(" ");
        }
        filled.append(" ");
        count += 1;
    }
    filled
}

} // verus!
