//! Fitting a syllable into the width of its note.

use vstd::prelude::*;
use vstd::string::StringExecFns;
use vstd::string::StringSliceAdditionalSpecFns;
use vstd::utf8::encode_utf8;
use vstd::utf8::is_char_boundary;

verus! {

/// `count` blanks.
pub open spec fn blanks(count: nat) -> Seq<char> {
    Seq::new(count, |i: int| ' ')
}

/// Fits `s` into `width` bytes: a longer text is cut after `width` bytes,
/// a shorter one gets blanks behind it until it is `width` bytes long. A
/// text can only be cut between two characters.
pub fn pad_to_width(s: String, width: usize) -> (padded: String)
    requires
        encode_utf8(s@).len() > width ==> is_char_boundary(encode_utf8(s@), width as int),
    ensures
        encode_utf8(s@).len() > width ==> encode_utf8(padded@) == encode_utf8(s@).subrange(
            0,
            width as int,
        ),
        encode_utf8(s@).len() <= width ==> padded@ == s@ + blanks(
            (width - encode_utf8(s@).len()) as nat,
        ),
{
    let length = s.as_str().as_bytes().len();
    if length > width {
        let text = s.as_str();
        assert(text.spec_bytes() == encode_utf8(s@));
        let (head, _) = text.split_at(width);
        assert(head.spec_bytes() =~= encode_utf8(s@).subrange(0, width as int));
        let padded = head.to_owned();
        assert(encode_utf8(padded@) == head.spec_bytes());
        padded
    } else {
        let mut padded = s;
        let ghost given = padded@;
        let mut added: usize = 0;
        let missing = width - length;
        proof {
            reveal_strlit(" ");
            assert(given + blanks(0) =~= given);
        }
        while added < missing
            invariant
                added <= missing,
                padded@ == given + blanks(added as nat),
            decreases missing - added,
        {
            padded.append(" ");
            proof {
                reveal_strlit(" ");
                assert(" "@ =~= seq![' ']);
                assert(given + blanks(added as nat) + seq![' '] =~= given + blanks(
                    (added + 1) as nat,
                ));
            }
            added = added + 1;
        }
        padded
    }
}

} // verus!
