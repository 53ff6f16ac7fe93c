//! Text validation shared by the group and tag conversion layers:
//! whitespace trimming and the hexadecimal color shape.

use vstd::prelude::*;

use vstd::string::StrSliceExecFns;
use vstd::utf8::encode_utf8;

verus! {

/// The characters of Unicode's White_Space property, as
/// char::is_whitespace documents them.
pub open spec fn is_space_char(c: char) -> bool {
    ||| c == '\u{0009}'
    ||| c == '\u{000A}'
    ||| c == '\u{000B}'
    ||| c == '\u{000C}'
    ||| c == '\u{000D}'
    ||| c == '\u{0020}'
    ||| c == '\u{0085}'
    ||| c == '\u{00A0}'
    ||| c == '\u{1680}'
    ||| c == '\u{2000}'
    ||| c == '\u{2001}'
    ||| c == '\u{2002}'
    ||| c == '\u{2003}'
    ||| c == '\u{2004}'
    ||| c == '\u{2005}'
    ||| c == '\u{2006}'
    ||| c == '\u{2007}'
    ||| c == '\u{2008}'
    ||| c == '\u{2009}'
    ||| c == '\u{200A}'
    ||| c == '\u{2028}'
    ||| c == '\u{2029}'
    ||| c == '\u{202F}'
    ||| c == '\u{205F}'
    ||| c == '\u{3000}'
}

/// Text with its leading whitespace removed.
pub open spec fn spec_trim_start(s: Seq<char>) -> Seq<char>
    decreases s.len(),
{
    if s.len() == 0 {
        s
    } else if is_space_char(s[0]) {
        spec_trim_start(s.drop_first())
    } else {
        s
    }
}

/// Text with its trailing whitespace removed.
pub open spec fn spec_trim_end(s: Seq<char>) -> Seq<char>
    decreases s.len(),
{
    if s.len() == 0 {
        s
    } else if is_space_char(s.last()) {
        spec_trim_end(s.drop_last())
    } else {
        s
    }
}

/// Text with leading and trailing whitespace removed, as str::trim
/// computes it.
pub open spec fn spec_trim(s: Seq<char>) -> Seq<char> {
    spec_trim_end(spec_trim_start(s))
}

/// Relies on str::trim: removes exactly the leading and trailing
/// characters with Unicode's White_Space property.
#[verifier::external_body]
pub fn trim_str(s: &str) -> (r: String)
    ensures
        r@ == spec_trim(s@),
{
    s.trim().to_string()
}

/// The shape of an accepted hexadecimal color: a leading `#` and a byte
/// length of seven or four.
pub open spec fn spec_valid_color(c: Seq<char>) -> bool {
    &&& c.len() >= 1
    &&& c[0] == '#'
    &&& (encode_utf8(c).len() == 7 || encode_utf8(c).len() == 4)
}

/// The items joined with a comma between each pair.
pub open spec fn spec_join_comma(items: Seq<Seq<char>>) -> Seq<char>
    decreases items.len(),
{
    if items.len() == 0 {
        Seq::empty()
    } else if items.len() == 1 {
        items[0]
    } else {
        spec_join_comma(items.drop_last()) + seq![','] + items.last()
    }
}

/// Joins the values with a comma between each pair.
pub fn join_comma(items: &Vec<String>) -> (r: String)
    ensures
        r@ == spec_join_comma(items.deep_view()),
{
    proof {
        reveal_strlit(",");
    }
    let ghost dv = items.deep_view();
    let mut out = String::new();
    let n = items.len();
    let mut i: usize = 0;
    while i < n
        invariant
            i <= n,
            n == items@.len(),
            dv == items.deep_view(),
            dv.len() == n,
            forall|j: int| 0 <= j < n ==> dv[j] == items@[j]@,
            out@ == spec_join_comma(dv.subrange(0, i as int)),
        decreases n - i,
    {
        if i > 0 {
            out.append(",");
        }
        out.append(items[i].as_str());
        proof {
            reveal_strlit(",");
            let upto = dv.subrange(0, i + 1);
            assert(upto.last() == dv[i as int]);
            if i == 0 {
                assert(out@ =~= upto[0]);
                assert(upto.len() == 1);
            } else {
                assert(upto.drop_last() =~= dv.subrange(0, i as int));
                assert(out@ =~= spec_join_comma(upto.drop_last()) + seq![','] + upto.last());
            }
        }
        i = i + 1;
    }
    proof {
        assert(dv.subrange(0, n as int) =~= dv);
    }
    out
}

/// Checks a color value's shape.
pub fn is_valid_color(color: &str) -> (r: bool)
    ensures
        r == spec_valid_color(color@),
{
    if color.unicode_len() == 0 {
        return false;
    }
    let first = color.get_char(0);
    let bytes = color.as_bytes().len();
    first == '#' && (bytes == 7 || bytes == 4)
}

} // verus!
