//! String escaping for embedding values in quoted contexts.

use vstd::prelude::*;

verus! {

/// The escape of one character: backslashes and both quote characters get a
/// backslash prefixed, everything else is unchanged.
pub open spec fn spec_escape_char(c: char) -> Seq<char> {
    if c == '\\' || c == '"' || c == '\'' {
        seq!['\\', c]
    } else {
        seq![c]
    }
}

/// The escape of a string: each character escaped, in order.
pub open spec fn spec_add_slashes(s: Seq<char>) -> Seq<char>
    decreases s.len(),
{
    if s.len() == 0 {
        Seq::empty()
    } else {
        spec_add_slashes(s.drop_last()) + spec_escape_char(s.last())
    }
}

/// Relies on `str::chars`: the characters of the string, in order.
#[verifier::external_body]
fn str_chars(s: &str) -> (r: Vec<char>)
    ensures
        r@ == s@,
{
    s.chars().collect()
}

/// Relies on `FromIterator<char>` for `String`: the string holding exactly
/// these characters, in order.
#[verifier::external_body]
fn chars_to_string(chars: &Vec<char>) -> (r: String)
    ensures
        r@ == chars@,
{
    chars.iter().collect()
}

/// Escapes a string for a quoted context: prefixes every backslash, double
/// quote and single quote with a backslash ([`spec_add_slashes`]).
pub fn filter_add_slashes(value: &str) -> (r: String)
    ensures
        r@ == spec_add_slashes(value@),
{
    let chars = str_chars(value);
    let mut out: Vec<char> = Vec::new();
    proof {
        assert(chars@.subrange(0, 0) =~= Seq::<char>::empty());
        assert(out@ =~= spec_add_slashes(chars@.subrange(0, 0)));
    }
    let mut i: usize = 0;
    while i < chars.len()
        invariant
            0 <= i <= chars@.len(),
            chars@ == value@,
            out@ == spec_add_slashes(chars@.subrange(0, i as int)),
        decreases chars@.len() - i,
    {
        let c = chars[i];
        proof {
            assert(chars@.subrange(0, i + 1 as int).drop_last() =~= chars@.subrange(0, i as int));
            assert(chars@.subrange(0, i + 1 as int).last() == chars@[i as int]);
        }
        let ghost old_out = out@;
        if c == '\\' || c == '"' || c == '\'' {
            out.push('\\');
        }
        out.push(c);
        proof {
            assert(out@ =~= old_out + spec_escape_char(c));
        }
        i = i + 1;
    }
    proof {
        assert(chars@.subrange(0, chars@.len() as int) =~= chars@);
    }
    chars_to_string(&out)
}

} // verus!
