use vstd::prelude::*;

verus! {

/// The whitespace characters the confirmation gate ignores: the Unicode
/// white-space set, the same one that trimming a response removes.
pub open spec fn is_space_char(c: char) -> bool {
    ||| c == '\t'
    ||| c == '\n'
    ||| c == '\u{0B}'
    ||| c == '\u{0C}'
    ||| c == '\r'
    ||| c == ' '
    ||| c == '\u{85}'
    ||| c == '\u{A0}'
    ||| c == '\u{1680}'
    ||| c == '\u{2000}'
    ||| c == '\u{2001}'
    ||| c == '\u{2002}'
    ||| c == '\u{2003}'
    ||| c == '\u{2004}'
    ||| c == '\u{2005}'
    ||| c == '\u{2006}'
    ||| c == '\u{2007}'
    ||| c == '\u{2008}'
    ||| c == '\u{2009}'
    ||| c == '\u{200A}'
    ||| c == '\u{2028}'
    ||| c == '\u{2029}'
    ||| c == '\u{202F}'
    ||| c == '\u{205F}'
    ||| c == '\u{3000}'
}

/// Decides [`is_space_char`] on one character of the response.
pub fn is_space(c: char) -> (r: bool)
    ensures
        r == is_space_char(c),
{
    c == '\t' || c == '\n' || c == '\u{0B}' || c == '\u{0C}' || c == '\r' || c == ' '
        || c == '\u{85}' || c == '\u{A0}' || c == '\u{1680}' || c == '\u{2000}' || c == '\u{2001}'
        || c == '\u{2002}' || c == '\u{2003}' || c == '\u{2004}' || c == '\u{2005}'
        || c == '\u{2006}' || c == '\u{2007}' || c == '\u{2008}' || c == '\u{2009}'
        || c == '\u{200A}' || c == '\u{2028}' || c == '\u{2029}' || c == '\u{202F}'
        || c == '\u{205F}' || c == '\u{3000}'
}

/// Whether the response contains an affirmative character, in either case.
pub open spec fn has_yes_char(s: Seq<char>) -> bool {
    exists|i: int| 0 <= i < s.len() && ((#[trigger] s[i]) == 'y' || s[i] == 'Y')
}

/// Whether the response is blank: nothing but whitespace.
pub open spec fn all_space(s: Seq<char>) -> bool {
    forall|i: int| 0 <= i < s.len() ==> is_space_char(#[trigger] s[i])
}

/// The confirmation rule: a blank line is taken as the default yes, and any
/// response containing a `y` (case-insensitively) also proceeds; every other
/// response aborts the run.
pub open spec fn proceeds(s: Seq<char>) -> bool {
    has_yes_char(s) || all_space(s)
}

/// Decides the confirmation gate on one line read from the user, exactly as
/// [`proceeds`] states: blank means yes, a `y` or `Y` anywhere means yes,
/// anything else means no.
pub fn confirm_proceeds(line: &str) -> (r: bool)
    ensures
        r == proceeds(line@),
{
    let n = line.unicode_len();
    let mut i: usize = 0;
    let mut saw_yes = false;
    let mut blank = true;
    while i < n
        invariant
            n == line@.len(),
            0 <= i <= n,
            saw_yes == exists|j: int|
                0 <= j < i && ((#[trigger] line@[j]) == 'y' || line@[j] == 'Y'),
            blank == forall|j: int| 0 <= j < i ==> is_space_char(#[trigger] line@[j]),
        decreases n - i,
    {
        let c = line.get_char(i);
        if c == 'y' || c == 'Y' {
            saw_yes = true;
        }
        if !is_space(c) {
            blank = false;
        }
        i += 1;
    }
    saw_yes || blank
}

} // verus!
