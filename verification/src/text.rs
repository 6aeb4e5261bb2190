//! Text helpers for extension-based runtime dispatch: the extension of
//! an entry path is the character run after the last `.` (the whole
//! name when no dot occurs), matched against the known extensions
//! ignoring ASCII case.

use vstd::prelude::*;

use vstd::string::StringExecFns;

verus! {

/// `a` equals `b` ignoring ASCII case, where `b` is a lowercase
/// reference character (an uppercase ASCII letter sits 32 below its
/// lowercase form).
pub open spec fn ci_char_eq(a: char, b: char) -> bool {
    a == b || a as int + 32 == b as int
}

/// `a` equals `b` character by character, ignoring ASCII case; `b` is
/// the lowercase reference word.
pub open spec fn ci_seq_eq(a: Seq<char>, b: Seq<char>) -> bool {
    a.len() == b.len() && forall|i: int| 0 <= i < a.len() ==> ci_char_eq(a[i], #[trigger] b[i])
}

/// Index of the last `.` in `s`, or -1 when none occurs.
pub open spec fn last_dot(s: Seq<char>) -> int
    decreases s.len(),
{
    if s.len() == 0 {
        -1
    } else if s[s.len() - 1] == '.' {
        s.len() - 1
    } else {
        last_dot(s.drop_last())
    }
}

/// The extension of `s`: everything after the last `.`, or `s` itself
/// when no dot occurs.
pub open spec fn ext_seq(s: Seq<char>) -> Seq<char> {
    if last_dot(s) >= 0 {
        s.subrange(last_dot(s) + 1, s.len() as int)
    } else {
        s
    }
}

/// The entry carries a JavaScript extension: `.js`, `.mjs` or `.cjs`,
/// ignoring ASCII case.
pub open spec fn is_js_entry(entry: Seq<char>) -> bool {
    ||| ci_seq_eq(ext_seq(entry), seq!['j', 's'])
    ||| ci_seq_eq(ext_seq(entry), seq!['m', 'j', 's'])
    ||| ci_seq_eq(ext_seq(entry), seq!['c', 'j', 's'])
}

/// The entry carries the Python extension `.py`, ignoring ASCII case.
pub open spec fn is_python_entry(entry: Seq<char>) -> bool {
    ci_seq_eq(ext_seq(entry), seq!['p', 'y'])
}

proof fn lemma_last_dot_at(s: Seq<char>, d: int)
    requires
        0 <= d < s.len(),
        s[d] == '.',
        forall|j: int| d < j < s.len() ==> s[j] != '.',
    ensures
        last_dot(s) == d,
    decreases s.len(),
{
    if s.len() - 1 == d {
    } else {
        lemma_last_dot_at(s.drop_last(), d);
    }
}

proof fn lemma_no_dot(s: Seq<char>)
    requires
        forall|j: int| 0 <= j < s.len() ==> s[j] != '.',
    ensures
        last_dot(s) == -1,
    decreases s.len(),
{
    if s.len() > 0 {
        lemma_no_dot(s.drop_last());
    }
}

/// The extension of `s` as its own string: the characters after the
/// last `.`, or all of `s` when no dot occurs.
pub fn extension_of(s: &str) -> (r: String)
    ensures
        r@ == ext_seq(s@),
{
    let n = s.unicode_len();
    let mut i: usize = n;
    while i > 0
        invariant
            i <= n,
            n == s@.len(),
            forall|j: int| i <= j < n ==> s@[j] != '.',
        decreases i,
    {
        if s.get_char(i - 1) == '.' {
            let sub = s.substring_char(i, n);
            proof {
                lemma_last_dot_at(s@, i - 1);
            }
            return String::from_str(sub);
        }
        i = i - 1;
    }
    proof {
        lemma_no_dot(s@);
    }
    String::from_str(s)
}

/// `a` equals the lowercase word `b` ignoring ASCII case.
pub fn eq_ignore_ascii_case(a: &str, b: &str) -> (r: bool)
    ensures
        r == ci_seq_eq(a@, b@),
{
    let n = a.unicode_len();
    let m = b.unicode_len();
    if n != m {
        return false;
    }
    let mut i: usize = 0;
    while i < n
        invariant
            i <= n,
            n == a@.len(),
            n == b@.len(),
            forall|j: int| 0 <= j < i ==> ci_char_eq(a@[j], #[trigger] b@[j]),
        decreases n - i,
    {
        let ca = a.get_char(i);
        let cb = b.get_char(i);
        if !(ca == cb || (ca as u32) + 32 == (cb as u32)) {
            return false;
        }
        i = i + 1;
    }
    true
}

/// The entry carries a JavaScript extension (`.js`, `.mjs`, `.cjs`),
/// ignoring ASCII case.
pub fn entry_matches_js(entry: &str) -> (r: bool)
    ensures
        r == is_js_entry(entry@),
{
    let ext = extension_of(entry);
    proof {
        reveal_strlit("js");
        reveal_strlit("mjs");
        reveal_strlit("cjs");
        assert("js"@ =~= seq!['j', 's']);
        assert("mjs"@ =~= seq!['m', 'j', 's']);
        assert("cjs"@ =~= seq!['c', 'j', 's']);
    }
    eq_ignore_ascii_case(ext.as_str(), "js") || eq_ignore_ascii_case(ext.as_str(), "mjs")
        || eq_ignore_ascii_case(ext.as_str(), "cjs")
}

/// The entry carries the Python extension `.py`, ignoring ASCII case.
pub fn entry_matches_python(entry: &str) -> (r: bool)
    ensures
        r == is_python_entry(entry@),
{
    let ext = extension_of(entry);
    proof {
        reveal_strlit("py");
        assert("py"@ =~= seq!['p', 'y']);
    }
    eq_ignore_ascii_case(ext.as_str(), "py")
}


/// The ASCII-lowercase form of one character: `A`–`Z` map to their
/// lowercase letters, everything else is unchanged.
pub open spec fn lower_char(c: char) -> char {
    if c == 'A' {
        'a'
    } else if c == 'B' {
        'b'
    } else if c == 'C' {
        'c'
    } else if c == 'D' {
        'd'
    } else if c == 'E' {
        'e'
    } else if c == 'F' {
        'f'
    } else if c == 'G' {
        'g'
    } else if c == 'H' {
        'h'
    } else if c == 'I' {
        'i'
    } else if c == 'J' {
        'j'
    } else if c == 'K' {
        'k'
    } else if c == 'L' {
        'l'
    } else if c == 'M' {
        'm'
    } else if c == 'N' {
        'n'
    } else if c == 'O' {
        'o'
    } else if c == 'P' {
        'p'
    } else if c == 'Q' {
        'q'
    } else if c == 'R' {
        'r'
    } else if c == 'S' {
        's'
    } else if c == 'T' {
        't'
    } else if c == 'U' {
        'u'
    } else if c == 'V' {
        'v'
    } else if c == 'W' {
        'w'
    } else if c == 'X' {
        'x'
    } else if c == 'Y' {
        'y'
    } else if c == 'Z' {
        'z'
    } else {
        c
    }
}

/// The ASCII-lowercase form of a character sequence.
pub open spec fn ascii_lower_seq(s: Seq<char>) -> Seq<char> {
    Seq::new(s.len(), |i: int| lower_char(s[i]))
}

/// The one-character string holding the lowercase form of an
/// uppercase ASCII letter.
fn upper_to_lower(c: char) -> (r: &'static str)
    requires
        'A' <= c && c <= 'Z',
    ensures
        r@.len() == 1,
        r@[0] == lower_char(c),
{
    proof {
        reveal_strlit("a");
        reveal_strlit("b");
        reveal_strlit("c");
        reveal_strlit("d");
        reveal_strlit("e");
        reveal_strlit("f");
        reveal_strlit("g");
        reveal_strlit("h");
        reveal_strlit("i");
        reveal_strlit("j");
        reveal_strlit("k");
        reveal_strlit("l");
        reveal_strlit("m");
        reveal_strlit("n");
        reveal_strlit("o");
        reveal_strlit("p");
        reveal_strlit("q");
        reveal_strlit("r");
        reveal_strlit("s");
        reveal_strlit("t");
        reveal_strlit("u");
        reveal_strlit("v");
        reveal_strlit("w");
        reveal_strlit("x");
        reveal_strlit("y");
        reveal_strlit("z");
    }
    match c {
        'A' => "a",
        'B' => "b",
        'C' => "c",
        'D' => "d",
        'E' => "e",
        'F' => "f",
        'G' => "g",
        'H' => "h",
        'I' => "i",
        'J' => "j",
        'K' => "k",
        'L' => "l",
        'M' => "m",
        'N' => "n",
        'O' => "o",
        'P' => "p",
        'Q' => "q",
        'R' => "r",
        'S' => "s",
        'T' => "t",
        'U' => "u",
        'V' => "v",
        'W' => "w",
        'X' => "x",
        'Y' => "y",
        'Z' => "z",
        _ => {
            proof {
                assert(false);
            }
            ""
        },
    }
}

/// `s` with every uppercase ASCII letter lowered; all other
/// characters are unchanged.
pub fn ascii_lowercase(s: &str) -> (r: String)
    ensures
        r@ == ascii_lower_seq(s@),
{
    let n = s.unicode_len();
    let mut out = String::new();
    let mut i: usize = 0;
    while i < n
        invariant
            i <= n,
            n == s@.len(),
            out@ == ascii_lower_seq(s@).subrange(0, i as int),
        decreases n - i,
    {
        let c = s.get_char(i);
        if 'A' <= c && c <= 'Z' {
            out.append(upper_to_lower(c));
        } else {
            out.append(s.substring_char(i, i + 1));
        }
        proof {
            assert(ascii_lower_seq(s@).subrange(0, i as int + 1) =~= ascii_lower_seq(
                s@,
            ).subrange(0, i as int).push(lower_char(s@[i as int])));
            assert(out@ =~= ascii_lower_seq(s@).subrange(0, i as int + 1));
        }
        i = i + 1;
    }
    proof {
        assert(ascii_lower_seq(s@).subrange(0, n as int) =~= ascii_lower_seq(s@));
    }
    out
}

} // verus!

