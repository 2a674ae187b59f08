//! Whitespace splitting of an input line, with its specification.

use vstd::prelude::*;
use vstd::string::*;

verus! {

/// The characters with the Unicode white-space property, the ones that
/// separate tokens of an input line.
pub open spec fn is_space(c: char) -> bool {
    let n = c as u32;
    n == 0x20 || n == 0x09 || n == 0x0a || n == 0x0b || n == 0x0c || n == 0x0d || n == 0x85 || n
        == 0xa0 || n == 0x1680 || (0x2000 <= n && n <= 0x200a) || n == 0x2028 || n == 0x2029 || n
        == 0x202f || n == 0x205f || n == 0x3000
}

/// Runtime test for `is_space`.
pub fn is_space_char(c: char) -> (r: bool)
    ensures
        r == is_space(c),
{
    let n = c as u32;
    n == 0x20 || n == 0x09 || n == 0x0a || n == 0x0b || n == 0x0c || n == 0x0d || n == 0x85 || n
        == 0xa0 || n == 0x1680 || (0x2000 <= n && n <= 0x200a) || n == 0x2028 || n == 0x2029 || n
        == 0x202f || n == 0x205f || n == 0x3000
}

/// A line is blank when every character of it is white space; a blank or
/// empty line is never dispatched.
pub open spec fn blank(s: Seq<char>) -> bool {
    forall|k: int| 0 <= k < s.len() ==> is_space(s[k])
}

/// The length of the maximal white-space-free prefix of `s`.
pub open spec fn token_len(s: Seq<char>) -> nat
    decreases s.len(),
{
    if s.len() == 0 || is_space(s[0]) {
        0
    } else {
        (1 + token_len(s.skip(1))) as nat
    }
}

proof fn lemma_token_len_bound(s: Seq<char>)
    ensures
        token_len(s) <= s.len(),
        s.len() > 0 && !is_space(s[0]) ==> token_len(s) >= 1,
    decreases s.len(),
{
    if s.len() > 0 && !is_space(s[0]) {
        lemma_token_len_bound(s.skip(1));
    }
}

/// The tokens of a line: its maximal runs of non-white-space characters,
/// in order.
pub open spec fn tokens_of(s: Seq<char>) -> Seq<Seq<char>>
    decreases s.len(),
    via tokens_of_decreases
{
    if s.len() == 0 {
        Seq::<Seq<char>>::empty()
    } else if is_space(s[0]) {
        tokens_of(s.skip(1))
    } else {
        seq![s.take(token_len(s) as int)] + tokens_of(s.skip(token_len(s) as int))
    }
}

#[via_fn]
proof fn tokens_of_decreases(s: Seq<char>) {
    lemma_token_len_bound(s);
}

/// A line is blank exactly when it has no token.
pub proof fn lemma_blank_iff_no_tokens(s: Seq<char>)
    ensures
        blank(s) <==> tokens_of(s).len() == 0,
    decreases s.len(),
{
    if s.len() > 0 {
        if is_space(s[0]) {
            lemma_blank_iff_no_tokens(s.skip(1));
            assert(blank(s.skip(1)) ==> blank(s)) by {
                if blank(s.skip(1)) {
                    assert forall|k: int| 0 <= k < s.len() implies is_space(s[k]) by {
                        if k > 0 {
                            assert(s.skip(1)[k - 1] == s[k]);
                        }
                    }
                }
            }
            assert(blank(s) ==> blank(s.skip(1))) by {
                if blank(s) {
                    assert forall|k: int| 0 <= k < s.skip(1).len() implies is_space(
                        s.skip(1)[k],
                    ) by {
                        assert(s.skip(1)[k] == s[k + 1]);
                    }
                }
            }
        } else {
            assert(!blank(s));
            lemma_token_len_bound(s);
        }
    }
}

/// If the characters at positions `i` up to `j` are not white space and the
/// one at `j`, if any, is, then the token starting at `i` ends at `j`.
proof fn lemma_token_len_run(s: Seq<char>, i: int, j: int)
    requires
        0 <= i <= j <= s.len(),
        forall|k: int| i <= k < j ==> !is_space(s[k]),
        j == s.len() || is_space(s[j]),
    ensures
        token_len(s.skip(i)) == j - i,
    decreases j - i,
{
    if i < j {
        assert(s.skip(i)[0] == s[i]);
        lemma_token_len_run(s, i + 1, j);
        assert(s.skip(i).skip(1) =~= s.skip(i + 1));
    } else {
        if j < s.len() {
            assert(s.skip(i)[0] == s[i]);
        }
    }
}

/// Finds where the token that starts at position `i` of `line` ends.
fn token_end(line: &str, i: usize, n: usize) -> (j: usize)
    requires
        n == line@.len(),
        i < n,
        !is_space(line@[i as int]),
    ensures
        i < j <= n,
        j - i == token_len(line@.skip(i as int)),
        forall|k: int| i <= k < j ==> !is_space(line@[k]),
        j < n ==> is_space(line@[j as int]),
{
    let mut j: usize = i + 1;
    while j < n
        invariant
            i < j <= n,
            n == line@.len(),
            forall|k: int| i <= k < j ==> !is_space(line@[k]),
        decreases n - j,
    {
        let c = line.get_char(j);
        if is_space_char(c) {
            proof {
                lemma_token_len_run(line@, i as int, j as int);
            }
            return j;
        }
        j = j + 1;
    }
    proof {
        lemma_token_len_run(line@, i as int, j as int);
    }
    j
}

/// Splits `line` on white space into its tokens.
pub fn tokenize(line: &str) -> (tokens: Vec<String>)
    ensures
        tokens@.map_values(|t: String| t@) == tokens_of(line@),
{
    let n = line.unicode_len();
    let mut tokens: Vec<String> = Vec::new();
    let mut i: usize = 0;
    proof {
        assert(line@.skip(0) =~= line@);
        assert(tokens@.map_values(|t: String| t@) + tokens_of(line@) =~= tokens_of(line@));
    }
    while i < n
        invariant
            0 <= i <= n,
            n == line@.len(),
            tokens@.map_values(|t: String| t@) + tokens_of(line@.skip(i as int)) == tokens_of(
                line@,
            ),
        decreases n - i,
    {
        let ghost prev = tokens@.map_values(|t: String| t@);
        let c = line.get_char(i);
        if is_space_char(c) {
            proof {
                assert(line@.skip(i as int)[0] == line@[i as int]);
                assert(line@.skip(i as int).skip(1) =~= line@.skip(i + 1));
            }
            i = i + 1;
        } else {
            let j = token_end(line, i, n);
            let tok = line.substring_char(i, j);
            tokens.push(String::from_str(tok));
            proof {
                let suff = line@.skip(i as int);
                assert(suff[0] == line@[i as int]);
                assert(token_len(suff) == j - i);
                assert(suff.take(j - i) =~= line@.subrange(i as int, j as int));
                assert(suff.skip(j - i) =~= line@.skip(j as int));
                assert(tokens_of(suff) == seq![line@.subrange(i as int, j as int)] + tokens_of(
                    line@.skip(j as int),
                ));
                assert(tokens@.map_values(|t: String| t@) =~= prev.push(tok@));
                assert(prev.push(tok@) + tokens_of(line@.skip(j as int)) =~= prev + tokens_of(
                    suff,
                ));
            }
            i = j;
        }
    }
    proof {
        assert(line@.skip(n as int) =~= Seq::<char>::empty());
        assert(tokens@.map_values(|t: String| t@) + tokens_of(line@.skip(n as int)) =~= tokens@
            .map_values(|t: String| t@));
    }
    tokens
}

/// Tests whether every character of `line` is white space.
pub fn is_blank(line: &str) -> (r: bool)
    ensures
        r == blank(line@),
{
    let n = line.unicode_len();
    let mut i: usize = 0;
    while i < n
        invariant
            0 <= i <= n,
            n == line@.len(),
            forall|k: int| 0 <= k < i ==> is_space(line@[k]),
        decreases n - i,
    {
        let c = line.get_char(i);
        if !is_space_char(c) {
            return false;
        }
        i = i + 1;
    }
    true
}

} // verus!
