use vstd::prelude::*;
use vstd::string::StrSliceExecFns;

verus! {

/// Lowercases one character: the ASCII capitals 'A' to 'Z' map to 'a' to
/// 'z', and the kelvin sign — the one other capital whose lowercase is a
/// single ASCII letter — maps to 'k'. Every other character stays as it is:
/// its lowercase either is no ASCII letter at all, or carries a combining
/// mark that would break any adjacency with the fixed ASCII patterns, so
/// this fold decides exactly the case-insensitive matches of those patterns.
pub open spec fn lower_char(c: char) -> char {
    if 65 <= c as u32 && c as u32 <= 90 {
        ((c as u32 + 32) as u8) as char
    } else if c as u32 == 0x212A {
        'k'
    } else {
        c
    }
}

/// The character sequence with every character lowercased by [`lower_char`].
pub open spec fn lower_seq(s: Seq<char>) -> Seq<char> {
    s.map_values(|c: char| lower_char(c))
}

/// `pat` stands in `text` beginning at position `i`.
pub open spec fn matches_at(text: Seq<char>, pat: Seq<char>, i: int) -> bool {
    i + pat.len() <= text.len() && text.subrange(i, i + pat.len()) == pat
}

/// `pat` stands somewhere in `text`.
pub open spec fn contains_seq(text: Seq<char>, pat: Seq<char>) -> bool {
    exists|i: int| 0 <= i && matches_at(text, pat, i)
}

/// `pat` stands somewhere in `line`, compared case-insensitively.
pub open spec fn contains_ci_spec(line: Seq<char>, pat: Seq<char>) -> bool {
    contains_seq(lower_seq(line), lower_seq(pat))
}

/// A line counts as an interactive prompt when any of the fixed patterns
/// stands anywhere in it, case-insensitively. The list is authoritative; a
/// hit anywhere in the line is a prompt.
pub open spec fn is_prompt_line(line: Seq<char>) -> bool {
    ||| contains_ci_spec(line, "y/n"@)
    ||| contains_ci_spec(line, "(y/n)"@)
    ||| contains_ci_spec(line, "[y/n]"@)
    ||| contains_ci_spec(line, "yes/no"@)
    ||| contains_ci_spec(line, "(yes/no)"@)
    ||| contains_ci_spec(line, "[yes/no]"@)
    ||| contains_ci_spec(line, "press enter"@)
    ||| contains_ci_spec(line, "continue?"@)
    ||| contains_ci_spec(line, "proceed?"@)
    ||| contains_ci_spec(line, "password:"@)
    ||| contains_ci_spec(line, "passphrase:"@)
    ||| contains_ci_spec(line, "are you sure"@)
    ||| contains_ci_spec(line, "do you want"@)
    ||| contains_ci_spec(line, "would you like"@)
}

fn lower_char_exec(c: char) -> (r: char)
    ensures
        r == lower_char(c),
{
    let u = c as u32;
    if 65 <= u && u <= 90 {
        ((u + 32) as u8) as char
    } else if u == 0x212A {
        'k'
    } else {
        c
    }
}

fn match_at(line: &str, pat: &str, i: usize) -> (r: bool)
    requires
        i + pat@.len() <= line@.len(),
        line@.len() <= usize::MAX,
    ensures
        r == matches_at(lower_seq(line@), lower_seq(pat@), i as int),
{
    let m = pat.unicode_len();
    let mut j: usize = 0;
    while j < m
        invariant
            m == pat@.len(),
            i + m <= line@.len(),
            line@.len() <= usize::MAX,
            j <= m,
            forall|k: int| 0 <= k < j ==> lower_seq(line@)[i + k] == lower_seq(pat@)[k],
        decreases m - j,
    {
        let a = lower_char_exec(line.get_char(i + j));
        let b = lower_char_exec(pat.get_char(j));
        if a != b {
            proof {
                assert(lower_seq(line@)[i + j] == lower_char(line@[i + j]));
                assert(lower_seq(pat@)[j as int] == lower_char(pat@[j as int]));
                if matches_at(lower_seq(line@), lower_seq(pat@), i as int) {
                    assert(lower_seq(line@).subrange(i as int, i + m as int)[j as int]
                        == lower_seq(line@)[i + j]);
                }
            }
            return false;
        }
        j = j + 1;
    }
    proof {
        assert(lower_seq(line@).subrange(i as int, i + m as int) =~= lower_seq(pat@));
    }
    true
}

fn contains_ci(line: &str, pat: &str) -> (r: bool)
    ensures
        r == contains_ci_spec(line@, pat@),
{
    let n = line.unicode_len();
    let m = pat.unicode_len();
    if m == 0 {
        proof {
            assert(lower_seq(line@).subrange(0, 0) =~= lower_seq(pat@));
            assert(matches_at(lower_seq(line@), lower_seq(pat@), 0));
        }
        return true;
    }
    if m > n {
        proof {
            assert forall|i: int| !(0 <= i && matches_at(lower_seq(line@), lower_seq(pat@), i)) by {
                assert(lower_seq(line@).len() == line@.len());
                assert(lower_seq(pat@).len() == pat@.len());
            }
        }
        return false;
    }
    let mut i: usize = 0;
    while i <= n - m
        invariant
            1 <= m <= n,
            n == line@.len(),
            m == pat@.len(),
            i <= n - m + 1,
            forall|k: int| 0 <= k < i ==> !matches_at(lower_seq(line@), lower_seq(pat@), k),
        decreases n - i,
    {
        if match_at(line, pat, i) {
            return true;
        }
        i = i + 1;
    }
    proof {
        assert forall|k: int| !(0 <= k && matches_at(lower_seq(line@), lower_seq(pat@), k)) by {
            assert(lower_seq(line@).len() == line@.len());
            assert(lower_seq(pat@).len() == pat@.len());
        }
    }
    false
}

/// Lowercasing is idempotent: folding a folded sequence changes nothing.
pub proof fn lemma_lower_seq_idempotent(s: Seq<char>)
    ensures
        lower_seq(lower_seq(s)) == lower_seq(s),
{
    assert forall|i: int| 0 <= i < s.len() implies lower_seq(lower_seq(s))[i] == lower_seq(s)[i] by {
        assert(lower_seq(s)[i] == lower_char(s[i]));
        assert(lower_char(lower_char(s[i])) == lower_char(s[i]));
    }
    assert(lower_seq(lower_seq(s)) =~= lower_seq(s));
}

/// Matching is case-insensitive: two lines that fold alike get the same
/// verdict, however their letters are cased.
pub proof fn lemma_case_insensitive(l1: Seq<char>, l2: Seq<char>)
    requires
        lower_seq(l1) == lower_seq(l2),
    ensures
        is_prompt_line(l1) == is_prompt_line(l2),
{
}

/// In particular, a line and its folded form get the same verdict.
pub proof fn lemma_prompt_on_folded_line(l: Seq<char>)
    ensures
        is_prompt_line(lower_seq(l)) == is_prompt_line(l),
{
    lemma_lower_seq_idempotent(l);
    lemma_case_insensitive(lower_seq(l), l);
}

/// Whether a line the child wrote is an interactive prompt: any of the fixed
/// pattern set, matched case-insensitively anywhere in the line.
pub fn is_waiting_for_input(line: &str) -> (r: bool)
    ensures
        r == is_prompt_line(line@),
{
    contains_ci(line, "y/n") || contains_ci(line, "(y/n)") || contains_ci(line, "[y/n]")
        || contains_ci(line, "yes/no") || contains_ci(line, "(yes/no)") || contains_ci(
        line,
        "[yes/no]",
    ) || contains_ci(line, "press enter") || contains_ci(line, "continue?") || contains_ci(
        line,
        "proceed?",
    ) || contains_ci(line, "password:") || contains_ci(line, "passphrase:") || contains_ci(
        line,
        "are you sure",
    ) || contains_ci(line, "do you want") || contains_ci(line, "would you like")
}

} // verus!
