//! Parsing the resource-listing output: the child's standard output is a
//! whitespace-delimited list of resource names, taken in the order printed.

use vstd::prelude::*;
use vstd::string::StrSliceExecFns;

verus! {

/// The whitespace characters that separate resource names in the listing
/// output: the ASCII blank, tab, line and page separators.
pub open spec fn is_space(c: char) -> bool {
    c == ' ' || c == '\t' || c == '\n' || c == '\r' || c == '\u{b}' || c == '\u{c}'
}

/// One step of the tokenizer on accumulator `acc` (finished tokens, current
/// partial token): a space closes a non-empty partial token, any other
/// character extends it.
pub open spec fn spec_token_step(acc: (Seq<Seq<char>>, Seq<char>), c: char) -> (
    Seq<Seq<char>>,
    Seq<char>,
) {
    if is_space(c) {
        if acc.1.len() > 0 {
            (acc.0.push(acc.1), Seq::<char>::empty())
        } else {
            acc
        }
    } else {
        (acc.0, acc.1.push(c))
    }
}

/// The tokenizer accumulator after consuming all of `s`, starting from `acc`.
pub open spec fn spec_token_fold(s: Seq<char>, acc: (Seq<Seq<char>>, Seq<char>)) -> (
    Seq<Seq<char>>,
    Seq<char>,
)
    decreases s.len(),
{
    if s.len() == 0 {
        acc
    } else {
        spec_token_fold(s.drop_first(), spec_token_step(acc, s[0]))
    }
}

/// The whitespace-delimited tokens of `s`, in order of appearance. An input
/// of only whitespace, or an empty input, has no tokens.
pub open spec fn spec_tokenize(s: Seq<char>) -> Seq<Seq<char>> {
    let acc = spec_token_fold(s, (Seq::<Seq<char>>::empty(), Seq::<char>::empty()));
    if acc.1.len() > 0 {
        acc.0.push(acc.1)
    } else {
        acc.0
    }
}

/// Folding over `s` extended by one character applies one more step.
proof fn lemma_token_fold_push(s: Seq<char>, c: char, acc: (Seq<Seq<char>>, Seq<char>))
    ensures
        spec_token_fold(s.push(c), acc) == spec_token_step(spec_token_fold(s, acc), c),
    decreases s.len(),
{
    if s.len() == 0 {
        assert(s.push(c).drop_first() =~= Seq::<char>::empty());
        assert(s.push(c)[0] == c);
        assert(spec_token_fold(s.push(c), acc) == spec_token_fold(
            Seq::<char>::empty(),
            spec_token_step(acc, c),
        ));
        assert(spec_token_fold(Seq::<char>::empty(), spec_token_step(acc, c)) == spec_token_step(
            acc,
            c,
        ));
        assert(spec_token_fold(s, acc) == acc);
    } else {
        assert(s.push(c).drop_first() =~= s.drop_first().push(c));
        assert(s.push(c)[0] == s[0]);
        lemma_token_fold_push(s.drop_first(), c, spec_token_step(acc, s[0]));
    }
}

/// Returns whether `c` separates tokens in the listing output.
fn is_space_char(c: char) -> (r: bool)
    ensures
        r == is_space(c),
{
    c == ' ' || c == '\t' || c == '\n' || c == '\r' || c == '\u{b}' || c == '\u{c}'
}

/// Splits the listing output into whitespace-delimited resource names, in
/// the order they appear. Empty output yields an empty list.
pub fn tokenize(text: &str) -> (tokens: Vec<String>)
    ensures
        tokens.deep_view() == spec_tokenize(text@),
{
    let ghost init = (Seq::<Seq<char>>::empty(), Seq::<char>::empty());
    let length = text.unicode_len();
    let mut tokens: Vec<String> = Vec::new();
    let mut start: usize = 0;
    let mut in_token = false;
    let mut i: usize = 0;
    proof {
        assert(text@.take(0) =~= Seq::<char>::empty());
    }
    while i < length
        invariant
            i <= length,
            length == text@.len(),
            in_token ==> start < i,
            spec_token_fold(text@.take(i as int), init) == (
                tokens.deep_view(),
                if in_token {
                    text@.subrange(start as int, i as int)
                } else {
                    Seq::<char>::empty()
                },
            ),
        decreases length - i,
    {
        let ghost acc = spec_token_fold(text@.take(i as int), init);
        let c = text.get_char(i);
        if is_space_char(c) {
            if in_token {
                let ghost tokens_before = tokens.deep_view();
                tokens.push(text.substring_char(start, i).to_owned());
                in_token = false;
                assert(tokens.deep_view() =~= tokens_before.push(acc.1));
            }
        } else {
            if !in_token {
                start = i;
                in_token = true;
            }
            assert(text@.subrange(start as int, i + 1) =~= acc.1.push(text@[i as int]));
        }
        proof {
            text@.lemma_take_succ_push(i as int);
            lemma_token_fold_push(text@.take(i as int), text@[i as int], init);
        }
        i += 1;
    }
    proof {
        assert(text@.take(length as int) =~= text@);
    }
    if in_token {
        let ghost tokens_before = tokens.deep_view();
        let ghost acc = spec_token_fold(text@, init);
        tokens.push(text.substring_char(start, length).to_owned());
        assert(tokens.deep_view() =~= tokens_before.push(acc.1));
    }
    tokens
}

} // verus!
