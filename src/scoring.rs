//! Scoring a guess against the answer, letter by letter.
use vstd::prelude::*;

verus! {

/// Feedback for one letter of a guess.
#[derive(Clone, Copy, Debug, PartialEq, Eq, Structural)]
pub enum Verdict {
    /// The letter stands at this very position of the answer.
    Exact,
    /// The letter occurs elsewhere in the answer, at a position not yet claimed.
    Present,
    /// No unclaimed occurrence of the letter is left in the answer.
    Absent,
}

/// The letters of `answer` at the first `n` positions where `guess` misses, in order.
pub open spec fn unmatched_prefix(guess: Seq<char>, answer: Seq<char>, n: int) -> Seq<char>
    decreases n,
{
    if n <= 0 {
        Seq::empty()
    } else {
        let rest = unmatched_prefix(guess, answer, n - 1);
        if guess[n - 1] != answer[n - 1] {
            rest.push(answer[n - 1])
        } else {
            rest
        }
    }
}

/// The letters of `answer` that no exact match consumes.
pub open spec fn unmatched_letters(guess: Seq<char>, answer: Seq<char>) -> Seq<char> {
    unmatched_prefix(guess, answer, guess.len() as int)
}

/// How many times `c` occurs in `s`.
pub open spec fn count_char(s: Seq<char>, c: char) -> nat
    decreases s.len(),
{
    if s.len() == 0 {
        0
    } else {
        count_char(s.drop_last(), c) + if s.last() == c {
            1nat
        } else {
            0nat
        }
    }
}

/// The surplus credit of `c`: its occurrences in `answer` left over by exact matches.
pub open spec fn surplus(guess: Seq<char>, answer: Seq<char>, c: char) -> nat {
    count_char(unmatched_letters(guess, answer), c)
}

/// How many of the first `i` positions hold `c` in `guess` without an exact match.
pub open spec fn claimed_before(guess: Seq<char>, answer: Seq<char>, i: int, c: char) -> nat
    decreases i,
{
    if i <= 0 {
        0
    } else {
        claimed_before(guess, answer, i - 1, c) + if guess[i - 1] != answer[i - 1] && guess[i
            - 1] == c {
            1nat
        } else {
            0nat
        }
    }
}

/// The verdict at position `i`: exact matches first, then surplus credit handed out
/// to the non-exact positions from left to right.
pub open spec fn verdict_at(guess: Seq<char>, answer: Seq<char>, i: int) -> Verdict {
    if guess[i] == answer[i] {
        Verdict::Exact
    } else if claimed_before(guess, answer, i, guess[i]) < surplus(guess, answer, guess[i]) {
        Verdict::Present
    } else {
        Verdict::Absent
    }
}

/// The verdict sequence of `guess` against `answer`, aligned with the guess.
pub open spec fn verdicts_of(guess: Seq<char>, answer: Seq<char>) -> Seq<Verdict> {
    Seq::new(guess.len(), |i: int| verdict_at(guess, answer, i))
}

/// The characters of `s`, one per element.
pub fn chars_of(s: &str) -> (r: Vec<char>)
    ensures
        r@ == s@,
{
    let n = s.unicode_len();
    let mut r: Vec<char> = Vec::new();
    let mut i: usize = 0;
    while i < n
        invariant
            n == s@.len(),
            i <= n,
            r@ == s@.subrange(0, i as int),
        decreases n - i,
    {
        r.push(s.get_char(i));
        i += 1;
        assert(r@ =~= s@.subrange(0, i as int));
    }
    assert(r@ =~= s@);
    r
}

/// The answer's letters at the positions where the guess misses, in order.
pub fn unmatched_answer_letters(guess: &Vec<char>, answer: &Vec<char>) -> (r: Vec<char>)
    requires
        guess@.len() == answer@.len(),
    ensures
        r@ == unmatched_letters(guess@, answer@),
{
    let mut r: Vec<char> = Vec::new();
    let mut i: usize = 0;
    while i < guess.len()
        invariant
            guess@.len() == answer@.len(),
            i <= guess@.len(),
            r@ == unmatched_prefix(guess@, answer@, i as int),
        decreases guess@.len() - i,
    {
        if guess[i] != answer[i] {
            r.push(answer[i]);
        }
        i += 1;
    }
    r
}

/// How many times `c` occurs in `s`.
pub fn count_occurrences(s: &Vec<char>, c: char) -> (n: usize)
    ensures
        n == count_char(s@, c),
{
    let mut n: usize = 0;
    let mut i: usize = 0;
    while i < s.len()
        invariant
            i <= s@.len(),
            n <= i,
            n == count_char(s@.subrange(0, i as int), c),
        decreases s@.len() - i,
    {
        assert(s@.subrange(0, i as int + 1).drop_last() =~= s@.subrange(0, i as int));
        if s[i] == c {
            n += 1;
        }
        i += 1;
    }
    assert(s@.subrange(0, s@.len() as int) =~= s@);
    n
}

/// Scores `guess` against `answer`: whether they are equal, and one verdict per letter.
pub fn score(guess: &str, answer: &str) -> (r: (bool, Vec<Verdict>))
    requires
        guess@.len() == answer@.len(),
    ensures
        r.0 == (guess@ == answer@),
        r.1@ == verdicts_of(guess@, answer@),
{
    let g = chars_of(guess);
    let a = chars_of(answer);
    score_letters(&g, &a)
}

/// Scores a guess against an answer, both given as characters.
pub fn score_letters(g: &Vec<char>, a: &Vec<char>) -> (r: (bool, Vec<Verdict>))
    requires
        g@.len() == a@.len(),
    ensures
        r.0 == (g@ == a@),
        r.1@ == verdicts_of(g@, a@),
{
    let n = g.len();
    // First pass: exact matches.
    let mut verdicts: Vec<Verdict> = Vec::new();
    let mut all_exact = true;
    let mut i: usize = 0;
    while i < n
        invariant
            n == g@.len() == a@.len(),
            i <= n,
            verdicts@.len() == i,
            all_exact == (forall|j: int| 0 <= j < i ==> g@[j] == a@[j]),
            forall|j: int| 0 <= j < i && g@[j] == a@[j] ==> verdicts@[j] == Verdict::Exact,
            forall|j: int| 0 <= j < i && g@[j] != a@[j] ==> verdicts@[j] == Verdict::Absent,
        decreases n - i,
    {
        if g[i] == a[i] {
            verdicts.push(Verdict::Exact);
        } else {
            verdicts.push(Verdict::Absent);
            all_exact = false;
        }
        i += 1;
    }
    if all_exact {
        assert(g@ =~= a@);
        assert(verdicts@ =~= verdicts_of(g@, a@));
        return (true, verdicts);
    }
    // Second pass: surplus credit, left to right.
    let pool = unmatched_answer_letters(g, a);
    let mut i: usize = 0;
    while i < n
        invariant
            n == g@.len() == a@.len(),
            i <= n,
            verdicts@.len() == n,
            pool@ == unmatched_letters(g@, a@),
            forall|j: int| 0 <= j < i ==> verdicts@[j] == verdict_at(g@, a@, j),
            forall|j: int| i <= j < n && g@[j] == a@[j] ==> verdicts@[j] == Verdict::Exact,
        decreases n - i,
    {
        if g[i] != a[i] {
            let c = g[i];
            let mut claimed: usize = 0;
            let mut k: usize = 0;
            while k < i
                invariant
                    n == g@.len() == a@.len(),
                    k <= i < n,
                    c == g@[i as int],
                    claimed <= k,
                    claimed == claimed_before(g@, a@, k as int, c),
                decreases i - k,
            {
                if g[k] != a[k] && g[k] == c {
                    claimed += 1;
                }
                k += 1;
            }
            let credit = count_occurrences(&pool, c);
            if claimed < credit {
                verdicts.set(i, Verdict::Present);
            } else {
                verdicts.set(i, Verdict::Absent);
            }
        }
        i += 1;
    }
    assert(verdicts@ =~= verdicts_of(g@, a@));
    assert(g@ != a@) by {
        let j = choose|j: int| 0 <= j < n && g@[j] != a@[j];
        assert(g@[j] != a@[j]);
    }
    (false, verdicts)
}

/// How many of the first `i` positions are marked present and hold `c` in `guess`.
pub open spec fn present_count(guess: Seq<char>, answer: Seq<char>, i: int, c: char) -> nat
    decreases i,
{
    if i <= 0 {
        0
    } else {
        present_count(guess, answer, i - 1, c) + if verdict_at(guess, answer, i - 1)
            == Verdict::Present && guess[i - 1] == c {
            1nat
        } else {
            0nat
        }
    }
}

/// Over any prefix, the present marks of a letter are its non-exact positions
/// so far, capped by its surplus credit.
pub proof fn lemma_present_count_prefix(guess: Seq<char>, answer: Seq<char>, i: int, c: char)
    requires
        guess.len() == answer.len(),
        0 <= i <= guess.len(),
    ensures
        present_count(guess, answer, i, c) == if claimed_before(guess, answer, i, c) < surplus(
            guess,
            answer,
            c,
        ) {
            claimed_before(guess, answer, i, c)
        } else {
            surplus(guess, answer, c)
        },
    decreases i,
{
    if i > 0 {
        lemma_present_count_prefix(guess, answer, i - 1, c);
    }
}

/// The present marks of a letter never exceed its surplus credit: the
/// occurrences in the answer that exact matches leave over.
pub proof fn lemma_present_within_surplus(guess: Seq<char>, answer: Seq<char>, c: char)
    requires
        guess.len() == answer.len(),
    ensures
        present_count(guess, answer, guess.len() as int, c) <= surplus(guess, answer, c),
{
    lemma_present_count_prefix(guess, answer, guess.len() as int, c);
}

/// Scoring a word against itself marks every position exact
/// (and `score` reports the exact match, the two words being equal).
pub proof fn lemma_exact_word_all_exact(w: Seq<char>)
    ensures
        verdicts_of(w, w).len() == w.len(),
        forall|i: int| 0 <= i < w.len() ==> #[trigger] verdicts_of(w, w)[i] == Verdict::Exact,
{
}

} // verus!
