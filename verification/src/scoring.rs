use vstd::prelude::*;
use crate::letter::LetterState;

verus! {

/// Whether position `i` of `guess` holds the letter that `target` holds there.
pub open spec fn exact_at(target: Seq<char>, guess: Seq<char>, i: int) -> bool {
    guess[i] == target[i]
}

/// How many of the first `n` positions of `target` hold `c` without being
/// matched exactly by `guess`: the copies of `c` that are left over for
/// "right letter, wrong place" hints.
pub open spec fn unmatched_count(target: Seq<char>, guess: Seq<char>, c: char, n: int) -> nat
    decreases n,
{
    if n <= 0 {
        0
    } else {
        unmatched_count(target, guess, c, n - 1) + if target[n - 1] == c && !exact_at(
            target,
            guess,
            n - 1,
        ) {
            1nat
        } else {
            0nat
        }
    }
}

/// How many of the first `n` positions of `guess` hold `c` without being
/// an exact match.
pub open spec fn misplaced_count(target: Seq<char>, guess: Seq<char>, c: char, n: int) -> nat
    decreases n,
{
    if n <= 0 {
        0
    } else {
        misplaced_count(target, guess, c, n - 1) + if guess[n - 1] == c && !exact_at(
            target,
            guess,
            n - 1,
        ) {
            1nat
        } else {
            0nat
        }
    }
}

/// How many of the first `n` positions of `s` hold `c`.
pub open spec fn occurrences(s: Seq<char>, c: char, n: int) -> nat
    decreases n,
{
    if n <= 0 {
        0
    } else {
        occurrences(s, c, n - 1) + if s[n - 1] == c {
            1nat
        } else {
            0nat
        }
    }
}

/// The state that Wordle gives to position `i` of `guess`: `Correct` for an
/// exact match; otherwise `Present` while copies of the letter that are not
/// matched exactly remain in `target` for it (earlier positions of the guess
/// use them up first), and `Absent` once they are used up.
pub open spec fn letter_score(target: Seq<char>, guess: Seq<char>, i: int) -> LetterState {
    if exact_at(target, guess, i) {
        LetterState::Correct
    } else if misplaced_count(target, guess, guess[i], i) < unmatched_count(
        target,
        guess,
        guess[i],
        target.len() as int,
    ) {
        LetterState::Present
    } else {
        LetterState::Absent
    }
}

/// The states of all positions of `guess` against `target`.
pub open spec fn score_spec(target: Seq<char>, guess: Seq<char>) -> Seq<LetterState> {
    Seq::new(guess.len(), |i: int| letter_score(target, guess, i))
}

/// Whether a state is a hint, that is `Correct` or `Present`.
pub open spec fn is_hint(s: LetterState) -> bool {
    s == LetterState::Correct || s == LetterState::Present
}

/// How many of the first `n` positions of `guess` hold `c` and are hinted in `states`.
pub open spec fn hinted_count(states: Seq<LetterState>, guess: Seq<char>, c: char, n: int) -> nat
    decreases n,
{
    if n <= 0 {
        0
    } else {
        hinted_count(states, guess, c, n - 1) + if guess[n - 1] == c && is_hint(states[n - 1]) {
            1nat
        } else {
            0nat
        }
    }
}

/// How many of the first `n` positions of `target` hold `c`, are not matched
/// exactly, and have been taken (`used`) as the source of a hint.
spec fn claimed_count(
    target: Seq<char>,
    guess: Seq<char>,
    used: Seq<bool>,
    c: char,
    n: int,
) -> nat
    decreases n,
{
    if n <= 0 {
        0
    } else {
        claimed_count(target, guess, used, c, n - 1) + if used[n - 1] && target[n - 1] == c
            && !exact_at(target, guess, n - 1) {
            1nat
        } else {
            0nat
        }
    }
}

proof fn lemma_claimed_none(target: Seq<char>, guess: Seq<char>, used: Seq<bool>, c: char, n: int)
    requires
        forall|j: int| 0 <= j < n && used[j] ==> exact_at(target, guess, j),
    ensures
        claimed_count(target, guess, used, c, n) == 0,
    decreases n,
{
    if n > 0 {
        lemma_claimed_none(target, guess, used, c, n - 1);
    }
}

proof fn lemma_claimed_bounds(target: Seq<char>, guess: Seq<char>, used: Seq<bool>, c: char, n: int)
    ensures
        claimed_count(target, guess, used, c, n) <= unmatched_count(target, guess, c, n),
        (exists|k: int|
            0 <= k < n && !used[k] && target[k] == c && !exact_at(target, guess, k))
            ==> claimed_count(target, guess, used, c, n) < unmatched_count(target, guess, c, n),
        (forall|k: int|
            0 <= k < n && target[k] == c && !exact_at(target, guess, k) ==> used[k])
            ==> claimed_count(target, guess, used, c, n) == unmatched_count(target, guess, c, n),
    decreases n,
{
    if n > 0 {
        lemma_claimed_bounds(target, guess, used, c, n - 1);
        if exists|k: int|
            0 <= k < n && !used[k] && target[k] == c && !exact_at(target, guess, k) {
            let k = choose|k: int|
                0 <= k < n && !used[k] && target[k] == c && !exact_at(target, guess, k);
            if k < n - 1 {
                assert(exists|k2: int|
                    0 <= k2 < n - 1 && !used[k2] && target[k2] == c && !exact_at(
                        target,
                        guess,
                        k2,
                    ));
            }
        }
    }
}

proof fn lemma_claimed_update(
    target: Seq<char>,
    guess: Seq<char>,
    used: Seq<bool>,
    j: int,
    c: char,
    n: int,
)
    requires
        0 <= j < used.len(),
        n <= used.len(),
    ensures
        claimed_count(target, guess, used.update(j, true), c, n) == claimed_count(
            target,
            guess,
            used,
            c,
            n,
        ) + if j < n && !used[j] && target[j] == c && !exact_at(target, guess, j) {
            1nat
        } else {
            0nat
        },
    decreases n,
{
    if n > 0 {
        lemma_claimed_update(target, guess, used, j, c, n - 1);
    }
}

/// Scores `guess` against `target` with the classic Wordle rules, duplicate
/// letters included: exact matches are `Correct`; then, from left to right,
/// each remaining letter is `Present` if a copy of it in `target` is still
/// unused, and takes that copy, and is `Absent` otherwise.
pub fn score_guess(target: &[char; 5], guess: &[char; 5]) -> (states: [LetterState; 5])
    ensures
        states@ == score_spec(target@, guess@),
{
    let ghost t = target@;
    let ghost g = guess@;
    let mut states = [
        LetterState::Absent,
        LetterState::Absent,
        LetterState::Absent,
        LetterState::Absent,
        LetterState::Absent,
    ];
    let mut target_used = [false, false, false, false, false];
    let mut guess_used = [false, false, false, false, false];

    for i in 0..5
        invariant
            t == target@,
            g == guess@,
            t.len() == 5,
            g.len() == 5,
            forall|j: int|
                0 <= j < i ==> {
                    &&& target_used@[j] == exact_at(t, g, j)
                    &&& guess_used@[j] == exact_at(t, g, j)
                    &&& states@[j] == if exact_at(t, g, j) {
                        LetterState::Correct
                    } else {
                        LetterState::Absent
                    }
                },
            forall|j: int|
                i <= j < 5 ==> {
                    &&& !target_used@[j]
                    &&& !guess_used@[j]
                    &&& states@[j] == LetterState::Absent
                },
    {
        if guess[i] == target[i] {
            states[i] = LetterState::Correct;
            target_used[i] = true;
            guess_used[i] = true;
        }
    }

    assert forall|c: char| claimed_count(t, g, target_used@, c, 5) == 0 by {
        lemma_claimed_none(t, g, target_used@, c, 5);
    }

    for i in 0..5
        invariant
            t == target@,
            g == guess@,
            t.len() == 5,
            g.len() == 5,
            forall|j: int| 0 <= j < 5 ==> guess_used@[j] == exact_at(t, g, j),
            forall|j: int| 0 <= j < 5 && exact_at(t, g, j) ==> target_used@[j],
            forall|j: int| 0 <= j < i ==> states@[j] == letter_score(t, g, j),
            forall|j: int|
                i <= j < 5 ==> states@[j] == if exact_at(t, g, j) {
                    LetterState::Correct
                } else {
                    LetterState::Absent
                },
            forall|c: char|
                #[trigger] claimed_count(t, g, target_used@, c, 5) == min_nat(
                    misplaced_count(t, g, c, i as int),
                    unmatched_count(t, g, c, 5),
                ),
    {
        if !guess_used[i] {
            let ghost c = g[i as int];
            let ghost used0 = target_used@;
            let ghost states0 = states@;
            let mut j: usize = 0;
            while j < 5
                invariant_except_break
                    0 <= j <= 5,
                    target_used@ == used0,
                    states@ == states0,
                    forall|k: int| 0 <= k < j ==> !(!used0[k] && t[k] == c),
                invariant
                    t == target@,
                    g == guess@,
                    c == g[i as int],
                    i < 5,
                    used0.len() == 5,
                    states0.len() == 5,
                ensures
                    ({
                        ||| (j < 5 && !used0[j as int] && t[j as int] == c && target_used@
                            == used0.update(j as int, true) && states@ == states0.update(
                            i as int,
                            LetterState::Present,
                        ))
                        ||| (j == 5 && target_used@ == used0 && states@ == states0 && forall|k: int|
                            0 <= k < 5 ==> !(!used0[k] && t[k] == c))
                    }),
                decreases 5 - j,
            {
                if !target_used[j] && guess[i] == target[j] {
                    states[i] = LetterState::Present;
                    target_used[j] = true;
                    break;
                }
                j += 1;
            }
            proof {
                lemma_claimed_bounds(t, g, used0, c, 5);
                if j < 5 {
                    let jj = j as int;
                    assert(!exact_at(t, g, jj));
                    assert(exists|k: int|
                        0 <= k < 5 && !used0[k] && t[k] == c && !exact_at(t, g, k));
                    assert forall|c2: char|
                        #[trigger] claimed_count(t, g, target_used@, c2, 5) == min_nat(
                            misplaced_count(t, g, c2, i + 1),
                            unmatched_count(t, g, c2, 5),
                        ) by {
                        lemma_claimed_update(t, g, used0, jj, c2, 5);
                        assert(claimed_count(t, g, used0, c2, 5) == min_nat(
                            misplaced_count(t, g, c2, i as int),
                            unmatched_count(t, g, c2, 5),
                        ));
                    }
                } else {
                    assert forall|c2: char|
                        #[trigger] claimed_count(t, g, target_used@, c2, 5) == min_nat(
                            misplaced_count(t, g, c2, i + 1),
                            unmatched_count(t, g, c2, 5),
                        ) by {
                        assert(claimed_count(t, g, used0, c2, 5) == min_nat(
                            misplaced_count(t, g, c2, i as int),
                            unmatched_count(t, g, c2, 5),
                        ));
                    }
                }
            }
        } else {
            assert forall|c2: char|
                #[trigger] misplaced_count(t, g, c2, i + 1) == misplaced_count(
                    t,
                    g,
                    c2,
                    i as int,
                ) by {}
        }
    }
    states
}

/// How many of the first `n` positions are exact matches holding `c`.
pub open spec fn exact_count(target: Seq<char>, guess: Seq<char>, c: char, n: int) -> nat
    decreases n,
{
    if n <= 0 {
        0
    } else {
        exact_count(target, guess, c, n - 1) + if guess[n - 1] == c && exact_at(
            target,
            guess,
            n - 1,
        ) {
            1nat
        } else {
            0nat
        }
    }
}

/// The smaller of two naturals.
pub open spec fn min_nat(a: nat, b: nat) -> nat {
    if a < b {
        a
    } else {
        b
    }
}

proof fn lemma_occurrences_split(target: Seq<char>, guess: Seq<char>, c: char, n: int)
    ensures
        occurrences(guess, c, n) == exact_count(target, guess, c, n) + misplaced_count(
            target,
            guess,
            c,
            n,
        ),
        occurrences(target, c, n) == exact_count(target, guess, c, n) + unmatched_count(
            target,
            guess,
            c,
            n,
        ),
    decreases n,
{
    if n > 0 {
        lemma_occurrences_split(target, guess, c, n - 1);
    }
}

proof fn lemma_hinted_prefix(target: Seq<char>, guess: Seq<char>, c: char, n: int)
    requires
        target.len() == guess.len(),
        0 <= n <= guess.len(),
    ensures
        hinted_count(score_spec(target, guess), guess, c, n) == exact_count(target, guess, c, n)
            + min_nat(
            misplaced_count(target, guess, c, n),
            unmatched_count(target, guess, c, target.len() as int),
        ),
    decreases n,
{
    if n > 0 {
        lemma_hinted_prefix(target, guess, c, n - 1);
    }
}

/// Duplicate letters are scored as in Wordle: of the positions of `guess`
/// that hold a letter `c`, exactly as many are hinted (`Correct` or
/// `Present`) as the smaller of the number of copies of `c` in `guess` and
/// in `target`.
pub proof fn law_hints_per_letter(target: Seq<char>, guess: Seq<char>, c: char)
    requires
        target.len() == guess.len(),
    ensures
        hinted_count(score_spec(target, guess), guess, c, guess.len() as int) == min_nat(
            occurrences(guess, c, guess.len() as int),
            occurrences(target, c, target.len() as int),
        ),
{
    lemma_hinted_prefix(target, guess, c, guess.len() as int);
    lemma_occurrences_split(target, guess, c, guess.len() as int);
}

proof fn lemma_unmatched_witness(target: Seq<char>, guess: Seq<char>, c: char, n: int)
    requires
        unmatched_count(target, guess, c, n) > 0,
    ensures
        exists|j: int| 0 <= j < n && target[j] == c && !exact_at(target, guess, j),
    decreases n,
{
    if n > 0 {
        if unmatched_count(target, guess, c, n - 1) > 0 {
            lemma_unmatched_witness(target, guess, c, n - 1);
        } else {
            assert(target[n - 1] == c && !exact_at(target, guess, n - 1));
        }
    }
}

/// A letter is `Correct` exactly where it matches the target, and it is
/// `Present` only when the target holds that letter at some position that is
/// not matched exactly.
pub proof fn law_hints_are_sound(target: Seq<char>, guess: Seq<char>, i: int)
    requires
        target.len() == guess.len(),
        0 <= i < guess.len(),
    ensures
        (score_spec(target, guess)[i] == LetterState::Correct) == (guess[i] == target[i]),
        score_spec(target, guess)[i] == LetterState::Present ==> exists|j: int|
            0 <= j < target.len() && target[j] == guess[i] && guess[j] != target[j],
{
    if score_spec(target, guess)[i] == LetterState::Present {
        lemma_unmatched_witness(target, guess, guess[i], target.len() as int);
    }
}

/// A guess equal to the target is `Correct` everywhere.
pub proof fn law_exact_guess_all_correct(target: Seq<char>)
    ensures
        forall|i: int|
            0 <= i < target.len() ==> #[trigger] score_spec(target, target)[i]
                == LetterState::Correct,
{
}

} // verus!
