//! Text primitives for the speech heuristics: substring containment over
//! character vectors, and the fixed keyword inventory that the classifiers
//! match against. This is a cheap, deterministic lexical layer, distinct
//! from the external text-generation service.
use vstd::prelude::*;

verus! {

/// The pattern occurs in the text starting at position `i`.
pub open spec fn match_at(text: Seq<char>, pat: Seq<char>, i: int) -> bool {
    &&& 0 <= i
    &&& i + pat.len() <= text.len()
    &&& text.subrange(i, i + pat.len()) == pat
}

/// The pattern occurs somewhere in the text.
pub open spec fn contains_seq(text: Seq<char>, pat: Seq<char>) -> bool {
    exists|i: int| match_at(text, pat, i)
}

/// Substring search: whether `pat` occurs in `text`.
pub fn contains_sub(text: &Vec<char>, pat: &Vec<char>) -> (r: bool)
    ensures
        r == contains_seq(text@, pat@),
{
    let n = text.len();
    let m = pat.len();
    if m > n {
        proof {
            assert forall|i: int| !match_at(text@, pat@, i) by {}
        }
        return false;
    }
    if m == 0 {
        proof {
            assert(text@.subrange(0, 0) =~= pat@);
            assert(match_at(text@, pat@, 0));
        }
        return true;
    }
    let mut i: usize = 0;
    while i <= n - m
        invariant
            0 <= i <= n - m + 1,
            1 <= m <= n,
            n == text@.len(),
            m == pat@.len(),
            forall|i2: int| 0 <= i2 < i ==> !match_at(text@, pat@, i2),
        decreases n - m + 1 - i,
    {
        let mut j: usize = 0;
        let mut matched = true;
        while matched && j < m
            invariant
                0 <= j <= m,
                0 <= i <= n - m,
                1 <= m <= n,
                n == text@.len(),
                m == pat@.len(),
                matched ==> forall|j2: int| 0 <= j2 < j ==> text@[i + j2] == pat@[j2],
                !matched ==> !match_at(text@, pat@, i as int),
            decreases m - j + if matched {
                1int
            } else {
                0int
            },
        {
            if text[i + j] == pat[j] {
                j = j + 1;
            } else {
                proof {
                    assert(text@.subrange(i as int, i + m) != pat@) by {
                        assert(text@.subrange(i as int, i + m).len() == m);
                        assert(text@.subrange(i as int, i + m)[j as int] == text@[i + j]);
                    }
                }
                matched = false;
            }
        }
        if matched {
            proof {
                assert(text@.subrange(i as int, i + m) =~= pat@);
                assert(match_at(text@, pat@, i as int));
            }
            return true;
        }
        i = i + 1;
    }
    proof {
        assert forall|i2: int| !match_at(text@, pat@, i2) by {
            if 0 <= i2 <= n - m {
                assert(!match_at(text@, pat@, i2));
            }
        }
    }
    false
}

/// Whether two character vectors hold the same text.
pub fn chars_eq(a: &Vec<char>, b: &Vec<char>) -> (r: bool)
    ensures
        r == (a@ == b@),
{
    if a.len() != b.len() {
        return false;
    }
    let mut i: usize = 0;
    while i < a.len()
        invariant
            0 <= i <= a@.len(),
            a@.len() == b@.len(),
            forall|j: int| 0 <= j < i ==> a@[j] == b@[j],
        decreases a@.len() - i,
    {
        if a[i] != b[i] {
            return false;
        }
        i = i + 1;
    }
    proof {
        assert(a@ =~= b@);
    }
    true
}

/// The keyword "must".
pub open spec fn kw_must() -> Seq<char> {
    seq!['m', 'u', 's', 't']
}

/// The keyword "must".
pub fn kw_must_vec() -> (r: Vec<char>)
    ensures
        r@ == kw_must(),
{
    vec!['m', 'u', 's', 't']
}

/// The keyword "surely".
pub open spec fn kw_surely() -> Seq<char> {
    seq!['s', 'u', 'r', 'e', 'l', 'y']
}

/// The keyword "surely".
pub fn kw_surely_vec() -> (r: Vec<char>)
    ensures
        r@ == kw_surely(),
{
    vec!['s', 'u', 'r', 'e', 'l', 'y']
}

/// The keyword "i think not".
pub open spec fn kw_think_not() -> Seq<char> {
    seq!['i', ' ', 't', 'h', 'i', 'n', 'k', ' ', 'n', 'o', 't']
}

/// The keyword "i think not".
pub fn kw_think_not_vec() -> (r: Vec<char>)
    ensures
        r@ == kw_think_not(),
{
    vec!['i', ' ', 't', 'h', 'i', 'n', 'k', ' ', 'n', 'o', 't']
}

/// The keyword "too obvious".
pub open spec fn kw_too_obvious() -> Seq<char> {
    seq!['t', 'o', 'o', ' ', 'o', 'b', 'v', 'i', 'o', 'u', 's']
}

/// The keyword "too obvious".
pub fn kw_too_obvious_vec() -> (r: Vec<char>)
    ensures
        r@ == kw_too_obvious(),
{
    vec!['t', 'o', 'o', ' ', 'o', 'b', 'v', 'i', 'o', 'u', 's']
}

/// The keyword "so simple".
pub open spec fn kw_so_simple() -> Seq<char> {
    seq!['s', 'o', ' ', 's', 'i', 'm', 'p', 'l', 'e']
}

/// The keyword "so simple".
pub fn kw_so_simple_vec() -> (r: Vec<char>)
    ensures
        r@ == kw_so_simple(),
{
    vec!['s', 'o', ' ', 's', 'i', 'm', 'p', 'l', 'e']
}

/// The keyword "obviously".
pub open spec fn kw_obviously() -> Seq<char> {
    seq!['o', 'b', 'v', 'i', 'o', 'u', 's', 'l', 'y']
}

/// The keyword "obviously".
pub fn kw_obviously_vec() -> (r: Vec<char>)
    ensures
        r@ == kw_obviously(),
{
    vec!['o', 'b', 'v', 'i', 'o', 'u', 's', 'l', 'y']
}

/// The keyword "impossible".
pub open spec fn kw_impossible() -> Seq<char> {
    seq!['i', 'm', 'p', 'o', 's', 's', 'i', 'b', 'l', 'e']
}

/// The keyword "impossible".
pub fn kw_impossible_vec() -> (r: Vec<char>)
    ensures
        r@ == kw_impossible(),
{
    vec!['i', 'm', 'p', 'o', 's', 's', 'i', 'b', 'l', 'e']
}

/// The keyword "absolutely".
pub open spec fn kw_absolutely() -> Seq<char> {
    seq!['a', 'b', 's', 'o', 'l', 'u', 't', 'e', 'l', 'y']
}

/// The keyword "absolutely".
pub fn kw_absolutely_vec() -> (r: Vec<char>)
    ensures
        r@ == kw_absolutely(),
{
    vec!['a', 'b', 's', 'o', 'l', 'u', 't', 'e', 'l', 'y']
}

/// The keyword "i am not".
pub open spec fn kw_i_am_not() -> Seq<char> {
    seq!['i', ' ', 'a', 'm', ' ', 'n', 'o', 't']
}

/// The keyword "i am not".
pub fn kw_i_am_not_vec() -> (r: Vec<char>)
    ensures
        r@ == kw_i_am_not(),
{
    vec!['i', ' ', 'a', 'm', ' ', 'n', 'o', 't']
}

/// The keyword "trust me".
pub open spec fn kw_trust_me() -> Seq<char> {
    seq!['t', 'r', 'u', 's', 't', ' ', 'm', 'e']
}

/// The keyword "trust me".
pub fn kw_trust_me_vec() -> (r: Vec<char>)
    ensures
        r@ == kw_trust_me(),
{
    vec!['t', 'r', 'u', 's', 't', ' ', 'm', 'e']
}

/// The keyword "why suspect me".
pub open spec fn kw_why_suspect_me() -> Seq<char> {
    seq!['w', 'h', 'y', ' ', 's', 'u', 's', 'p', 'e', 'c', 't', ' ', 'm', 'e']
}

/// The keyword "why suspect me".
pub fn kw_why_suspect_me_vec() -> (r: Vec<char>)
    ensures
        r@ == kw_why_suspect_me(),
{
    vec!['w', 'h', 'y', ' ', 's', 'u', 's', 'p', 'e', 'c', 't', ' ', 'm', 'e']
}

/// The keyword "i am good".
pub open spec fn kw_i_am_good() -> Seq<char> {
    seq!['i', ' ', 'a', 'm', ' ', 'g', 'o', 'o', 'd']
}

/// The keyword "i am good".
pub fn kw_i_am_good_vec() -> (r: Vec<char>)
    ensures
        r@ == kw_i_am_good(),
{
    vec!['i', ' ', 'a', 'm', ' ', 'g', 'o', 'o', 'd']
}

/// The keyword "you are wrong".
pub open spec fn kw_you_are_wrong() -> Seq<char> {
    seq!['y', 'o', 'u', ' ', 'a', 'r', 'e', ' ', 'w', 'r', 'o', 'n', 'g']
}

/// The keyword "you are wrong".
pub fn kw_you_are_wrong_vec() -> (r: Vec<char>)
    ensures
        r@ == kw_you_are_wrong(),
{
    vec!['y', 'o', 'u', ' ', 'a', 'r', 'e', ' ', 'w', 'r', 'o', 'n', 'g']
}

/// The keyword "wronged".
pub open spec fn kw_wronged() -> Seq<char> {
    seq!['w', 'r', 'o', 'n', 'g', 'e', 'd']
}

/// The keyword "wronged".
pub fn kw_wronged_vec() -> (r: Vec<char>)
    ensures
        r@ == kw_wronged(),
{
    vec!['w', 'r', 'o', 'n', 'g', 'e', 'd']
}

/// The keyword "framed".
pub open spec fn kw_framed() -> Seq<char> {
    seq!['f', 'r', 'a', 'm', 'e', 'd']
}

/// The keyword "framed".
pub fn kw_framed_vec() -> (r: Vec<char>)
    ensures
        r@ == kw_framed(),
{
    vec!['f', 'r', 'a', 'm', 'e', 'd']
}

/// The keyword "must be wolf".
pub open spec fn kw_must_be_wolf() -> Seq<char> {
    seq!['m', 'u', 's', 't', ' ', 'b', 'e', ' ', 'w', 'o', 'l', 'f']
}

/// The keyword "must be wolf".
pub fn kw_must_be_wolf_vec() -> (r: Vec<char>)
    ensures
        r@ == kw_must_be_wolf(),
{
    vec!['m', 'u', 's', 't', ' ', 'b', 'e', ' ', 'w', 'o', 'l', 'f']
}

/// The keyword "obvious wolf".
pub open spec fn kw_obvious_wolf() -> Seq<char> {
    seq!['o', 'b', 'v', 'i', 'o', 'u', 's', ' ', 'w', 'o', 'l', 'f']
}

/// The keyword "obvious wolf".
pub fn kw_obvious_wolf_vec() -> (r: Vec<char>)
    ensures
        r@ == kw_obvious_wolf(),
{
    vec!['o', 'b', 'v', 'i', 'o', 'u', 's', ' ', 'w', 'o', 'l', 'f']
}

/// The keyword "werewolf".
pub open spec fn kw_werewolf() -> Seq<char> {
    seq!['w', 'e', 'r', 'e', 'w', 'o', 'l', 'f']
}

/// The keyword "werewolf".
pub fn kw_werewolf_vec() -> (r: Vec<char>)
    ensures
        r@ == kw_werewolf(),
{
    vec!['w', 'e', 'r', 'e', 'w', 'o', 'l', 'f']
}

/// The keyword "vote him".
pub open spec fn kw_vote_him() -> Seq<char> {
    seq!['v', 'o', 't', 'e', ' ', 'h', 'i', 'm']
}

/// The keyword "vote him".
pub fn kw_vote_him_vec() -> (r: Vec<char>)
    ensures
        r@ == kw_vote_him(),
{
    vec!['v', 'o', 't', 'e', ' ', 'h', 'i', 'm']
}

/// The keyword "vote him out".
pub open spec fn kw_vote_him_out() -> Seq<char> {
    seq!['v', 'o', 't', 'e', ' ', 'h', 'i', 'm', ' ', 'o', 'u', 't']
}

/// The keyword "vote him out".
pub fn kw_vote_him_out_vec() -> (r: Vec<char>)
    ensures
        r@ == kw_vote_him_out(),
{
    vec!['v', 'o', 't', 'e', ' ', 'h', 'i', 'm', ' ', 'o', 'u', 't']
}

/// The keyword "he is odd".
pub open spec fn kw_he_is_odd() -> Seq<char> {
    seq!['h', 'e', ' ', 'i', 's', ' ', 'o', 'd', 'd']
}

/// The keyword "he is odd".
pub fn kw_he_is_odd_vec() -> (r: Vec<char>)
    ensures
        r@ == kw_he_is_odd(),
{
    vec!['h', 'e', ' ', 'i', 's', ' ', 'o', 'd', 'd']
}

/// The keyword "vote".
pub open spec fn kw_vote() -> Seq<char> {
    seq!['v', 'o', 't', 'e']
}

/// The keyword "vote".
pub fn kw_vote_vec() -> (r: Vec<char>)
    ensures
        r@ == kw_vote(),
{
    vec!['v', 'o', 't', 'e']
}

/// The keyword "suspect".
pub open spec fn kw_suspect() -> Seq<char> {
    seq!['s', 'u', 's', 'p', 'e', 'c', 't']
}

/// The keyword "suspect".
pub fn kw_suspect_vec() -> (r: Vec<char>)
    ensures
        r@ == kw_suspect(),
{
    vec!['s', 'u', 's', 'p', 'e', 'c', 't']
}

/// The keyword "not me".
pub open spec fn kw_not_me() -> Seq<char> {
    seq!['n', 'o', 't', ' ', 'm', 'e']
}

/// The keyword "not me".
pub fn kw_not_me_vec() -> (r: Vec<char>)
    ensures
        r@ == kw_not_me(),
{
    vec!['n', 'o', 't', ' ', 'm', 'e']
}

/// The keyword "checked".
pub open spec fn kw_checked() -> Seq<char> {
    seq!['c', 'h', 'e', 'c', 'k', 'e', 'd']
}

/// The keyword "checked".
pub fn kw_checked_vec() -> (r: Vec<char>)
    ensures
        r@ == kw_checked(),
{
    vec!['c', 'h', 'e', 'c', 'k', 'e', 'd']
}

/// The keyword "furious".
pub open spec fn kw_furious() -> Seq<char> {
    seq!['f', 'u', 'r', 'i', 'o', 'u', 's']
}

/// The keyword "furious".
pub fn kw_furious_vec() -> (r: Vec<char>)
    ensures
        r@ == kw_furious(),
{
    vec!['f', 'u', 'r', 'i', 'o', 'u', 's']
}

/// The keyword "angry".
pub open spec fn kw_angry() -> Seq<char> {
    seq!['a', 'n', 'g', 'r', 'y']
}

/// The keyword "angry".
pub fn kw_angry_vec() -> (r: Vec<char>)
    ensures
        r@ == kw_angry(),
{
    vec!['a', 'n', 'g', 'r', 'y']
}

/// The keyword "nervous".
pub open spec fn kw_nervous() -> Seq<char> {
    seq!['n', 'e', 'r', 'v', 'o', 'u', 's']
}

/// The keyword "nervous".
pub fn kw_nervous_vec() -> (r: Vec<char>)
    ensures
        r@ == kw_nervous(),
{
    vec!['n', 'e', 'r', 'v', 'o', 'u', 's']
}

/// The keyword "i am".
pub open spec fn kw_i_am() -> Seq<char> {
    seq!['i', ' ', 'a', 'm']
}

/// The keyword "i am".
pub fn kw_i_am_vec() -> (r: Vec<char>)
    ensures
        r@ == kw_i_am(),
{
    vec!['i', ' ', 'a', 'm']
}

// ---------------------------------------------------------------------------
// Suspicion scoring of one line of speech
// ---------------------------------------------------------------------------

/// How many of the overconfident phrasings occur in the text.
pub open spec fn spec_suspicious_hits(t: Seq<char>) -> int {
    (if contains_seq(t, kw_must()) { 1int } else { 0int })
    + (if contains_seq(t, kw_surely()) { 1int } else { 0int })
    + (if contains_seq(t, kw_think_not()) { 1int } else { 0int })
    + (if contains_seq(t, kw_too_obvious()) { 1int } else { 0int })
    + (if contains_seq(t, kw_so_simple()) { 1int } else { 0int })
    + (if contains_seq(t, kw_obviously()) { 1int } else { 0int })
    + (if contains_seq(t, kw_impossible()) { 1int } else { 0int })
    + (if contains_seq(t, kw_absolutely()) { 1int } else { 0int })
}

/// How many of the defensive phrasings occur in the text.
pub open spec fn spec_defensive_hits(t: Seq<char>) -> int {
    (if contains_seq(t, kw_i_am_not()) { 1int } else { 0int })
    + (if contains_seq(t, kw_trust_me()) { 1int } else { 0int })
    + (if contains_seq(t, kw_why_suspect_me()) { 1int } else { 0int })
    + (if contains_seq(t, kw_i_am_good()) { 1int } else { 0int })
    + (if contains_seq(t, kw_you_are_wrong()) { 1int } else { 0int })
    + (if contains_seq(t, kw_wronged()) { 1int } else { 0int })
    + (if contains_seq(t, kw_framed()) { 1int } else { 0int })
}

/// How many of the accusatory phrasings occur in the text.
pub open spec fn spec_aggressive_hits(t: Seq<char>) -> int {
    (if contains_seq(t, kw_must_be_wolf()) { 1int } else { 0int })
    + (if contains_seq(t, kw_obvious_wolf()) { 1int } else { 0int })
    + (if contains_seq(t, kw_werewolf()) { 1int } else { 0int })
    + (if contains_seq(t, kw_vote_him_out()) { 1int } else { 0int })
    + (if contains_seq(t, kw_vote_him()) { 1int } else { 0int })
    + (if contains_seq(t, kw_he_is_odd()) { 1int } else { 0int })
}

/// The length bonus: very long speech over-explains, very short speech
/// hides information.
pub open spec fn spec_length_bonus(t: Seq<char>) -> int {
    if t.len() > 200 {
        50int
    } else if t.len() < 20 {
        100int
    } else {
        0int
    }
}

/// The suspicion weight of one line: overconfident phrasing counts 100,
/// defensive 200, accusatory 50, plus the length bonus; clamped.
pub open spec fn spec_suspicion_weight(t: Seq<char>) -> int {
    crate::score::clamped(
        100 * spec_suspicious_hits(t) + 200 * spec_defensive_hits(t) + 50 * spec_aggressive_hits(t)
            + spec_length_bonus(t),
    )
}

/// The confidence of the suspicion weight: defensive phrasing raises it
/// from the neutral baseline; clamped.
pub open spec fn spec_speech_confidence(t: Seq<char>) -> int {
    crate::score::clamped(500 + 100 * spec_defensive_hits(t))
}

/// Count the overconfident phrasings that occur in the text.
fn count_suspicious(content: &Vec<char>) -> (n: u32)
    ensures
        n == spec_suspicious_hits(content@),
        n <= 8,
{
    let mut n: u32 = 0;
    if contains_sub(content, &kw_must_vec()) {
        n = n + 1;
    }
    if contains_sub(content, &kw_surely_vec()) {
        n = n + 1;
    }
    if contains_sub(content, &kw_think_not_vec()) {
        n = n + 1;
    }
    if contains_sub(content, &kw_too_obvious_vec()) {
        n = n + 1;
    }
    if contains_sub(content, &kw_so_simple_vec()) {
        n = n + 1;
    }
    if contains_sub(content, &kw_obviously_vec()) {
        n = n + 1;
    }
    if contains_sub(content, &kw_impossible_vec()) {
        n = n + 1;
    }
    if contains_sub(content, &kw_absolutely_vec()) {
        n = n + 1;
    }
    n
}

/// Count the defensive phrasings that occur in the text.
fn count_defensive(content: &Vec<char>) -> (n: u32)
    ensures
        n == spec_defensive_hits(content@),
        n <= 7,
{
    let mut n: u32 = 0;
    if contains_sub(content, &kw_i_am_not_vec()) {
        n = n + 1;
    }
    if contains_sub(content, &kw_trust_me_vec()) {
        n = n + 1;
    }
    if contains_sub(content, &kw_why_suspect_me_vec()) {
        n = n + 1;
    }
    if contains_sub(content, &kw_i_am_good_vec()) {
        n = n + 1;
    }
    if contains_sub(content, &kw_you_are_wrong_vec()) {
        n = n + 1;
    }
    if contains_sub(content, &kw_wronged_vec()) {
        n = n + 1;
    }
    if contains_sub(content, &kw_framed_vec()) {
        n = n + 1;
    }
    n
}

/// Count the accusatory phrasings that occur in the text.
fn count_aggressive(content: &Vec<char>) -> (n: u32)
    ensures
        n == spec_aggressive_hits(content@),
        n <= 6,
{
    let mut n: u32 = 0;
    if contains_sub(content, &kw_must_be_wolf_vec()) {
        n = n + 1;
    }
    if contains_sub(content, &kw_obvious_wolf_vec()) {
        n = n + 1;
    }
    if contains_sub(content, &kw_werewolf_vec()) {
        n = n + 1;
    }
    if contains_sub(content, &kw_vote_him_out_vec()) {
        n = n + 1;
    }
    if contains_sub(content, &kw_vote_him_vec()) {
        n = n + 1;
    }
    if contains_sub(content, &kw_he_is_odd_vec()) {
        n = n + 1;
    }
    n
}

/// Score one line of speech: its suspicion weight and the confidence in
/// that weight, both in thousandths.
pub fn perform_speech_analysis(content: &Vec<char>) -> (r: (u32, u32))
    ensures
        r.0 == spec_suspicion_weight(content@),
        r.1 == spec_speech_confidence(content@),
        crate::score::valid_score(r.0),
        crate::score::valid_score(r.1),
{
    let susp_hits = count_suspicious(content);
    let def_hits = count_defensive(content);
    let agg_hits = count_aggressive(content);
    let bonus: u32 = if content.len() > 200 {
        50
    } else if content.len() < 20 {
        100
    } else {
        0
    };
    let raw: u32 = 100 * susp_hits + 200 * def_hits + 50 * agg_hits + bonus;
    let weight: u32 = if raw > 1000 {
        1000
    } else {
        raw
    };
    let raw_conf: u32 = 500 + 100 * def_hits;
    let confidence: u32 = if raw_conf > 1000 {
        1000
    } else {
        raw_conf
    };
    (weight, confidence)
}

} // verus!
