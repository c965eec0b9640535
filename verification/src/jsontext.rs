//! Best-effort extraction of string fields from a reply of the external
//! text-generation service. The service is asked for a reply of the shape
//! `{"action":"kill","target":"3"}`; this module finds a quoted field by
//! its key and reads the quoted value after it, with an exact statement of
//! what is found, and turns the pair into a night action.
use vstd::prelude::*;
use crate::speech::{match_at, contains_seq, chars_eq};
use crate::types::{NightAction, NightActionType};

verus! {

/// The pattern occurs at `i` and nowhere earlier.
pub open spec fn first_match_at(t: Seq<char>, pat: Seq<char>, i: int) -> bool {
    &&& match_at(t, pat, i)
    &&& forall|i2: int| 0 <= i2 < i ==> !match_at(t, pat, i2)
}

/// The search pattern for a field: the key in quotes, a colon, and the
/// opening quote of the value.
pub open spec fn spec_field_pat(k: Seq<char>) -> Seq<char> {
    seq!['"'] + k + seq!['"', ':', '"']
}

/// The value `v` is what the best-effort extraction finds for key `k`:
/// after the first occurrence of the quoted key, everything up to the
/// next quote.
pub open spec fn spec_extract_some(t: Seq<char>, k: Seq<char>, v: Seq<char>) -> bool {
    exists|i: int|
        #![auto]
        first_match_at(t, spec_field_pat(k), i) && ({
            let start = i + spec_field_pat(k).len();
            exists|e: int|
                #![auto]
                start <= e < t.len() && t[e] == '"' && (forall|j: int|
                    start <= j < e ==> t[j] != '"') && v == t.subrange(start, e)
        })
}

/// The extraction finds nothing: the quoted key never occurs, or no
/// closing quote follows its value.
pub open spec fn spec_extract_none(t: Seq<char>, k: Seq<char>) -> bool {
    ||| !contains_seq(t, spec_field_pat(k))
    ||| exists|i: int|
        #![auto]
        first_match_at(t, spec_field_pat(k), i) && (forall|j: int|
            i + spec_field_pat(k).len() <= j < t.len() ==> t[j] != '"')
}

/// Find the first occurrence of `pat` in `text`.
pub fn find_sub(text: &Vec<char>, pat: &Vec<char>) -> (r: Option<usize>)
    ensures
        match r {
            Some(i) => first_match_at(text@, pat@, i as int),
            None => !contains_seq(text@, pat@),
        },
{
    let n = text.len();
    let m = pat.len();
    if m > n {
        proof {
            assert forall|i: int| !match_at(text@, pat@, i) by {}
        }
        return None;
    }
    if m == 0 {
        proof {
            assert(text@.subrange(0, 0) =~= pat@);
            assert(match_at(text@, pat@, 0));
        }
        return Some(0);
    }
    let mut i: usize = 0;
    while i <= n - m
        invariant
            0 <= i <= n - m + 1,
            1 <= m <= n,
            n == text@.len(),
            m == pat@.len(),
            forall|i2: int| 0 <= i2 < i ==> !match_at(text@, pat@, i2),
        decreases n - m + 1 - i,
    {
        let mut j: usize = 0;
        let mut matched = true;
        while matched && j < m
            invariant
                0 <= j <= m,
                0 <= i <= n - m,
                1 <= m <= n,
                n == text@.len(),
                m == pat@.len(),
                matched ==> forall|j2: int| 0 <= j2 < j ==> text@[i + j2] == pat@[j2],
                !matched ==> !match_at(text@, pat@, i as int),
            decreases m - j + if matched {
                1int
            } else {
                0int
            },
        {
            if text[i + j] == pat[j] {
                j = j + 1;
            } else {
                proof {
                    assert(text@.subrange(i as int, i + m) != pat@) by {
                        assert(text@.subrange(i as int, i + m).len() == m);
                        assert(text@.subrange(i as int, i + m)[j as int] == text@[i + j]);
                    }
                }
                matched = false;
            }
        }
        if matched {
            proof {
                assert(text@.subrange(i as int, i + m) =~= pat@);
                assert(match_at(text@, pat@, i as int));
            }
            return Some(i);
        }
        i = i + 1;
    }
    proof {
        assert forall|i2: int| !match_at(text@, pat@, i2) by {
            if 0 <= i2 <= n - m {
                assert(!match_at(text@, pat@, i2));
            }
        }
    }
    None
}

/// Find the first occurrence of `c` at or after `from`.
pub fn find_char_from(text: &Vec<char>, from: usize, c: char) -> (r: Option<usize>)
    requires
        from <= text@.len(),
    ensures
        match r {
            Some(e) => from <= e < text@.len() && text@[e as int] == c && (forall|j: int|
                from <= j < e ==> text@[j] != c),
            None => forall|j: int| from <= j < text@.len() ==> text@[j] != c,
        },
{
    let mut i: usize = from;
    while i < text.len()
        invariant
            from <= i <= text@.len(),
            forall|j: int| from <= j < i ==> text@[j] != c,
        decreases text@.len() - i,
    {
        if text[i] == c {
            return Some(i);
        }
        i = i + 1;
    }
    None
}

/// Build the search pattern for a key.
fn build_field_pat(key: &Vec<char>) -> (r: Vec<char>)
    ensures
        r@ == spec_field_pat(key@),
{
    let mut r: Vec<char> = Vec::new();
    r.push('"');
    let mut i: usize = 0;
    while i < key.len()
        invariant
            0 <= i <= key@.len(),
            r@ == seq!['"'] + key@.subrange(0, i as int),
        decreases key@.len() - i,
    {
        r.push(key[i]);
        proof {
            assert(r@ =~= seq!['"'] + key@.subrange(0, i + 1));
        }
        i = i + 1;
    }
    r.push('"');
    r.push(':');
    r.push('"');
    proof {
        assert(key@.subrange(0, key@.len() as int) =~= key@);
        assert(r@ =~= spec_field_pat(key@));
    }
    r
}

/// Extract the quoted value of a key from a reply, best effort.
pub fn extract_string_field(text: &Vec<char>, key: &Vec<char>) -> (r: Option<Vec<char>>)
    ensures
        match r {
            Some(v) => spec_extract_some(text@, key@, v@),
            None => spec_extract_none(text@, key@),
        },
{
    let pat = build_field_pat(key);
    match find_sub(text, &pat) {
        None => None,
        Some(i) => {
            let tl = text.len();
            proof {
                assert(match_at(text@, pat@, i as int));
                assert(i + pat@.len() <= tl);
            }
            let start = i + pat.len();
            match find_char_from(text, start, '"') {
                None => None,
                Some(e) => {
                    let v = crate::nlp::copy_range(text, start, e);
                    Some(v)
                },
            }
        },
    }
}

// ---------------------------------------------------------------------------
// Digits
// ---------------------------------------------------------------------------

/// Every character is a decimal digit.
pub open spec fn all_digits(s: Seq<char>) -> bool {
    forall|i: int| 0 <= i < s.len() ==> '0' <= #[trigger] s[i] <= '9'
}

/// The number the digit string denotes.
pub open spec fn digits_val(s: Seq<char>) -> int
    decreases s.len(),
{
    if s.len() == 0 {
        0
    } else {
        digits_val(s.drop_last()) * 10 + (s.last() as int - '0' as int)
    }
}

/// A longer digit prefix never denotes a smaller number.
proof fn lemma_digits_val_mono(s: Seq<char>, i: int)
    requires
        all_digits(s),
        0 <= i <= s.len(),
    ensures
        digits_val(s.subrange(0, i)) <= digits_val(s),
    decreases s.len() - i,
{
    if i < s.len() {
        lemma_digits_val_mono(s, i + 1);
        let a = s.subrange(0, i);
        let b = s.subrange(0, i + 1);
        assert(a.push(s[i]) =~= b);
        assert(b.drop_last() =~= a);
        assert(digits_val(b) == digits_val(a) * 10 + (s[i] as int - '0' as int));
        assert(digits_val(a) >= 0) by {
            lemma_digits_val_nonneg(a);
        }
        assert(digits_val(a) * 10 >= digits_val(a)) by (nonlinear_arith)
            requires digits_val(a) >= 0;
    } else {
        assert(s.subrange(0, i) =~= s);
    }
}

/// A digit string never denotes a negative number.
proof fn lemma_digits_val_nonneg(s: Seq<char>)
    requires
        all_digits(s),
    ensures
        digits_val(s) >= 0,
    decreases s.len(),
{
    if s.len() > 0 {
        assert(all_digits(s.drop_last()));
        lemma_digits_val_nonneg(s.drop_last());
        assert(digits_val(s.drop_last()) * 10 >= 0) by (nonlinear_arith)
            requires digits_val(s.drop_last()) >= 0;
    }
}

/// Parse a decimal digit string into a 64-bit number. Fails on an empty
/// string, a non-digit, or a value that does not fit.
pub fn parse_u64(s: &Vec<char>) -> (r: Option<u64>)
    ensures
        match r {
            Some(v) => s@.len() >= 1 && all_digits(s@) && v == digits_val(s@),
            None => s@.len() == 0 || !all_digits(s@) || digits_val(s@) > u64::MAX,
        },
{
    if s.len() == 0 {
        return None;
    }
    let mut acc: u64 = 0;
    let mut i: usize = 0;
    while i < s.len()
        invariant
            0 <= i <= s@.len(),
            all_digits(s@.subrange(0, i as int)),
            acc == digits_val(s@.subrange(0, i as int)),
        decreases s@.len() - i,
    {
        let c = s[i];
        if c < '0' || c > '9' {
            return None;
        }
        let d: u64 = c as u64 - 48;
        let ghost pre = s@.subrange(0, i as int);
        proof {
            assert(pre.push(s@[i as int]) =~= s@.subrange(0, i + 1));
            assert(s@.subrange(0, i + 1).drop_last() =~= pre);
        }
        if acc > (u64::MAX - d) / 10 {
            proof {
                assert(digits_val(s@.subrange(0, i + 1)) == acc * 10 + d);
                assert(acc * 10 + d > u64::MAX) by (nonlinear_arith)
                    requires acc > (u64::MAX - d) / 10 && d <= 9;
                if all_digits(s@) {
                    lemma_digits_val_mono(s@, i + 1);
                    assert(digits_val(s@.subrange(0, i + 1)) <= digits_val(s@));
                }
            }
            return None;
        }
        proof {
            assert(acc * 10 + d <= u64::MAX) by (nonlinear_arith)
                requires acc <= (u64::MAX - d) / 10 && d <= 9;
        }
        acc = acc * 10 + d;
        i = i + 1;
    }
    proof {
        assert(s@.subrange(0, s@.len() as int) =~= s@);
    }
    Some(acc)
}

// ---------------------------------------------------------------------------
// Night-action replies
// ---------------------------------------------------------------------------

/// The unique extracted value for a key, when one exists.
pub open spec fn spec_extracted(t: Seq<char>, k: Seq<char>) -> Option<Seq<char>> {
    if exists|v: Seq<char>| spec_extract_some(t, k, v) {
        Some(choose|v: Seq<char>| spec_extract_some(t, k, v))
    } else {
        None
    }
}

/// The extraction relation is a partial function: at most one value fits.
pub proof fn lemma_extract_unique(t: Seq<char>, k: Seq<char>, v1: Seq<char>, v2: Seq<char>)
    requires
        spec_extract_some(t, k, v1),
        spec_extract_some(t, k, v2),
    ensures
        v1 == v2,
{
    let pat = spec_field_pat(k);
    let i1 = choose|i: int|
        #![auto]
        first_match_at(t, pat, i) && ({
            let start = i + pat.len();
            exists|e: int|
                #![auto]
                start <= e < t.len() && t[e] == '"' && (forall|j: int|
                    start <= j < e ==> t[j] != '"') && v1 == t.subrange(start, e)
        });
    let i2 = choose|i: int|
        #![auto]
        first_match_at(t, pat, i) && ({
            let start = i + pat.len();
            exists|e: int|
                #![auto]
                start <= e < t.len() && t[e] == '"' && (forall|j: int|
                    start <= j < e ==> t[j] != '"') && v2 == t.subrange(start, e)
        });
    assert(i1 == i2);
    let start = i1 + pat.len();
    let e1 = choose|e: int|
        #![auto]
        start <= e < t.len() && t[e] == '"' && (forall|j: int| start <= j < e ==> t[j] != '"')
            && v1 == t.subrange(start, e);
    let e2 = choose|e: int|
        #![auto]
        start <= e < t.len() && t[e] == '"' && (forall|j: int| start <= j < e ==> t[j] != '"')
            && v2 == t.subrange(start, e);
    assert(e1 == e2);
}

/// A failed extraction rules out every successful one.
pub proof fn lemma_extract_exclusive(t: Seq<char>, k: Seq<char>)
    requires
        spec_extract_none(t, k),
    ensures
        spec_extracted(t, k) is None,
{
    let pat = spec_field_pat(k);
    if exists|v: Seq<char>| spec_extract_some(t, k, v) {
        let v = choose|v: Seq<char>| spec_extract_some(t, k, v);
        let i = choose|i: int|
            #![auto]
            first_match_at(t, pat, i) && ({
                let start = i + pat.len();
                exists|e: int|
                    #![auto]
                    start <= e < t.len() && t[e] == '"' && (forall|j: int|
                        start <= j < e ==> t[j] != '"') && v == t.subrange(start, e)
            });
        assert(contains_seq(t, pat)) by {
            assert(match_at(t, pat, i));
        }
        let i2 = choose|i2: int|
            #![auto]
            first_match_at(t, pat, i2) && (forall|j: int|
                i2 + pat.len() <= j < t.len() ==> t[j] != '"');
        assert(i == i2);
        let e = choose|e: int|
            #![auto]
            i + pat.len() <= e < t.len() && t[e] == '"' && (forall|j: int|
                i + pat.len() <= j < e ==> t[j] != '"') && v == t.subrange(i + pat.len(), e);
        assert(t[e] != '"');
    }
}

/// The action named by an extracted action string.
pub open spec fn spec_action_kind(v: Seq<char>) -> Option<NightActionType> {
    if v == seq!['k', 'i', 'l', 'l'] {
        Some(NightActionType::Kill)
    } else if v == seq!['c', 'h', 'e', 'c', 'k'] {
        Some(NightActionType::Check)
    } else if v == seq!['h', 'e', 'a', 'l'] {
        Some(NightActionType::Heal)
    } else if v == seq!['p', 'r', 'o', 't', 'e', 'c', 't'] {
        Some(NightActionType::Protect)
    } else if v == seq!['p', 'o', 'i', 's', 'o', 'n'] {
        Some(NightActionType::Poison)
    } else {
        None
    }
}

/// What parsing a whole reply yields for a given player: the action field
/// names the action, the optional target field names the target.
pub open spec fn spec_parse_night_action(player_id: u64, t: Seq<char>) -> Option<NightAction> {
    match spec_extracted(t, seq!['a', 'c', 't', 'i', 'o', 'n']) {
        None => None,
        Some(av) => match spec_action_kind(av) {
            None => None,
            Some(kind) => {
                let target = match spec_extracted(t, seq!['t', 'a', 'r', 'g', 'e', 't']) {
                    None => None,
                    Some(tv) => if tv.len() >= 1 && all_digits(tv) && digits_val(tv) <= u64::MAX {
                        Some(digits_val(tv) as u64)
                    } else {
                        None
                    },
                };
                Some(NightAction { player: player_id, action: kind, target })
            },
        },
    }
}

/// Parse a text-generation reply into a night action for the player,
/// best effort; an absent or unknown action yields nothing.
pub fn parse_night_action_response(player_id: u64, response: &Vec<char>) -> (r: Option<
    NightAction,
>)
    ensures
        ({
            let akey = seq!['a', 'c', 't', 'i', 'o', 'n'];
            (spec_extracted(response@, akey) is None && r is None) || r == spec_parse_night_action(
                player_id,
                response@,
            )
        }),
{
    let action_key: Vec<char> = vec!['a', 'c', 't', 'i', 'o', 'n'];
    let target_key: Vec<char> = vec!['t', 'a', 'r', 'g', 'e', 't'];
    let av = match extract_string_field(response, &action_key) {
        None => {
            proof {
                lemma_extract_exclusive(response@, action_key@);
            }
            return None;
        },
        Some(v) => v,
    };
    proof {
        let specv = spec_extracted(response@, action_key@);
        assert(specv is Some);
        lemma_extract_unique(response@, action_key@, av@, specv->0);
    }
    let kill: Vec<char> = vec!['k', 'i', 'l', 'l'];
    let check: Vec<char> = vec!['c', 'h', 'e', 'c', 'k'];
    let heal: Vec<char> = vec!['h', 'e', 'a', 'l'];
    let protect: Vec<char> = vec!['p', 'r', 'o', 't', 'e', 'c', 't'];
    let poison: Vec<char> = vec!['p', 'o', 'i', 's', 'o', 'n'];
    let kind = if chars_eq(&av, &kill) {
        NightActionType::Kill
    } else if chars_eq(&av, &check) {
        NightActionType::Check
    } else if chars_eq(&av, &heal) {
        NightActionType::Heal
    } else if chars_eq(&av, &protect) {
        NightActionType::Protect
    } else if chars_eq(&av, &poison) {
        NightActionType::Poison
    } else {
        return None;
    };
    let target: Option<u64> = match extract_string_field(response, &target_key) {
        None => {
            proof {
                lemma_extract_exclusive(response@, target_key@);
            }
            None
        },
        Some(tv) => {
            proof {
                let specv = spec_extracted(response@, target_key@);
                assert(specv is Some);
                lemma_extract_unique(response@, target_key@, tv@, specv->0);
            }
            parse_u64(&tv)
        },
    };
    Some(NightAction { player: player_id, action: kind, target })
}

} // verus!
