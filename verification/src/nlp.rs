//! The natural-language layer around the game: deterministic lexical
//! classification of speech into intent, emotion, credibility, key
//! information and mentioned players; canned fallback lines; and the
//! post-processing of generated speech. The external text-generation
//! service itself lives outside the library; only its deterministic
//! surroundings are here.
use vstd::prelude::*;
use crate::clock::now_millis;
use crate::error::{AppError, AppResult};
use crate::roles::RoleType;
use crate::types::{GamePhase, GameState, Player, SpeechIntent, SpeechType};
use crate::score::clamped;
use crate::speech::{
    contains_seq, contains_sub, kw_vote, kw_vote_vec, kw_suspect, kw_suspect_vec, kw_not_me,
    kw_not_me_vec, kw_checked, kw_checked_vec, kw_furious, kw_furious_vec, kw_angry, kw_angry_vec,
    kw_nervous, kw_nervous_vec, kw_must, kw_must_vec, kw_surely, kw_surely_vec, kw_absolutely,
    kw_absolutely_vec, kw_why_suspect_me, kw_why_suspect_me_vec, kw_i_am, kw_i_am_vec,
};

verus! {

/// The emotion a line of speech shows.
#[derive(Debug, Clone, Copy, PartialEq, Eq, Structural)]
pub enum Emotion {
    Anger,
    Nervous,
    Confident,
    Calm,
}

/// A piece of key information a line of speech carries.
#[derive(Debug, Clone, Copy, PartialEq, Eq, Structural)]
pub enum KeyInfo {
    RoleClaim,
    CheckResult,
    VoteIntent,
}

/// One remembered line of speech.
#[derive(Debug, Clone)]
pub struct SpeechRecord {
    pub speaker: u64,
    pub content: Vec<char>,
    pub timestamp: i64,
    pub phase: GamePhase,
    pub day: u32,
}

/// The full classification of one line of speech.
#[derive(Debug, Clone)]
pub struct SpeechAnalysis {
    pub intent: SpeechIntent,
    pub emotion: Emotion,
    pub credibility: u32,
    pub key_information: Vec<KeyInfo>,
    pub targets_mentioned: Vec<u64>,
}

// ---------------------------------------------------------------------------
// The classification rules
// ---------------------------------------------------------------------------

/// Intent, classified by keyword priority: a vote intent outranks an
/// accusation, which outranks a defense, which outranks an information
/// claim; everything else is generic strategy talk.
pub open spec fn spec_intent_type(t: Seq<char>) -> SpeechType {
    if contains_seq(t, kw_vote()) {
        SpeechType::Vote
    } else if contains_seq(t, kw_suspect()) {
        SpeechType::Accusation
    } else if contains_seq(t, kw_not_me()) {
        SpeechType::Defense
    } else if contains_seq(t, kw_checked()) {
        SpeechType::Information
    } else {
        SpeechType::Strategy
    }
}

/// Emotion, classified by keyword buckets, first match wins.
pub open spec fn spec_emotion(t: Seq<char>) -> Emotion {
    if contains_seq(t, kw_furious()) || contains_seq(t, kw_angry()) {
        Emotion::Anger
    } else if contains_seq(t, kw_nervous()) || contains_seq(t, kw_not_me()) {
        Emotion::Nervous
    } else if contains_seq(t, kw_must()) || contains_seq(t, kw_surely()) {
        Emotion::Confident
    } else {
        Emotion::Calm
    }
}

/// Credibility: a baseline of 700, penalized for absolutist language, for
/// defensive "why suspect me" phrasing, and for excessive length.
pub open spec fn spec_credibility(t: Seq<char>) -> int {
    clamped(
        700 - (if contains_seq(t, kw_absolutely()) || contains_seq(t, kw_must()) {
            100int
        } else {
            0int
        }) - (if contains_seq(t, kw_why_suspect_me()) {
            200int
        } else {
            0int
        }) - (if t.len() > 200 {
            100int
        } else {
            0int
        }),
    )
}

/// The key information a line carries, in a fixed order.
pub open spec fn spec_key_info(t: Seq<char>) -> Seq<KeyInfo> {
    (if contains_seq(t, kw_i_am()) {
        seq![KeyInfo::RoleClaim]
    } else {
        Seq::<KeyInfo>::empty()
    }) + (if contains_seq(t, kw_checked()) {
        seq![KeyInfo::CheckResult]
    } else {
        Seq::<KeyInfo>::empty()
    }) + (if contains_seq(t, kw_vote()) {
        seq![KeyInfo::VoteIntent]
    } else {
        Seq::<KeyInfo>::empty()
    })
}

/// The ids of the players whose names occur in the text, in roster order.
pub open spec fn spec_targets(t: Seq<char>, players: Seq<Player>) -> Seq<u64> {
    players.filter(|p: Player| contains_seq(t, p.name@)).map_values(|p: Player| p.id)
}

/// The canned fallback line for a role on a given day: a small fixed pool
/// per role, indexed deterministically by the day.
pub open spec fn spec_fallback_line(rt: RoleType, day: u32) -> Seq<char> {
    let i = day % 3;
    match rt {
        RoleType::Werewolf => if i == 0 {
            fb_w0()
        } else if i == 1 {
            fb_w1()
        } else {
            fb_w2()
        },
        RoleType::Seer => if i == 0 {
            fb_s0()
        } else if i == 1 {
            fb_s1()
        } else {
            fb_s2()
        },
        _ => if i == 0 {
            fb_d0()
        } else if i == 1 {
            fb_d1()
        } else {
            fb_d2()
        },
    }
}

/// `tr` is `t` with its leading and trailing spaces removed.
pub open spec fn trim_rel(t: Seq<char>, tr: Seq<char>) -> bool {
    if exists|i: int| 0 <= i < t.len() && t[i] != ' ' {
        exists|a: int, b: int|
            #![trigger t.subrange(a, b + 1)]
            0 <= a <= b < t.len() && t[a] != ' ' && t[b] != ' ' && (forall|i: int|
                0 <= i < a ==> t[i] == ' ') && (forall|i: int| b < i < t.len() ==> t[i] == ' ')
                && tr == t.subrange(a, b + 1)
    } else {
        tr == Seq::<char>::empty()
    }
}

// ---------------------------------------------------------------------------
// Exec text helpers
// ---------------------------------------------------------------------------

/// Copy a range of a character vector.
pub fn copy_range(v: &Vec<char>, a: usize, b: usize) -> (r: Vec<char>)
    requires
        a <= b <= v@.len(),
    ensures
        r@ == v@.subrange(a as int, b as int),
{
    let mut r: Vec<char> = Vec::new();
    let mut i: usize = a;
    while i < b
        invariant
            a <= i <= b <= v@.len(),
            r@ == v@.subrange(a as int, i as int),
        decreases b - i,
    {
        r.push(v[i]);
        proof {
            assert(r@ =~= v@.subrange(a as int, i + 1));
        }
        i = i + 1;
    }
    r
}

/// Copy a whole character vector.
pub fn copy_chars(v: &Vec<char>) -> (r: Vec<char>)
    ensures
        r@ == v@,
{
    let r = copy_range(v, 0, v.len());
    proof {
        assert(v@.subrange(0, v@.len() as int) =~= v@);
    }
    r
}

// ---------------------------------------------------------------------------
// The processor
// ---------------------------------------------------------------------------

/// The speech processor of one agent: classification plus a bounded
/// memory of recent speech.
pub struct NLPProcessor {
    pub context_memory: Vec<SpeechRecord>,
}

impl NLPProcessor {
    /// A fresh processor with empty memory.
    pub fn new() -> (r: NLPProcessor)
        ensures
            r.context_memory@.len() == 0,
    {
        NLPProcessor { context_memory: Vec::new() }
    }

    /// Classify the intent of a line of speech.
    pub fn analyze_intent(&self, content: &Vec<char>) -> (r: SpeechIntent)
        ensures
            r.intent_type == spec_intent_type(content@),
            r.target is None,
            r.confidence == 700,
            r.content@ == content@,
    {
        let intent_type = if contains_sub(content, &kw_vote_vec()) {
            SpeechType::Vote
        } else if contains_sub(content, &kw_suspect_vec()) {
            SpeechType::Accusation
        } else if contains_sub(content, &kw_not_me_vec()) {
            SpeechType::Defense
        } else if contains_sub(content, &kw_checked_vec()) {
            SpeechType::Information
        } else {
            SpeechType::Strategy
        };
        SpeechIntent { intent_type, target: None, content: copy_chars(content), confidence: 700 }
    }

    /// Classify the emotion of a line of speech.
    pub fn analyze_emotion(&self, content: &Vec<char>) -> (r: Emotion)
        ensures
            r == spec_emotion(content@),
    {
        if contains_sub(content, &kw_furious_vec()) || contains_sub(content, &kw_angry_vec()) {
            Emotion::Anger
        } else if contains_sub(content, &kw_nervous_vec()) || contains_sub(
            content,
            &kw_not_me_vec(),
        ) {
            Emotion::Nervous
        } else if contains_sub(content, &kw_must_vec()) || contains_sub(
            content,
            &kw_surely_vec(),
        ) {
            Emotion::Confident
        } else {
            Emotion::Calm
        }
    }

    /// Score the credibility of a line of speech.
    pub fn calculate_credibility(&self, content: &Vec<char>) -> (r: u32)
        ensures
            r == spec_credibility(content@),
            crate::score::valid_score(r),
    {
        let mut score: u32 = 700;
        if contains_sub(content, &kw_absolutely_vec()) || contains_sub(content, &kw_must_vec()) {
            score = score - 100;
        }
        if contains_sub(content, &kw_why_suspect_me_vec()) {
            score = score - 200;
        }
        if content.len() > 200 {
            if score >= 100 {
                score = score - 100;
            } else {
                score = 0;
            }
        }
        score
    }

    /// Extract the key information a line carries.
    pub fn extract_key_info(&self, content: &Vec<char>) -> (r: Vec<KeyInfo>)
        ensures
            r@ == spec_key_info(content@),
    {
        let mut info: Vec<KeyInfo> = Vec::new();
        if contains_sub(content, &kw_i_am_vec()) {
            info.push(KeyInfo::RoleClaim);
        }
        if contains_sub(content, &kw_checked_vec()) {
            info.push(KeyInfo::CheckResult);
        }
        if contains_sub(content, &kw_vote_vec()) {
            info.push(KeyInfo::VoteIntent);
        }
        proof {
            assert(info@ =~= spec_key_info(content@));
        }
        info
    }

    /// Collect the players whose names occur in the text.
    pub fn extract_targets(&self, content: &Vec<char>, game_state: &GameState) -> (r: Vec<u64>)
        ensures
            r@ == spec_targets(content@, game_state.players@),
    {
        let ghost pred = |p: Player| contains_seq(content@, p.name@);
        let ghost f = |p: Player| p.id;
        let players = &game_state.players;
        let mut r: Vec<u64> = Vec::new();
        let mut i: usize = 0;
        while i < players.len()
            invariant
                0 <= i <= players@.len(),
                players@ == game_state.players@,
                pred == (|p: Player| contains_seq(content@, p.name@)),
                f == (|p: Player| p.id),
                r@ == players@.subrange(0, i as int).filter(pred).map_values(f),
            decreases players@.len() - i,
        {
            let ghost pre = players@.subrange(0, i as int);
            proof {
                assert(players@.subrange(0, i + 1) =~= pre.push(players@[i as int]));
                pre.lemma_filter_push(players@[i as int], pred);
                if pred(players@[i as int]) {
                    assert(pre.filter(pred).push(players@[i as int]).map_values(f) =~= pre.filter(
                        pred,
                    ).map_values(f).push(f(players@[i as int])));
                }
            }
            if contains_sub(content, &players[i].name) {
                r.push(players[i].id);
            }
            i = i + 1;
        }
        proof {
            assert(players@.subrange(0, players@.len() as int) =~= players@);
        }
        r
    }

    /// Remember one line of speech, keeping only the most recent fifty.
    pub fn record_speech(&mut self, speaker: u64, content: Vec<char>, phase: GamePhase, day: u32)
        ensures
            exists|rec: SpeechRecord|
                #![auto]
                rec.speaker == speaker && rec.content == content && rec.phase == phase && rec.day
                    == day && if old(self).context_memory@.len() < 50 {
                    final(self).context_memory@ == old(self).context_memory@.push(rec)
                } else {
                    final(self).context_memory@ == old(self).context_memory@.push(rec).remove(0)
                },
    {
        let ts = now_millis();
        let record = SpeechRecord { speaker, content, timestamp: ts, phase, day };
        self.context_memory.push(record);
        if self.context_memory.len() > 50 {
            let _ = self.context_memory.remove(0);
        }
    }

    /// Classify a line of speech in full, remembering it on the way.
    pub fn analyze_speech(
        &mut self,
        speaker_id: u64,
        content: Vec<char>,
        game_state: &GameState,
    ) -> (r: AppResult<SpeechAnalysis>)
        ensures
            r is Ok,
            ({
                let a = r->Ok_0;
                &&& a.intent.intent_type == spec_intent_type(content@)
                &&& a.intent.content@ == content@
                &&& a.emotion == spec_emotion(content@)
                &&& a.credibility == spec_credibility(content@)
                &&& a.key_information@ == spec_key_info(content@)
                &&& a.targets_mentioned@ == spec_targets(content@, game_state.players@)
            }),
            exists|rec: SpeechRecord|
                #![auto]
                rec.speaker == speaker_id && rec.content@ == content@ && rec.phase
                    == game_state.phase && rec.day == game_state.day && if old(
                    self,
                ).context_memory@.len() < 50 {
                    final(self).context_memory@ == old(self).context_memory@.push(rec)
                } else {
                    final(self).context_memory@ == old(self).context_memory@.push(rec).remove(0)
                },
    {
        let stored = copy_chars(&content);
        self.record_speech(speaker_id, stored, game_state.phase, game_state.day);
        let intent = self.analyze_intent(&content);
        let emotion = self.analyze_emotion(&content);
        let credibility = self.calculate_credibility(&content);
        let key_information = self.extract_key_info(&content);
        let targets_mentioned = self.extract_targets(&content, game_state);
        Ok(SpeechAnalysis { intent, emotion, credibility, key_information, targets_mentioned })
    }

    /// The canned fallback line for a player, chosen deterministically by
    /// day, for when the external text-generation service fails.
    pub fn generate_fallback_speech(&self, player: &Player, game_state: &GameState) -> (r: Vec<
        char,
    >)
        ensures
            r@ == spec_fallback_line(player.role.role_type, game_state.day),
    {
        let i = game_state.day % 3;
        match player.role.role_type {
            RoleType::Werewolf => {
                if i == 0 {
                    fb_w0_vec()
                } else if i == 1 {
                    fb_w1_vec()
                } else {
                    fb_w2_vec()
                }
            },
            RoleType::Seer => {
                if i == 0 {
                    fb_s0_vec()
                } else if i == 1 {
                    fb_s1_vec()
                } else {
                    fb_s2_vec()
                }
            },
            _ => {
                if i == 0 {
                    fb_d0_vec()
                } else if i == 1 {
                    fb_d1_vec()
                } else {
                    fb_d2_vec()
                }
            },
        }
    }

    /// Post-process a generated line: trim surrounding spaces, cut
    /// overlong speech to 197 characters plus an ellipsis, and replace
    /// lines that are too short with a canned stall.
    pub fn post_process_speech(&self, speech: &Vec<char>) -> (r: Vec<char>)
        ensures
            exists|tr: Seq<char>|
                #![auto]
                trim_rel(speech@, tr) && if tr.len() > 200 {
                    r@ == tr.subrange(0, 197) + seq!['.', '.', '.']
                } else if tr.len() < 10 {
                    r@ == fb_think()
                } else {
                    r@ == tr
                },
    {
        let trimmed = trim_spaces(speech);
        let ghost tr = trimmed@;
        if trimmed.len() > 200 {
            let mut cut = copy_range(&trimmed, 0, 197);
            cut.push('.');
            cut.push('.');
            cut.push('.');
            proof {
                assert(cut@ =~= tr.subrange(0, 197) + seq!['.', '.', '.']);
            }
            cut
        } else if trimmed.len() < 10 {
            let r = fb_think_vec();
            proof {
                assert(trim_rel(speech@, tr) && r@ == fb_think());
            }
            r
        } else {
            trimmed
        }
    }
}

/// Remove the leading and trailing spaces of a line.
pub fn trim_spaces(speech: &Vec<char>) -> (r: Vec<char>)
    ensures
        trim_rel(speech@, r@),
{
    let n = speech.len();
    let mut a: usize = 0;
    while a < n && speech[a] == ' '
        invariant
            0 <= a <= n,
            n == speech@.len(),
            forall|i: int| 0 <= i < a ==> speech@[i] == ' ',
        decreases n - a,
    {
        a = a + 1;
    }
    let mut b: usize = n;
    while b > a && speech[b - 1] == ' '
        invariant
            a <= b <= n,
            n == speech@.len(),
            forall|i: int| 0 <= i < a ==> speech@[i] == ' ',
            forall|i: int| b <= i < n ==> speech@[i] == ' ',
        decreases b,
    {
        b = b - 1;
    }
    let trimmed = copy_range(speech, a, b);
    proof {
        if a == b {
            assert(forall|i: int| 0 <= i < speech@.len() ==> speech@[i] == ' ');
            assert(trimmed@ =~= Seq::<char>::empty());
            assert(trim_rel(speech@, trimmed@));
        } else {
            assert(speech@[a as int] != ' ');
            assert(speech@[b - 1] != ' ');
            assert(speech@.subrange(a as int, (b - 1) + 1) == trimmed@);
            assert(trim_rel(speech@, trimmed@));
        }
    }
    trimmed
}

/// The canned line "that speech felt a bit off to me".
pub open spec fn fb_w0() -> Seq<char> {
    seq!['t', 'h', 'a', 't', ' ', 's', 'p', 'e', 'e', 'c', 'h', ' ', 'f', 'e', 'l', 't', ' ', 'a', ' ', 'b', 'i', 't', ' ', 'o', 'f', 'f', ' ', 't', 'o', ' ', 'm', 'e']
}

/// The canned line "that speech felt a bit off to me".
pub fn fb_w0_vec() -> (r: Vec<char>)
    ensures
        r@ == fb_w0(),
{
    vec!['t', 'h', 'a', 't', ' ', 's', 'p', 'e', 'e', 'c', 'h', ' ', 'f', 'e', 'l', 't', ' ', 'a', ' ', 'b', 'i', 't', ' ', 'o', 'f', 'f', ' ', 't', 'o', ' ', 'm', 'e']
}

/// The canned line "we should study the votes closely".
pub open spec fn fb_w1() -> Seq<char> {
    seq!['w', 'e', ' ', 's', 'h', 'o', 'u', 'l', 'd', ' ', 's', 't', 'u', 'd', 'y', ' ', 't', 'h', 'e', ' ', 'v', 'o', 't', 'e', 's', ' ', 'c', 'l', 'o', 's', 'e', 'l', 'y']
}

/// The canned line "we should study the votes closely".
pub fn fb_w1_vec() -> (r: Vec<char>)
    ensures
        r@ == fb_w1(),
{
    vec!['w', 'e', ' ', 's', 'h', 'o', 'u', 'l', 'd', ' ', 's', 't', 'u', 'd', 'y', ' ', 't', 'h', 'e', ' ', 'v', 'o', 't', 'e', 's', ' ', 'c', 'l', 'o', 's', 'e', 'l', 'y']
}

/// The canned line "i lean toward trusting the calm ones".
pub open spec fn fb_w2() -> Seq<char> {
    seq!['i', ' ', 'l', 'e', 'a', 'n', ' ', 't', 'o', 'w', 'a', 'r', 'd', ' ', 't', 'r', 'u', 's', 't', 'i', 'n', 'g', ' ', 't', 'h', 'e', ' ', 'c', 'a', 'l', 'm', ' ', 'o', 'n', 'e', 's']
}

/// The canned line "i lean toward trusting the calm ones".
pub fn fb_w2_vec() -> (r: Vec<char>)
    ensures
        r@ == fb_w2(),
{
    vec!['i', ' ', 'l', 'e', 'a', 'n', ' ', 't', 'o', 'w', 'a', 'r', 'd', ' ', 't', 'r', 'u', 's', 't', 'i', 'n', 'g', ' ', 't', 'h', 'e', ' ', 'c', 'a', 'l', 'm', ' ', 'o', 'n', 'e', 's']
}

/// The canned line "i have information to share".
pub open spec fn fb_s0() -> Seq<char> {
    seq!['i', ' ', 'h', 'a', 'v', 'e', ' ', 'i', 'n', 'f', 'o', 'r', 'm', 'a', 't', 'i', 'o', 'n', ' ', 't', 'o', ' ', 's', 'h', 'a', 'r', 'e']
}

/// The canned line "i have information to share".
pub fn fb_s0_vec() -> (r: Vec<char>)
    ensures
        r@ == fb_s0(),
{
    vec!['i', ' ', 'h', 'a', 'v', 'e', ' ', 'i', 'n', 'f', 'o', 'r', 'm', 'a', 't', 'i', 'o', 'n', ' ', 't', 'o', ' ', 's', 'h', 'a', 'r', 'e']
}

/// The canned line "someone here is not honest".
pub open spec fn fb_s1() -> Seq<char> {
    seq!['s', 'o', 'm', 'e', 'o', 'n', 'e', ' ', 'h', 'e', 'r', 'e', ' ', 'i', 's', ' ', 'n', 'o', 't', ' ', 'h', 'o', 'n', 'e', 's', 't']
}

/// The canned line "someone here is not honest".
pub fn fb_s1_vec() -> (r: Vec<char>)
    ensures
        r@ == fb_s1(),
{
    vec!['s', 'o', 'm', 'e', 'o', 'n', 'e', ' ', 'h', 'e', 'r', 'e', ' ', 'i', 's', ' ', 'n', 'o', 't', ' ', 'h', 'o', 'n', 'e', 's', 't']
}

/// The canned line "trust what i have seen".
pub open spec fn fb_s2() -> Seq<char> {
    seq!['t', 'r', 'u', 's', 't', ' ', 'w', 'h', 'a', 't', ' ', 'i', ' ', 'h', 'a', 'v', 'e', ' ', 's', 'e', 'e', 'n']
}

/// The canned line "trust what i have seen".
pub fn fb_s2_vec() -> (r: Vec<char>)
    ensures
        r@ == fb_s2(),
{
    vec!['t', 'r', 'u', 's', 't', ' ', 'w', 'h', 'a', 't', ' ', 'i', ' ', 'h', 'a', 'v', 'e', ' ', 's', 'e', 'e', 'n']
}

/// The canned line "i will keep watching quietly".
pub open spec fn fb_d0() -> Seq<char> {
    seq!['i', ' ', 'w', 'i', 'l', 'l', ' ', 'k', 'e', 'e', 'p', ' ', 'w', 'a', 't', 'c', 'h', 'i', 'n', 'g', ' ', 'q', 'u', 'i', 'e', 't', 'l', 'y']
}

/// The canned line "i will keep watching quietly".
pub fn fb_d0_vec() -> (r: Vec<char>)
    ensures
        r@ == fb_d0(),
{
    vec!['i', ' ', 'w', 'i', 'l', 'l', ' ', 'k', 'e', 'e', 'p', ' ', 'w', 'a', 't', 'c', 'h', 'i', 'n', 'g', ' ', 'q', 'u', 'i', 'e', 't', 'l', 'y']
}

/// The canned line "the reasoning so far holds up".
pub open spec fn fb_d1() -> Seq<char> {
    seq!['t', 'h', 'e', ' ', 'r', 'e', 'a', 's', 'o', 'n', 'i', 'n', 'g', ' ', 's', 'o', ' ', 'f', 'a', 'r', ' ', 'h', 'o', 'l', 'd', 's', ' ', 'u', 'p']
}

/// The canned line "the reasoning so far holds up".
pub fn fb_d1_vec() -> (r: Vec<char>)
    ensures
        r@ == fb_d1(),
{
    vec!['t', 'h', 'e', ' ', 'r', 'e', 'a', 's', 'o', 'n', 'i', 'n', 'g', ' ', 's', 'o', ' ', 'f', 'a', 'r', ' ', 'h', 'o', 'l', 'd', 's', ' ', 'u', 'p']
}

/// The canned line "i keep my view for now".
pub open spec fn fb_d2() -> Seq<char> {
    seq!['i', ' ', 'k', 'e', 'e', 'p', ' ', 'm', 'y', ' ', 'v', 'i', 'e', 'w', ' ', 'f', 'o', 'r', ' ', 'n', 'o', 'w']
}

/// The canned line "i keep my view for now".
pub fn fb_d2_vec() -> (r: Vec<char>)
    ensures
        r@ == fb_d2(),
{
    vec!['i', ' ', 'k', 'e', 'e', 'p', ' ', 'm', 'y', ' ', 'v', 'i', 'e', 'w', ' ', 'f', 'o', 'r', ' ', 'n', 'o', 'w']
}

/// The canned line "let me think this over".
pub open spec fn fb_think() -> Seq<char> {
    seq!['l', 'e', 't', ' ', 'm', 'e', ' ', 't', 'h', 'i', 'n', 'k', ' ', 't', 'h', 'i', 's', ' ', 'o', 'v', 'e', 'r']
}

/// The canned line "let me think this over".
pub fn fb_think_vec() -> (r: Vec<char>)
    ensures
        r@ == fb_think(),
{
    vec!['l', 'e', 't', ' ', 'm', 'e', ' ', 't', 'h', 'i', 'n', 'k', ' ', 't', 'h', 'i', 's', ' ', 'o', 'v', 'e', 'r']
}

} // verus!
