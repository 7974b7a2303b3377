//! ProfileBuilder: turning questionnaire answers into a normalized
//! emotional profile.
//!
//! Accumulated weights are kept exactly: the profile stores each emotion's
//! accumulated intensity (in thousandths) together with their sum, so the
//! normalized weight of an emotion is the exact rational
//! `weight / weight_total`. Normalized weights therefore sum to exactly one
//! whenever any answer contributed an emotion, and the map is empty
//! otherwise.

use vstd::prelude::*;
use crate::catalog::DurationRange;
use crate::error::AppError;
use crate::questionnaire::QuestionOption;
use crate::questionnaire::QuestionOptionValue;
use crate::questionnaire::QuestionnaireQuestion;
use crate::questionnaire::wf_questionnaire;
use crate::questionnaire::wf_value;

verus! {

/// An emotion-weight accumulator entry: the emotion and its accumulated
/// intensity in thousandths.
pub type WeightEntry = (String, u64);

/// The sum of the accumulated weights.
pub open spec fn sum_weights(s: Seq<WeightEntry>) -> int
    decreases s.len(),
{
    if s.len() == 0 {
        0
    } else {
        sum_weights(s.drop_last()) + s.last().1
    }
}

/// No two entries name the same emotion.
pub open spec fn unique_emotions(s: Seq<WeightEntry>) -> bool {
    forall|i: int, j: int| 0 <= i < j < s.len() ==> (#[trigger] s[i]).0@ != (#[trigger] s[j]).0@
}

/// Every entry carries a positive weight.
pub open spec fn positive_weights(s: Seq<WeightEntry>) -> bool {
    forall|i: int| 0 <= i < s.len() ==> (#[trigger] s[i]).1 > 0
}

/// Adding one contribution: the first entry with the same emotion grows by
/// `w`, or a new entry is appended.
pub open spec fn upsert_from(s: Seq<WeightEntry>, p: (String, u32), k: int) -> Seq<WeightEntry>
    decreases s.len() - k,
{
    if !(0 <= k < s.len()) {
        s.push((p.0, p.1 as u64))
    } else if s[k].0@ == p.0@ {
        s.update(k, (s[k].0, (s[k].1 + p.1) as u64))
    } else {
        upsert_from(s, p, k + 1)
    }
}

/// Adding one contribution to the accumulator.
pub open spec fn upsert_weight(s: Seq<WeightEntry>, p: (String, u32)) -> Seq<WeightEntry> {
    upsert_from(s, p, 0)
}

proof fn lemma_sum_update(s: Seq<WeightEntry>, k: int, v: WeightEntry)
    requires
        0 <= k < s.len(),
    ensures
        sum_weights(s.update(k, v)) == sum_weights(s) - s[k].1 + v.1,
    decreases s.len(),
{
    if k == s.len() - 1 {
        assert(s.update(k, v).drop_last() =~= s.drop_last());
    } else {
        assert(s.update(k, v).drop_last() =~= s.drop_last().update(k, v));
        lemma_sum_update(s.drop_last(), k, v);
    }
}

proof fn lemma_sum_push(s: Seq<WeightEntry>, v: WeightEntry)
    ensures
        sum_weights(s.push(v)) == sum_weights(s) + v.1,
{
    assert(s.push(v).drop_last() =~= s);
}

/// The properties one upsert preserves and establishes, provided the new sum
/// still fits a `u64`.
pub proof fn lemma_upsert_props(s: Seq<WeightEntry>, p: (String, u32), k: int)
    requires
        0 <= k <= s.len(),
        p.1 > 0,
        sum_weights(s) + p.1 <= u64::MAX,
        positive_weights(s),
        forall|i: int| 0 <= i < s.len() ==> #[trigger] s[i].1 <= sum_weights(s),
        forall|j: int| 0 <= j < k ==> (#[trigger] s[j]).0@ != p.0@,
    ensures
        sum_weights(upsert_from(s, p, k)) == sum_weights(s) + p.1,
        positive_weights(upsert_from(s, p, k)),
        upsert_from(s, p, k).len() >= 1,
        unique_emotions(s) ==> unique_emotions(upsert_from(s, p, k)),
        forall|i: int|
            0 <= i < upsert_from(s, p, k).len() ==> #[trigger] upsert_from(s, p, k)[i].1
                <= sum_weights(s) + p.1,
    decreases s.len() - k,
{
    if !(0 <= k < s.len()) {
        lemma_sum_push(s, (p.0, p.1 as u64));
    } else if s[k].0@ == p.0@ {
        lemma_sum_update(s, k, (s[k].0, (s[k].1 + p.1) as u64));
    } else {
        lemma_upsert_props(s, p, k + 1);
    }
}

/// Add one emotion contribution to the accumulator: the entry with the same
/// emotion grows by `p.1`, or a new entry is appended, in insertion order.
pub fn upsert_entry(acc: &mut Vec<WeightEntry>, p: (String, u32))
    requires
        sum_weights(old(acc)@) + p.1 <= u64::MAX,
        forall|i: int| 0 <= i < old(acc)@.len() ==> #[trigger] old(acc)@[i].1 <= sum_weights(
            old(acc)@,
        ),
    ensures
        final(acc)@ == upsert_weight(old(acc)@, p),
{
    let ghost orig = acc@;
    let n = acc.len();
    let mut k: usize = 0;
    while k < n && !(acc[k].0 == p.0)
        invariant
            0 <= k <= n,
            n == acc@.len(),
            acc@ == orig,
            forall|j: int| 0 <= j < k ==> (#[trigger] acc@[j]).0@ != p.0@,
        decreases n - k,
    {
        k += 1;
    }
    proof {
        lemma_upsert_skip(orig, p, k as int);
    }
    if k < n {
        let entry = acc.remove(k);
        proof {
            lemma_sum_remove_bound(orig, k as int);
        }
        let grown: (String, u64) = (entry.0, entry.1 + p.1 as u64);
        acc.insert(k, grown);
        proof {
            assert(acc@ =~= upsert_from(orig, p, k as int));
        }
    } else {
        acc.push((p.0, p.1 as u64));
        proof {
            assert(acc@ =~= upsert_from(orig, p, k as int));
        }
    }
}

proof fn lemma_upsert_skip(s: Seq<WeightEntry>, p: (String, u32), k: int)
    requires
        0 <= k <= s.len(),
        forall|j: int| 0 <= j < k ==> (#[trigger] s[j]).0@ != p.0@,
    ensures
        upsert_weight(s, p) == upsert_from(s, p, k),
    decreases k,
{
    if k > 0 {
        lemma_upsert_skip_step(s, p, 0, k);
    }
}

proof fn lemma_upsert_skip_step(s: Seq<WeightEntry>, p: (String, u32), from: int, k: int)
    requires
        0 <= from <= k <= s.len(),
        forall|j: int| 0 <= j < k ==> (#[trigger] s[j]).0@ != p.0@,
    ensures
        upsert_from(s, p, from) == upsert_from(s, p, k),
    decreases k - from,
{
    if from < k {
        assert(upsert_from(s, p, from) == upsert_from(s, p, from + 1));
        lemma_upsert_skip_step(s, p, from + 1, k);
    }
}

proof fn lemma_sum_remove_bound(s: Seq<WeightEntry>, k: int)
    requires
        0 <= k < s.len(),
    ensures
        sum_weights(s.remove(k)) == sum_weights(s) - s[k].1,
    decreases s.len(),
{
    if k == s.len() - 1 {
        assert(s.remove(k) =~= s.drop_last());
    } else {
        assert(s.remove(k).drop_last() =~= s.drop_last().remove(k));
        lemma_sum_remove_bound(s.drop_last(), k);
        assert(s.remove(k).last() == s.last());
    }
}


/// The index of the first question with the given id, searching from `k`.
pub open spec fn find_question_from(qs: Seq<QuestionnaireQuestion>, qid: Seq<char>, k: int) -> Option<
    int,
>
    decreases qs.len() - k,
{
    if !(0 <= k < qs.len()) {
        None
    } else if qs[k].id@ == qid {
        Some(k)
    } else {
        find_question_from(qs, qid, k + 1)
    }
}

/// The index of the first question with the given id.
pub open spec fn find_question(qs: Seq<QuestionnaireQuestion>, qid: Seq<char>) -> Option<int> {
    find_question_from(qs, qid, 0)
}

/// The index of the first option with the given id, searching from `k`.
pub open spec fn find_option_from(os: Seq<QuestionOption>, oid: Seq<char>, k: int) -> Option<int>
    decreases os.len() - k,
{
    if !(0 <= k < os.len()) {
        None
    } else if os[k].id@ == oid {
        Some(k)
    } else {
        find_option_from(os, oid, k + 1)
    }
}

/// The index of the first option with the given id.
pub open spec fn find_option(os: Seq<QuestionOption>, oid: Seq<char>) -> Option<int> {
    find_option_from(os, oid, 0)
}

proof fn lemma_find_question_skip(qs: Seq<QuestionnaireQuestion>, qid: Seq<char>, k: int)
    requires
        0 <= k <= qs.len(),
        forall|j: int| 0 <= j < k ==> (#[trigger] qs[j]).id@ != qid,
    ensures
        find_question(qs, qid) == find_question_from(qs, qid, k),
    decreases k,
{
    if k > 0 {
        lemma_find_question_skip_step(qs, qid, 0, k);
    }
}

proof fn lemma_find_question_skip_step(
    qs: Seq<QuestionnaireQuestion>,
    qid: Seq<char>,
    from: int,
    k: int,
)
    requires
        0 <= from <= k <= qs.len(),
        forall|j: int| 0 <= j < k ==> (#[trigger] qs[j]).id@ != qid,
    ensures
        find_question_from(qs, qid, from) == find_question_from(qs, qid, k),
    decreases k - from,
{
    if from < k {
        lemma_find_question_skip_step(qs, qid, from + 1, k);
    }
}

proof fn lemma_find_option_skip(os: Seq<QuestionOption>, oid: Seq<char>, k: int)
    requires
        0 <= k <= os.len(),
        forall|j: int| 0 <= j < k ==> (#[trigger] os[j]).id@ != oid,
    ensures
        find_option(os, oid) == find_option_from(os, oid, k),
    decreases k,
{
    if k > 0 {
        lemma_find_option_skip_step(os, oid, 0, k);
    }
}

proof fn lemma_find_option_skip_step(os: Seq<QuestionOption>, oid: Seq<char>, from: int, k: int)
    requires
        0 <= from <= k <= os.len(),
        forall|j: int| 0 <= j < k ==> (#[trigger] os[j]).id@ != oid,
    ensures
        find_option_from(os, oid, from) == find_option_from(os, oid, k),
    decreases k - from,
{
    if from < k {
        lemma_find_option_skip_step(os, oid, from + 1, k);
    }
}

/// Find the first question with the given id.
fn find_question_exec<'a>(questions: &'a Vec<QuestionnaireQuestion>, qid: &String) -> (r: Option<
    usize,
>)
    ensures
        match r {
            Some(k) => 0 <= k < questions@.len() && find_question(questions@, qid@) == Some(
                k as int,
            ),
            None => find_question(questions@, qid@) is None,
        },
{
    let n = questions.len();
    let mut k: usize = 0;
    while k < n && !(questions[k].id == *qid)
        invariant
            0 <= k <= n,
            n == questions@.len(),
            forall|j: int| 0 <= j < k ==> (#[trigger] questions@[j]).id@ != qid@,
        decreases n - k,
    {
        k += 1;
    }
    proof {
        lemma_find_question_skip(questions@, qid@, k as int);
    }
    if k < n {
        Some(k)
    } else {
        None
    }
}

/// Find the first option with the given id.
fn find_option_exec<'a>(options: &'a Vec<QuestionOption>, oid: &String) -> (r: Option<usize>)
    ensures
        match r {
            Some(k) => 0 <= k < options@.len() && find_option(options@, oid@) == Some(k as int),
            None => find_option(options@, oid@) is None,
        },
{
    let n = options.len();
    let mut k: usize = 0;
    while k < n && !(options[k].id == *oid)
        invariant
            0 <= k <= n,
            n == options@.len(),
            forall|j: int| 0 <= j < k ==> (#[trigger] options@[j]).id@ != oid@,
        decreases n - k,
    {
        k += 1;
    }
    proof {
        lemma_find_option_skip(options@, oid@, k as int);
    }
    if k < n {
        Some(k)
    } else {
        None
    }
}

/// Folding the contributions `pairs[j..]` into the accumulator.
pub open spec fn apply_pairs_from(
    acc: Seq<WeightEntry>,
    pairs: Seq<(String, u32)>,
    j: int,
) -> Seq<WeightEntry>
    decreases pairs.len() - j,
{
    if !(0 <= j < pairs.len()) {
        acc
    } else {
        apply_pairs_from(upsert_weight(acc, pairs[j]), pairs, j + 1)
    }
}

/// The sum of the contributions `pairs[j..]`.
pub open spec fn sum_pairs_from(pairs: Seq<(String, u32)>, j: int) -> int
    decreases pairs.len() - j,
{
    if !(0 <= j < pairs.len()) {
        0
    } else {
        pairs[j].1 + sum_pairs_from(pairs, j + 1)
    }
}

/// What one answer contributes: the emotion mapping of the option it names,
/// or nothing when the question or option is unknown or carries no mapping.
pub open spec fn answer_step(
    acc: Seq<WeightEntry>,
    qs: Seq<QuestionnaireQuestion>,
    a: (String, String),
) -> Seq<WeightEntry> {
    match find_question(qs, a.0@) {
        Some(qi) => match find_option(qs[qi].options@, a.1@) {
            Some(oi) => match qs[qi].options@[oi].value {
                QuestionOptionValue::EmotionMapping(m) => apply_pairs_from(acc, m@, 0),
                QuestionOptionValue::TimeValue(_) => acc,
                QuestionOptionValue::StringValue(_) => acc,
            },
            None => acc,
        },
        None => acc,
    }
}

/// Folding the answers `answers[i..]` into the accumulator, in order.
pub open spec fn accumulate_from(
    acc: Seq<WeightEntry>,
    answers: Seq<(String, String)>,
    qs: Seq<QuestionnaireQuestion>,
    i: int,
) -> Seq<WeightEntry>
    decreases answers.len() - i,
{
    if !(0 <= i < answers.len()) {
        acc
    } else {
        accumulate_from(answer_step(acc, qs, answers[i]), answers, qs, i + 1)
    }
}

/// The accumulated emotion weights of an answer set: every answer's
/// contributions summed per emotion, first contribution order kept.
pub open spec fn spec_accumulated(
    answers: Seq<(String, String)>,
    qs: Seq<QuestionnaireQuestion>,
) -> Seq<WeightEntry> {
    accumulate_from(Seq::empty(), answers, qs, 0)
}

/// A well-formed accumulator: positive weights, unique emotions, and no
/// entry above the sum.
pub open spec fn wf_acc(s: Seq<WeightEntry>) -> bool {
    &&& positive_weights(s)
    &&& unique_emotions(s)
    &&& forall|i: int| 0 <= i < s.len() ==> #[trigger] s[i].1 <= sum_weights(s)
}

/// Contributions of a well-formed option: positive, at most one intensity
/// unit each, at most eight of them.
pub open spec fn wf_pairs(pairs: Seq<(String, u32)>) -> bool {
    &&& pairs.len() <= 8
    &&& forall|i: int| 0 <= i < pairs.len() ==> 0 < (#[trigger] pairs[i]).1 <= 1000
}

proof fn lemma_sum_pairs_bound(pairs: Seq<(String, u32)>, j: int)
    requires
        wf_pairs(pairs),
        0 <= j <= pairs.len(),
    ensures
        0 <= sum_pairs_from(pairs, j) <= 1000 * (pairs.len() - j),
    decreases pairs.len() - j,
{
    if j < pairs.len() {
        lemma_sum_pairs_bound(pairs, j + 1);
    }
}

proof fn lemma_apply_pairs_props(acc: Seq<WeightEntry>, pairs: Seq<(String, u32)>, j: int)
    requires
        wf_acc(acc),
        wf_pairs(pairs),
        0 <= j <= pairs.len(),
        sum_weights(acc) + sum_pairs_from(pairs, j) <= u64::MAX,
    ensures
        wf_acc(apply_pairs_from(acc, pairs, j)),
        sum_weights(apply_pairs_from(acc, pairs, j)) == sum_weights(acc) + sum_pairs_from(
            pairs,
            j,
        ),
        acc.len() > 0 ==> apply_pairs_from(acc, pairs, j).len() > 0,
    decreases pairs.len() - j,
{
    if j < pairs.len() {
        lemma_sum_pairs_bound(pairs, j + 1);
        lemma_upsert_props(acc, pairs[j], 0);
        lemma_apply_pairs_props(upsert_weight(acc, pairs[j]), pairs, j + 1);
    }
}

proof fn lemma_answer_step_props(
    acc: Seq<WeightEntry>,
    qs: Seq<QuestionnaireQuestion>,
    a: (String, String),
)
    requires
        wf_acc(acc),
        wf_questionnaire(qs),
        sum_weights(acc) + 8000 <= u64::MAX,
    ensures
        wf_acc(answer_step(acc, qs, a)),
        sum_weights(acc) <= sum_weights(answer_step(acc, qs, a)) <= sum_weights(acc) + 8000,
        acc.len() > 0 ==> answer_step(acc, qs, a).len() > 0,
{
    match find_question(qs, a.0@) {
        Some(qi) => {
            lemma_find_question_bounds(qs, a.0@, 0);
            match find_option(qs[qi].options@, a.1@) {
                Some(oi) => {
                    lemma_find_option_bounds(qs[qi].options@, a.1@, 0);
                    match qs[qi].options@[oi].value {
                        QuestionOptionValue::EmotionMapping(m) => {
                            assert(wf_value(qs[qi].options@[oi].value));
                            lemma_sum_pairs_bound(m@, 0);
                            lemma_apply_pairs_props(acc, m@, 0);
                        },
                        QuestionOptionValue::TimeValue(_) => {},
                        QuestionOptionValue::StringValue(_) => {},
                    }
                },
                None => {},
            }
        },
        None => {},
    }
}

proof fn lemma_find_question_bounds(qs: Seq<QuestionnaireQuestion>, qid: Seq<char>, k: int)
    requires
        0 <= k <= qs.len(),
    ensures
        match find_question_from(qs, qid, k) {
            Some(qi) => k <= qi < qs.len(),
            None => true,
        },
    decreases qs.len() - k,
{
    if k < qs.len() && qs[k].id@ != qid {
        lemma_find_question_bounds(qs, qid, k + 1);
    }
}

proof fn lemma_find_option_bounds(os: Seq<QuestionOption>, oid: Seq<char>, k: int)
    requires
        0 <= k <= os.len(),
    ensures
        match find_option_from(os, oid, k) {
            Some(oi) => k <= oi < os.len(),
            None => true,
        },
    decreases os.len() - k,
{
    if k < os.len() && os[k].id@ != oid {
        lemma_find_option_bounds(os, oid, k + 1);
    }
}

proof fn lemma_accumulate_props(
    acc: Seq<WeightEntry>,
    answers: Seq<(String, String)>,
    qs: Seq<QuestionnaireQuestion>,
    i: int,
)
    requires
        wf_acc(acc),
        wf_questionnaire(qs),
        0 <= i <= answers.len(),
        sum_weights(acc) + 8000 * (answers.len() - i) <= u64::MAX,
    ensures
        wf_acc(accumulate_from(acc, answers, qs, i)),
        sum_weights(accumulate_from(acc, answers, qs, i)) <= sum_weights(acc) + 8000 * (
        answers.len() - i),
        acc.len() > 0 ==> accumulate_from(acc, answers, qs, i).len() > 0,
    decreases answers.len() - i,
{
    if i < answers.len() {
        lemma_answer_step_props(acc, qs, answers[i]);
        lemma_accumulate_props(answer_step(acc, qs, answers[i]), answers, qs, i + 1);
    }
}

/// Accumulate the emotion contributions of every answer, in answer order:
/// an unknown question or option id contributes nothing here (validation
/// rejects it separately), and contributions to the same emotion add up.
pub fn calculate_emotional_profile(
    answers: &Vec<(String, String)>,
    questions: &Vec<QuestionnaireQuestion>,
) -> (r: Vec<WeightEntry>)
    requires
        wf_questionnaire(questions@),
        answers@.len() <= 100000,
    ensures
        r@ == spec_accumulated(answers@, questions@),
        wf_acc(r@),
        sum_weights(r@) <= 8000 * answers@.len(),
{
    let mut acc: Vec<WeightEntry> = Vec::new();
    let n = answers.len();
    let mut i: usize = 0;
    while i < n
        invariant
            0 <= i <= n,
            n == answers@.len(),
            n <= 100000,
            wf_questionnaire(questions@),
            accumulate_from(acc@, answers@, questions@, i as int) == spec_accumulated(
                answers@,
                questions@,
            ),
            wf_acc(acc@),
            sum_weights(acc@) <= 8000 * i,
        decreases n - i,
    {
        let qid = &answers[i].0;
        let oid = &answers[i].1;
        let ghost acc0 = acc@;
        match find_question_exec(questions, qid) {
            Some(qi) => {
                match find_option_exec(&questions[qi].options, oid) {
                    Some(oi) => {
                        match &questions[qi].options[oi].value {
                            QuestionOptionValue::EmotionMapping(m) => {
                                let ghost pairs = m@;
                                proof {
                                    assert(wf_value(questions@[qi as int].options@[oi as int].value));
                                    lemma_sum_pairs_bound(pairs, 0);
                                }
                                let mut j: usize = 0;
                                let pair_count = m.len();
                                while j < pair_count
                                    invariant
                                        0 <= j <= pair_count,
                                        pair_count == pairs.len(),
                                        m@ == pairs,
                                        wf_pairs(pairs),
                                        wf_acc(acc@),
                                        sum_weights(acc0) <= 8000 * i,
                                        i < 100000,
                                        sum_weights(acc@) <= sum_weights(acc0) + 1000 * j,
                                        apply_pairs_from(acc@, pairs, j as int)
                                            == apply_pairs_from(acc0, pairs, 0),
                                    decreases pair_count - j,
                                {
                                    let e = m[j].0.clone();
                                    let w = m[j].1;
                                    proof {
                                        assert(0 < w <= 1000);
                                        lemma_upsert_props(acc@, (e, w), 0);
                                        assert((e, w) == pairs[j as int]);
                                    }
                                    upsert_entry(&mut acc, (e, w));
                                    j += 1;
                                }
                                proof {
                                    assert(apply_pairs_from(acc@, pairs, pair_count as int)
                                        == acc@);
                                }
                            },
                            QuestionOptionValue::TimeValue(_) => {},
                            QuestionOptionValue::StringValue(_) => {},
                        }
                    },
                    None => {},
                }
            },
            None => {},
        }
        proof {
            assert(acc@ == answer_step(acc0, questions@, answers@[i as int]));
            lemma_answer_step_props(acc0, questions@, answers@[i as int]);
        }
        i += 1;
    }
    acc
}

/// The duration band one answer selects, if any.
pub open spec fn duration_step(
    current: DurationRange,
    qs: Seq<QuestionnaireQuestion>,
    a: (String, String),
) -> DurationRange {
    match find_question(qs, a.0@) {
        Some(qi) => match find_option(qs[qi].options@, a.1@) {
            Some(oi) => match qs[qi].options@[oi].value {
                QuestionOptionValue::TimeValue(band) => band,
                QuestionOptionValue::EmotionMapping(_) => current,
                QuestionOptionValue::StringValue(_) => current,
            },
            None => current,
        },
        None => current,
    }
}

/// Folding the duration choices of `answers[i..]`: the last one wins.
pub open spec fn duration_from(
    current: DurationRange,
    answers: Seq<(String, String)>,
    qs: Seq<QuestionnaireQuestion>,
    i: int,
) -> DurationRange
    decreases answers.len() - i,
{
    if !(0 <= i < answers.len()) {
        current
    } else {
        duration_from(duration_step(current, qs, answers[i]), answers, qs, i + 1)
    }
}

/// The duration band an answer set selects: the last duration answer wins,
/// and `Medio` stands when no answer selects one.
pub open spec fn spec_selected_duration(
    answers: Seq<(String, String)>,
    qs: Seq<QuestionnaireQuestion>,
) -> DurationRange {
    duration_from(DurationRange::Medio, answers, qs, 0)
}

/// The duration band the answers select, in answer order, last one winning.
pub fn selected_duration(
    answers: &Vec<(String, String)>,
    questions: &Vec<QuestionnaireQuestion>,
) -> (r: DurationRange)
    ensures
        r == spec_selected_duration(answers@, questions@),
{
    let mut current = DurationRange::Medio;
    let n = answers.len();
    let mut i: usize = 0;
    while i < n
        invariant
            0 <= i <= n,
            n == answers@.len(),
            duration_from(current, answers@, questions@, i as int) == spec_selected_duration(
                answers@,
                questions@,
            ),
        decreases n - i,
    {
        let qid = &answers[i].0;
        let oid = &answers[i].1;
        match find_question_exec(questions, qid) {
            Some(qi) => {
                match find_option_exec(&questions[qi].options, oid) {
                    Some(oi) => {
                        match &questions[qi].options[oi].value {
                            QuestionOptionValue::TimeValue(band) => {
                                current = *band;
                            },
                            QuestionOptionValue::EmotionMapping(_) => {},
                            QuestionOptionValue::StringValue(_) => {},
                        }
                    },
                    None => {},
                }
            },
            None => {},
        }
        i += 1;
    }
    current
}

/// The index of the highest-weighted entry; the first one wins a tie.
pub open spec fn first_max_index(s: Seq<WeightEntry>) -> int
    decreases s.len(),
{
    if s.len() <= 1 {
        0
    } else {
        let prev = first_max_index(s.drop_last());
        if s.last().1 > s[prev].1 {
            s.len() - 1
        } else {
            prev
        }
    }
}

/// The dominant emotion of a weighted profile: the highest-weighted emotion,
/// ties broken in favour of the first accumulated; the sentinel `neutral`
/// when the profile is empty.
pub open spec fn spec_dominant(s: Seq<WeightEntry>) -> Seq<char> {
    if s.len() == 0 {
        "neutral"@
    } else {
        s[first_max_index(s)].0@
    }
}

/// The dominant entry is a maximum, and the first entry reaching it: every
/// entry weighs at most as much, and every earlier entry strictly less.
pub proof fn lemma_dominant_is_first_max(s: Seq<WeightEntry>)
    requires
        s.len() > 0,
    ensures
        0 <= first_max_index(s) < s.len(),
        forall|j: int| 0 <= j < s.len() ==> (#[trigger] s[j]).1 <= s[first_max_index(s)].1,
        forall|j: int| 0 <= j < first_max_index(s) ==> (#[trigger] s[j]).1 < s[first_max_index(s)].1,
    decreases s.len(),
{
    if s.len() > 1 {
        let prev = first_max_index(s.drop_last());
        lemma_dominant_is_first_max(s.drop_last());
        assert forall|j: int| 0 <= j < s.len() implies (#[trigger] s[j]).1
            <= s[first_max_index(s)].1 by {
            if j < s.len() - 1 {
                assert(s.drop_last()[j] == s[j]);
            }
        }
        assert forall|j: int| 0 <= j < first_max_index(s) implies (#[trigger] s[j]).1
            < s[first_max_index(s)].1 by {
            if s.last().1 > s[prev].1 {
                assert(s.drop_last()[j] == s[j]);
                assert(s.drop_last()[j].1 <= s.drop_last()[prev].1);
            } else {
                assert(s.drop_last()[j] == s[j]);
            }
        }
    }
}

fn dominant_index(v: &Vec<WeightEntry>) -> (r: usize)
    requires
        v@.len() > 0,
    ensures
        r as int == first_max_index(v@),
{
    let n = v.len();
    let mut best: usize = 0;
    let mut i: usize = 1;
    while i < n
        invariant
            1 <= i <= n,
            n == v@.len(),
            0 <= best < i,
            best as int == first_max_index(v@.take(i as int)),
        decreases n - i,
    {
        proof {
            assert(v@.take(i + 1).drop_last() =~= v@.take(i as int));
            assert(v@.take(i + 1).last() == v@[i as int]);
        }
        if v[i].1 > v[best].1 {
            best = i;
        }
        i += 1;
    }
    proof {
        assert(v@.take(n as int) =~= v@);
    }
    best
}

/// The dominant emotion of the accumulated weights: argmax by weight, first
/// one on ties, `neutral` when empty.
pub fn dominant_emotion_of(v: &Vec<WeightEntry>) -> (r: String)
    ensures
        r@ == spec_dominant(v@),
{
    if v.len() == 0 {
        "neutral".to_owned()
    } else {
        proof {
            lemma_dominant_is_first_max(v@);
        }
        let k = dominant_index(v);
        v[k].0.clone()
    }
}

proof fn lemma_sum_take_bound(s: Seq<WeightEntry>, i: int)
    requires
        0 <= i <= s.len(),
    ensures
        sum_weights(s.take(i)) <= sum_weights(s),
        sum_weights(s) >= 0,
    decreases s.len() - i,
{
    if i < s.len() {
        assert(s.take(i + 1).drop_last() =~= s.take(i));
        lemma_sum_take_bound(s, i + 1);
    } else {
        assert(s.take(i) =~= s);
        lemma_sum_nonneg(s);
    }
}

proof fn lemma_sum_nonneg(s: Seq<WeightEntry>)
    ensures
        sum_weights(s) >= 0,
    decreases s.len(),
{
    if s.len() > 0 {
        lemma_sum_nonneg(s.drop_last());
    }
}

/// The sum of the accumulated weights: the normalization denominator.
pub fn total_weight(v: &Vec<WeightEntry>) -> (r: u64)
    requires
        sum_weights(v@) <= u64::MAX,
    ensures
        r == sum_weights(v@),
{
    let n = v.len();
    let mut total: u64 = 0;
    let mut i: usize = 0;
    while i < n
        invariant
            0 <= i <= n,
            n == v@.len(),
            sum_weights(v@) <= u64::MAX,
            total == sum_weights(v@.take(i as int)),
        decreases n - i,
    {
        proof {
            assert(v@.take(i + 1).drop_last() =~= v@.take(i as int));
            assert(v@.take(i + 1).last() == v@[i as int]);
            lemma_sum_take_bound(v@, i + 1);
        }
        total = total + v[i].1;
        i += 1;
    }
    proof {
        assert(v@.take(n as int) =~= v@);
    }
    total
}

/// Whether an answer names a known question and one of its options.
pub open spec fn answer_recognized(qs: Seq<QuestionnaireQuestion>, a: (String, String)) -> bool {
    match find_question(qs, a.0@) {
        Some(qi) => find_option(qs[qi].options@, a.1@) is Some,
        None => false,
    }
}

/// Whether the question at index `q` is answered by some answer.
pub open spec fn question_answered(
    qs: Seq<QuestionnaireQuestion>,
    answers: Seq<(String, String)>,
    q: int,
) -> bool {
    exists|a: int| 0 <= a < answers.len() && qs[q].id@ == (#[trigger] answers[a]).0@
}

/// A valid answer set: every question of the set is answered, no question
/// twice, and every answer names a known question and one of its options.
pub open spec fn spec_valid_answers(
    answers: Seq<(String, String)>,
    qs: Seq<QuestionnaireQuestion>,
) -> bool {
    &&& answers.len() <= qs.len()
    &&& (forall|i: int, j: int|
        0 <= i < j < answers.len() ==> (#[trigger] answers[i]).0@ != (#[trigger] answers[j]).0@)
    &&& (forall|i: int| 0 <= i < answers.len() ==> answer_recognized(qs, #[trigger] answers[i]))
    &&& (forall|qi: int| 0 <= qi < qs.len() ==> #[trigger] question_answered(qs, answers, qi))
}

/// Whether some earlier answer names the same question.
fn duplicate_before(answers: &Vec<(String, String)>, i: usize) -> (r: bool)
    requires
        i < answers@.len(),
    ensures
        r == exists|j: int| 0 <= j < i && (#[trigger] answers@[j]).0@ == answers@[i as int].0@,
{
    let mut j: usize = 0;
    while j < i
        invariant
            0 <= j <= i < answers@.len(),
            forall|b: int| 0 <= b < j ==> (#[trigger] answers@[b]).0@ != answers@[i as int].0@,
        decreases i - j,
    {
        if answers[j].0 == answers[i].0 {
            return true;
        }
        j += 1;
    }
    false
}

/// Whether some answer names the given question.
fn contains_answer_for(answers: &Vec<(String, String)>, qid: &String) -> (r: bool)
    ensures
        r == exists|b: int| 0 <= b < answers@.len() && qid@ == (#[trigger] answers@[b]).0@,
{
    let n = answers.len();
    let mut a: usize = 0;
    while a < n
        invariant
            0 <= a <= n,
            n == answers@.len(),
            forall|b: int| 0 <= b < a ==> qid@ != (#[trigger] answers@[b]).0@,
        decreases n - a,
    {
        if answers[a].0 == *qid {
            return true;
        }
        a += 1;
    }
    false
}

/// Check an answer set against the questionnaire: every required question
/// answered exactly once, every answer naming a question and one of its
/// options. A violation is a `ValidationError`.
pub fn validate_answers(
    answers: &Vec<(String, String)>,
    questions: &Vec<QuestionnaireQuestion>,
) -> (r: Result<(), AppError>)
    ensures
        r is Ok <==> spec_valid_answers(answers@, questions@),
        r is Err ==> r->Err_0 is ValidationError,
{
    let n = answers.len();
    if n > questions.len() {
        return Err(
            AppError::ValidationError(
                "hay más respuestas que preguntas en el cuestionario".to_owned(),
            ),
        );
    }
    let mut i: usize = 0;
    while i < n
        invariant
            0 <= i <= n,
            n == answers@.len(),
            n <= questions@.len(),
            forall|a: int, b: int|
                0 <= a < b < i ==> (#[trigger] answers@[a]).0@ != (#[trigger] answers@[b]).0@,
            forall|a: int| 0 <= a < i ==> answer_recognized(questions@, #[trigger] answers@[a]),
        decreases n - i,
    {
        if duplicate_before(answers, i) {
            return Err(
                AppError::ValidationError(
                    "una pregunta aparece dos veces en las respuestas".to_owned(),
                ),
            );
        }
        match find_question_exec(questions, &answers[i].0) {
            Some(qi) => {
                match find_option_exec(&questions[qi].options, &answers[i].1) {
                    Some(_) => {},
                    None => {
                        return Err(
                            AppError::ValidationError(
                                "la opción elegida no pertenece a su pregunta".to_owned(),
                            ),
                        );
                    },
                }
            },
            None => {
                return Err(
                    AppError::ValidationError(
                        "una respuesta nombra una pregunta desconocida".to_owned(),
                    ),
                );
            },
        }
        i += 1;
    }
    let qn = questions.len();
    let mut qi: usize = 0;
    while qi < qn
        invariant
            0 <= qi <= qn,
            qn == questions@.len(),
            n == answers@.len(),
            n <= qn,
            forall|a: int, b: int|
                0 <= a < b < n ==> (#[trigger] answers@[a]).0@ != (#[trigger] answers@[b]).0@,
            forall|a: int| 0 <= a < n ==> answer_recognized(questions@, #[trigger] answers@[a]),
            forall|q: int| 0 <= q < qi ==> #[trigger] question_answered(questions@, answers@, q),
        decreases qn - qi,
    {
        if !contains_answer_for(answers, &questions[qi].id) {
            proof {
                assert(!question_answered(questions@, answers@, qi as int));
            }
            return Err(
                AppError::ValidationError(
                    "falta responder una pregunta del cuestionario".to_owned(),
                ),
            );
        }
        proof {
            assert(question_answered(questions@, answers@, qi as int));
        }
        qi += 1;
    }
    Ok(())
}

/// A user's emotional profile: the accumulated emotion weights with their
/// sum, the dominant emotion, and the selected duration band. The
/// normalized weight of an emotion is the exact rational
/// `weight / weight_total`.
#[derive(Debug)]
pub struct EmotionalProfile {
    pub user_id: String,
    pub emotions: Vec<WeightEntry>,
    pub weight_total: u64,
    pub dominant_emotion: String,
    pub time_available: DurationRange,
}

/// A well-formed profile: a well-formed accumulator whose sum is the stored
/// denominator.
pub open spec fn wf_profile(p: &EmotionalProfile) -> bool {
    &&& wf_acc(p.emotions@)
    &&& sum_weights(p.emotions@) == p.weight_total
}

/// Normalized weights sum to exactly one, or the map is empty: a profile's
/// weights sum to its denominator, and the denominator is zero exactly when
/// no answer contributed an emotion.
pub proof fn lemma_normalized_weights_sum_to_one(p: &EmotionalProfile)
    requires
        wf_profile(p),
    ensures
        sum_weights(p.emotions@) == p.weight_total,
        p.emotions@.len() == 0 <==> p.weight_total == 0,
{
    if p.emotions@.len() > 0 {
        assert(p.emotions@[0].1 <= sum_weights(p.emotions@));
        assert(p.emotions@[0].1 > 0);
    }
}

/// Dominant-emotion selection is deterministic: two profiles built from the
/// same answers against the same questionnaire name the same dominant
/// emotion.
pub proof fn lemma_dominant_deterministic(
    p1: &EmotionalProfile,
    p2: &EmotionalProfile,
    answers: Seq<(String, String)>,
    qs: Seq<QuestionnaireQuestion>,
)
    requires
        p1.emotions@ == spec_accumulated(answers, qs),
        p2.emotions@ == spec_accumulated(answers, qs),
        p1.dominant_emotion@ == spec_dominant(p1.emotions@),
        p2.dominant_emotion@ == spec_dominant(p2.emotions@),
    ensures
        p1.dominant_emotion@ == p2.dominant_emotion@,
{
}

/// Build the emotional profile of an answer set: validate, accumulate every
/// emotion contribution, pick the dominant emotion (first maximum) and the
/// selected duration band. Fails with a `ValidationError` exactly when the
/// answers are not valid for the questionnaire.
pub fn build_emotional_profile(
    user_id: &str,
    answers: &Vec<(String, String)>,
    questions: &Vec<QuestionnaireQuestion>,
) -> (r: Result<EmotionalProfile, AppError>)
    requires
        wf_questionnaire(questions@),
    ensures
        r is Ok <==> spec_valid_answers(answers@, questions@),
        r is Err ==> r->Err_0 is ValidationError,
        r is Ok ==> ({
            let p = r->Ok_0;
            &&& p.user_id@ == user_id@
            &&& p.emotions@ == spec_accumulated(answers@, questions@)
            &&& p.weight_total == sum_weights(p.emotions@)
            &&& wf_profile(&p)
            &&& p.dominant_emotion@ == spec_dominant(p.emotions@)
            &&& p.time_available == spec_selected_duration(answers@, questions@)
        }),
{
    match validate_answers(answers, questions) {
        Ok(_) => {},
        Err(e) => {
            return Err(e);
        },
    }
    let emotions = calculate_emotional_profile(answers, questions);
    let weight_total = total_weight(&emotions);
    let dominant_emotion = dominant_emotion_of(&emotions);
    let time_available = selected_duration(answers, questions);
    Ok(
        EmotionalProfile {
            user_id: user_id.to_owned(),
            emotions,
            weight_total,
            dominant_emotion,
            time_available,
        },
    )
}

} // verus!
