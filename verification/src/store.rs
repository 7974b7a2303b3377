//! The engine's side of the graph datastore boundary: the write plan that
//! persists a profile, the reconstruction of a profile from stored rows, the
//! fallbacks when reference queries come back empty, and the startup
//! structure check. The I/O layer executes the plan statement by statement;
//! the whole sequence is not one transaction, so concurrent writers for the
//! same user can interleave.

use vstd::prelude::*;
use crate::catalog::Characteristic;
use crate::catalog::DurationRange;
use crate::catalog::Emotion;
use crate::catalog::default_characteristics_shape;
use crate::catalog::default_dealbreaker_names;
use crate::catalog::default_emotion_names;
use crate::catalog::default_emotions_shape;
use crate::catalog::get_available_characteristics;
use crate::catalog::get_available_emotions;
use crate::catalog::get_dealbreaker_characteristics;
use crate::catalog::spec_duration_from_db_name;
use crate::error::AppError;
use crate::profile::EmotionalProfile;
use crate::profile::WeightEntry;
use crate::profile::sum_weights;
use crate::profile::upsert_weight;
use crate::profile::wf_acc;
use crate::profile::wf_profile;

verus! {

/// One statement of a graph write plan. A weighted edge carries its weight
/// as the exact rational `weight_num / weight_den`.
#[derive(Debug)]
pub enum GraphWrite {
    EnsureUser { user_id: String },
    ClearEmotionalState { user_id: String },
    SetEmotionalState { user_id: String, emotion: String, weight_num: u64, weight_den: u64 },
    SetPreferredDuration { user_id: String, band: DurationRange },
    UpsertResonance { user_id: String, emotion: String, weight_num: u64, weight_den: u64 },
}

/// The index of the first profile entry naming the emotion, from `k` on.
pub open spec fn find_entry_from(s: Seq<WeightEntry>, e: Seq<char>, k: int) -> Option<int>
    decreases s.len() - k,
{
    if !(0 <= k < s.len()) {
        None
    } else if s[k].0@ == e {
        Some(k)
    } else {
        find_entry_from(s, e, k + 1)
    }
}

/// The dominant emotion's exact weight as a rational, or one whole unit
/// when the profile is empty.
pub open spec fn spec_dominant_weight(p: &EmotionalProfile) -> (u64, u64) {
    match find_entry_from(p.emotions@, p.dominant_emotion@, 0) {
        Some(k) => (p.emotions@[k].1, p.weight_total),
        None => (1u64, 1u64),
    }
}

/// Whether an entry's normalized weight is significant: above one tenth.
pub open spec fn significant(entry: WeightEntry, total: u64) -> bool {
    10 * entry.1 > total
}

proof fn lemma_find_entry_skip(s: Seq<WeightEntry>, e: Seq<char>, from: int, k: int)
    requires
        0 <= from <= k <= s.len(),
        forall|j: int| 0 <= j < k ==> (#[trigger] s[j]).0@ != e,
    ensures
        find_entry_from(s, e, from) == find_entry_from(s, e, k),
    decreases k - from,
{
    if from < k {
        lemma_find_entry_skip(s, e, from + 1, k);
    }
}

fn find_entry(emotions: &Vec<WeightEntry>, e: &String) -> (r: Option<usize>)
    ensures
        match r {
            Some(k) => 0 <= k < emotions@.len() && find_entry_from(emotions@, e@, 0) == Some(
                k as int,
            ),
            None => find_entry_from(emotions@, e@, 0) is None,
        },
{
    let n = emotions.len();
    let mut k: usize = 0;
    while k < n && !(emotions[k].0 == *e)
        invariant
            0 <= k <= n,
            n == emotions@.len(),
            forall|j: int| 0 <= j < k ==> (#[trigger] emotions@[j]).0@ != e@,
        decreases n - k,
    {
        k += 1;
    }
    proof {
        lemma_find_entry_skip(emotions@, e@, 0, k as int);
    }
    if k < n {
        Some(k)
    } else {
        None
    }
}

/// The statements that persist a profile, in execution order: ensure the
/// user node, retire the previous emotional-state edge, set the new one to
/// the dominant emotion with its exact weight (one whole unit when the
/// profile is empty), record the preferred duration band, and upsert one
/// resonance edge per emotion whose normalized weight exceeds one tenth.
pub fn profile_save_plan(p: &EmotionalProfile) -> (r: Vec<GraphWrite>)
    requires
        wf_profile(p),
        p.weight_total <= 1000000000000,
    ensures
        r@.len() == 4 + p.emotions@.filter(
            |entry: WeightEntry| significant(entry, p.weight_total),
        ).len(),
        r@[0] == (GraphWrite::EnsureUser { user_id: p.user_id }),
        r@[1] == (GraphWrite::ClearEmotionalState { user_id: p.user_id }),
        r@[2] == (GraphWrite::SetEmotionalState {
            user_id: p.user_id,
            emotion: p.dominant_emotion,
            weight_num: spec_dominant_weight(p).0,
            weight_den: spec_dominant_weight(p).1,
        }),
        r@[3] == (GraphWrite::SetPreferredDuration { user_id: p.user_id, band: p.time_available }),
        forall|i: int|
            0 <= i < r@.len() - 4 ==> (#[trigger] r@[i + 4]) == (GraphWrite::UpsertResonance {
                user_id: p.user_id,
                emotion: p.emotions@.filter(
                    |entry: WeightEntry| significant(entry, p.weight_total),
                )[i].0,
                weight_num: p.emotions@.filter(
                    |entry: WeightEntry| significant(entry, p.weight_total),
                )[i].1,
                weight_den: p.weight_total,
            }),
{
    let ghost keep = |entry: WeightEntry| significant(entry, p.weight_total);
    let mut r: Vec<GraphWrite> = Vec::new();
    r.push(GraphWrite::EnsureUser { user_id: p.user_id.clone() });
    r.push(GraphWrite::ClearEmotionalState { user_id: p.user_id.clone() });
    let (num, den): (u64, u64) = match find_entry(&p.emotions, &p.dominant_emotion) {
        Some(k) => (p.emotions[k].1, p.weight_total),
        None => (1, 1),
    };
    r.push(
        GraphWrite::SetEmotionalState {
            user_id: p.user_id.clone(),
            emotion: p.dominant_emotion.clone(),
            weight_num: num,
            weight_den: den,
        },
    );
    r.push(
        GraphWrite::SetPreferredDuration { user_id: p.user_id.clone(), band: p.time_available },
    );
    let n = p.emotions.len();
    let mut i: usize = 0;
    while i < n
        invariant
            0 <= i <= n,
            n == p.emotions@.len(),
            wf_profile(p),
            p.weight_total <= 1000000000000,
            keep == (|entry: WeightEntry| significant(entry, p.weight_total)),
            r@.len() == 4 + p.emotions@.take(i as int).filter(keep).len(),
            r@[0] == (GraphWrite::EnsureUser { user_id: p.user_id }),
            r@[1] == (GraphWrite::ClearEmotionalState { user_id: p.user_id }),
            r@[2] == (GraphWrite::SetEmotionalState {
                user_id: p.user_id,
                emotion: p.dominant_emotion,
                weight_num: spec_dominant_weight(p).0,
                weight_den: spec_dominant_weight(p).1,
            }),
            r@[3] == (GraphWrite::SetPreferredDuration {
                user_id: p.user_id,
                band: p.time_available,
            }),
            forall|j: int|
                0 <= j < r@.len() - 4 ==> (#[trigger] r@[j + 4]) == (GraphWrite::UpsertResonance {
                    user_id: p.user_id,
                    emotion: p.emotions@.take(i as int).filter(keep)[j].0,
                    weight_num: p.emotions@.take(i as int).filter(keep)[j].1,
                    weight_den: p.weight_total,
                }),
        decreases n - i,
    {
        proof {
            reveal_with_fuel(Seq::<WeightEntry>::filter, 2);
            assert(p.emotions@.take(i + 1).drop_last() =~= p.emotions@.take(i as int));
            assert(p.emotions@.take(i + 1).last() == p.emotions@[i as int]);
            assert(p.emotions@[i as int].1 <= p.weight_total);
        }
        let entry_weight = p.emotions[i].1;
        if 10 * entry_weight > p.weight_total {
            r.push(
                GraphWrite::UpsertResonance {
                    user_id: p.user_id.clone(),
                    emotion: p.emotions[i].0.clone(),
                    weight_num: entry_weight,
                    weight_den: p.weight_total,
                },
            );
        }
        i += 1;
    }
    proof {
        assert(p.emotions@.take(n as int) =~= p.emotions@);
    }
    r
}

/// Clamp a stored intensity into at most one whole unit.
pub open spec fn clamp1000(v: u32) -> u32 {
    if v > 1000 {
        1000
    } else {
        v
    }
}

/// Folding stored resonance rows into a profile accumulator: a zero weight
/// contributes nothing, anything above one unit is clamped down to it, and
/// a repeated emotion accumulates.
pub open spec fn store_fold(
    acc: Seq<WeightEntry>,
    rows: Seq<(String, u32)>,
    j: int,
) -> Seq<WeightEntry>
    decreases rows.len() - j,
{
    if !(0 <= j < rows.len()) {
        acc
    } else {
        store_fold(
            if rows[j].1 == 0 {
                acc
            } else {
                upsert_weight(acc, (rows[j].0, clamp1000(rows[j].1)))
            },
            rows,
            j + 1,
        )
    }
}

proof fn lemma_store_fold_props(acc: Seq<WeightEntry>, rows: Seq<(String, u32)>, j: int)
    requires
        wf_acc(acc),
        0 <= j <= rows.len(),
        sum_weights(acc) + 1000 * (rows.len() - j) <= u64::MAX,
    ensures
        wf_acc(store_fold(acc, rows, j)),
        sum_weights(acc) <= sum_weights(store_fold(acc, rows, j)) <= sum_weights(acc) + 1000 * (
        rows.len() - j),
    decreases rows.len() - j,
{
    if j < rows.len() {
        if rows[j].1 == 0 {
            lemma_store_fold_props(acc, rows, j + 1);
        } else {
            crate::profile::lemma_upsert_props(acc, (rows[j].0, clamp1000(rows[j].1)), 0);
            lemma_store_fold_props(upsert_weight(acc, (rows[j].0, clamp1000(rows[j].1))), rows, j + 1);
        }
    }
}

/// Rebuild a user's profile from what the datastore returned: no stored
/// emotional state means no profile; otherwise the stored resonance rows
/// (clamped into [0, 1], zero rows dropped) become the weights, and an
/// unknown or missing band name falls back to `Medio`.
pub fn profile_from_store(
    user_id: &str,
    dominant_emotion: Option<String>,
    duration_name: Option<String>,
    resonances: &Vec<(String, u32)>,
) -> (r: Option<EmotionalProfile>)
    requires
        resonances@.len() <= 100000,
    ensures
        dominant_emotion is None <==> r is None,
        r matches Some(p) ==> {
            &&& dominant_emotion matches Some(d) && p.dominant_emotion == d
            &&& p.user_id@ == user_id@
            &&& p.emotions@ == store_fold(Seq::empty(), resonances@, 0)
            &&& p.weight_total == sum_weights(p.emotions@)
            &&& wf_profile(&p)
            &&& p.time_available == match duration_name {
                Some(n) => spec_duration_from_db_name(n@),
                None => DurationRange::Medio,
            }
        },
{
    let dominant = match dominant_emotion {
        Some(d) => d,
        None => {
            return None;
        },
    };
    let mut acc: Vec<WeightEntry> = Vec::new();
    let n = resonances.len();
    let mut j: usize = 0;
    while j < n
        invariant
            0 <= j <= n,
            n == resonances@.len(),
            n <= 100000,
            wf_acc(acc@),
            sum_weights(acc@) <= 1000 * j,
            store_fold(acc@, resonances@, j as int) == store_fold(Seq::empty(), resonances@, 0),
        decreases n - j,
    {
        let w = resonances[j].1;
        if w > 0 {
            let clamped: u32 = if w > 1000 {
                1000
            } else {
                w
            };
            let e = resonances[j].0.clone();
            proof {
                crate::profile::lemma_upsert_props(acc@, (e, clamped), 0);
                assert((e, clamped) == (resonances@[j as int].0, clamp1000(
                    resonances@[j as int].1,
                )));
            }
            crate::profile::upsert_entry(&mut acc, (e, clamped));
        }
        j += 1;
    }
    let weight_total = crate::profile::total_weight(&acc);
    let time_available = match duration_name {
        Some(name) => DurationRange::from_db_name(name.as_str()),
        None => DurationRange::Medio,
    };
    Some(
        EmotionalProfile {
            user_id: user_id.to_owned(),
            emotions: acc,
            weight_total,
            dominant_emotion: dominant,
            time_available,
        },
    )
}

/// The emotion list a reference request answers with: the datastore's
/// emotions when the query returned any, the built-in catalog otherwise.
pub fn emotions_or_default(db_emotions: Option<Vec<String>>) -> (r: Vec<Emotion>)
    ensures
        match db_emotions {
            Some(v) => if v@.len() > 0 {
                &&& r@.len() == v@.len()
                &&& forall|i: int|
                    0 <= i < r@.len() ==> (#[trigger] r@[i]).tipo == v@[i] && r@[i].descripcion
                        is None
            } else {
                default_emotions_shape(r@)
            },
            None => default_emotions_shape(r@),
        },
{
    match db_emotions {
        Some(v) => {
            if v.len() > 0 {
                let mut r: Vec<Emotion> = Vec::new();
                let ghost orig = v@;
                let mut input = v;
                let total = input.len();
                proof {
                    assert(orig.len() == total as int);
                }
                let mut i: usize = 0;
                while input.len() > 0
                    invariant
                        0 <= i <= orig.len() <= usize::MAX,
                        i + input@.len() == orig.len(),
                        input@ == orig.skip(i as int),
                        r@.len() == i,
                        forall|k: int|
                            0 <= k < i ==> (#[trigger] r@[k]).tipo == orig[k] && r@[k].descripcion
                                is None,
                    decreases input@.len(),
                {
                    let tipo = input.remove(0);
                    proof {
                        assert(tipo == orig[i as int]);
                        assert(input@ =~= orig.skip(i as int + 1));
                    }
                    r.push(Emotion { tipo, descripcion: None });
                    i += 1;
                }
                r
            } else {
                get_available_emotions()
            }
        },
        None => get_available_emotions(),
    }
}

/// The characteristic list a reference request answers with: the
/// datastore's when the query returned any, the built-in catalog otherwise.
pub fn characteristics_or_default(db_characteristics: Option<Vec<String>>) -> (r: Vec<
    Characteristic,
>)
    ensures
        match db_characteristics {
            Some(v) => if v@.len() > 0 {
                &&& r@.len() == v@.len()
                &&& forall|i: int|
                    0 <= i < r@.len() ==> (#[trigger] r@[i]).nombre == v@[i] && r@[i].descripcion
                        is None
            } else {
                default_characteristics_shape(r@)
            },
            None => default_characteristics_shape(r@),
        },
{
    match db_characteristics {
        Some(v) => {
            if v.len() > 0 {
                let mut r: Vec<Characteristic> = Vec::new();
                let ghost orig = v@;
                let mut input = v;
                let total = input.len();
                proof {
                    assert(orig.len() == total as int);
                }
                let mut i: usize = 0;
                while input.len() > 0
                    invariant
                        0 <= i <= orig.len() <= usize::MAX,
                        i + input@.len() == orig.len(),
                        input@ == orig.skip(i as int),
                        r@.len() == i,
                        forall|k: int|
                            0 <= k < i ==> (#[trigger] r@[k]).nombre == orig[k] && r@[k].descripcion
                                is None,
                    decreases input@.len(),
                {
                    let nombre = input.remove(0);
                    proof {
                        assert(nombre == orig[i as int]);
                        assert(input@ =~= orig.skip(i as int + 1));
                    }
                    r.push(Characteristic { nombre, descripcion: None });
                    i += 1;
                }
                r
            } else {
                get_available_characteristics()
            }
        },
        None => get_available_characteristics(),
    }
}

/// The emotion names the questionnaire advertises: the datastore's when the
/// query returned any, the nine built-in names otherwise.
pub fn questionnaire_emotion_names(db_emotions: Option<Vec<String>>) -> (r: Vec<String>)
    ensures
        match db_emotions {
            Some(v) => if v@.len() > 0 {
                r@ == v@
            } else {
                default_emotion_names(r@.map_values(|s: String| s@))
            },
            None => default_emotion_names(r@.map_values(|s: String| s@)),
        },
{
    match db_emotions {
        Some(v) => {
            if v.len() > 0 {
                v
            } else {
                default_emotion_name_list()
            }
        },
        None => default_emotion_name_list(),
    }
}

fn default_emotion_name_list() -> (r: Vec<String>)
    ensures
        default_emotion_names(r@.map_values(|s: String| s@)),
{
    let mut r: Vec<String> = Vec::new();
    r.push("alegre".to_owned());
    r.push("relajante".to_owned());
    r.push("melancólico".to_owned());
    r.push("exploración".to_owned());
    r.push("desafiante".to_owned());
    r.push("contemplativo".to_owned());
    r.push("social".to_owned());
    r.push("competitivo".to_owned());
    r.push("creativo".to_owned());
    proof {
        assert(r@.map_values(|s: String| s@).len() == 9);
    }
    r
}

/// The characteristic names the questionnaire advertises as possible
/// dealbreakers: the datastore's when the query returned any, the four
/// built-in dealbreakers otherwise.
pub fn questionnaire_characteristic_names(db_characteristics: Option<Vec<String>>) -> (r: Vec<
    String,
>)
    ensures
        match db_characteristics {
            Some(v) => if v@.len() > 0 {
                r@ == v@
            } else {
                default_dealbreaker_names(r@.map_values(|s: String| s@))
            },
            None => default_dealbreaker_names(r@.map_values(|s: String| s@)),
        },
{
    match db_characteristics {
        Some(v) => {
            if v.len() > 0 {
                v
            } else {
                let d = get_dealbreaker_characteristics();
                proof {
                    assert(d@.map_values(|s: String| s@).len() == 4);
                }
                d
            }
        },
        None => {
            let d = get_dealbreaker_characteristics();
            proof {
                assert(d@.map_values(|s: String| s@).len() == 4);
            }
            d
        },
    }
}

/// Judge the startup structure counts: the catalog is usable only when at
/// least one emotion, one game and one resonance edge exist.
pub fn check_structure_counts(emotions: i64, games: i64, resonances: i64) -> (r: Result<
    (),
    AppError,
>)
    ensures
        r is Ok <==> (emotions != 0 && games != 0 && resonances != 0),
        r is Err ==> r->Err_0 is DatabaseError,
{
    if emotions == 0 {
        return Err(
            AppError::DatabaseError("no se encontraron nodos de emoción en el grafo".to_owned()),
        );
    }
    if games == 0 {
        return Err(
            AppError::DatabaseError("no se encontraron nodos de juego en el grafo".to_owned()),
        );
    }
    if resonances == 0 {
        return Err(
            AppError::DatabaseError(
                "no se encontraron relaciones de resonancia en el grafo".to_owned(),
            ),
        );
    }
    Ok(())
}

} // verus!
