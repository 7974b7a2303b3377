//! ScoringEngine: composite resonance scores, hard exclusion filters,
//! deterministic ranking, and the multi-tier fallback decisions.
//!
//! The composite score combines the direct game–emotion signal with the
//! genre- and characteristic-mediated signals:
//! `total = direct·1.0 + genre·0.5 + characteristic·0.3`, where the mediated
//! components already carry their inner relation weights 0.5 and 0.3. With
//! intensities in `INTENSITY_SCALE` units, components in `COMPONENT_SCALE`
//! units and totals in `SCORE_SCALE` units, every multiplier is an exact
//! integer factor.

use vstd::prelude::*;
use crate::profile::EmotionalProfile;
use crate::profile::WeightEntry;
use crate::recommendation::GameRecommendation;
use crate::recommendation::ResonanciaDesglosada;

verus! {

/// A candidate game as the graph datastore reports it: its direct
/// resonance edges to emotions, its genres and characteristics, the
/// genre–emotion and characteristic–emotion relation edges, and the maximum
/// minutes of its duration band when one is stored. All intensities are in
/// `INTENSITY_SCALE` units.
#[derive(Debug)]
pub struct CandidateGame {
    pub id: String,
    pub nombre: String,
    pub descripcion: String,
    pub emociones: Vec<(String, u32)>,
    pub generos: Vec<String>,
    pub caracteristicas: Vec<String>,
    pub relaciones_genero: Vec<(String, String, u32)>,
    pub relaciones_caracteristica: Vec<(String, String, u32)>,
    pub duracion_max: Option<i32>,
}

/// A well-formed candidate: intensities of at most one unit, and edge lists
/// small enough that every score fits comfortably in a `u64`.
pub open spec fn wf_candidate(c: &CandidateGame) -> bool {
    &&& c.emociones@.len() <= 100000
    &&& (forall|i: int| 0 <= i < c.emociones@.len() ==> (#[trigger] c.emociones@[i]).1 <= 1000)
    &&& c.relaciones_genero@.len() <= 100000
    &&& (forall|i: int|
        0 <= i < c.relaciones_genero@.len() ==> (#[trigger] c.relaciones_genero@[i]).2 <= 1000)
    &&& c.relaciones_caracteristica@.len() <= 100000
    &&& (forall|i: int|
        0 <= i < c.relaciones_caracteristica@.len() ==> (
        #[trigger] c.relaciones_caracteristica@[i]).2 <= 1000)
}

/// Whether some name in the list reads `x`.
pub open spec fn in_strings(v: Seq<String>, x: Seq<char>) -> bool {
    exists|i: int| 0 <= i < v.len() && (#[trigger] v[i])@ == x
}

/// Whether the profile carries the emotion.
pub open spec fn emotion_in_profile(profile: Seq<WeightEntry>, e: Seq<char>) -> bool {
    exists|i: int| 0 <= i < profile.len() && (#[trigger] profile[i]).0@ == e
}

/// Whether some characteristic of the game is in the dealbreaker list.
pub open spec fn has_dealbreaker(caracteristicas: Seq<String>, dealbreakers: Seq<String>) -> bool {
    exists|i: int|
        0 <= i < caracteristicas.len() && in_strings(dealbreakers, (#[trigger] caracteristicas[i])@)
}

/// Whether a game's duration band can hold the requested minutes. A game
/// without a stored band is not excluded: only a band whose maximum falls
/// short fails the filter.
pub open spec fn passes_duration(duracion_max: Option<i32>, min_minutes: i32) -> bool {
    match duracion_max {
        Some(m) => m >= min_minutes,
        None => true,
    }
}

/// The exclusion filters: a candidate stays exactly when it carries no
/// dealbreaker characteristic, its duration band can hold the requested
/// minutes, and the requesting user has not already played it.
pub open spec fn spec_eligible(
    c: CandidateGame,
    dealbreakers: Seq<String>,
    min_minutes: i32,
    played: Seq<String>,
) -> bool {
    &&& !has_dealbreaker(c.caracteristicas@, dealbreakers)
    &&& passes_duration(c.duracion_max, min_minutes)
    &&& !in_strings(played, c.id@)
}

/// Whether the list holds the name.
pub fn contains_string(v: &Vec<String>, x: &String) -> (r: bool)
    ensures
        r == in_strings(v@, x@),
{
    let n = v.len();
    let mut i: usize = 0;
    while i < n
        invariant
            0 <= i <= n,
            n == v@.len(),
            forall|j: int| 0 <= j < i ==> (#[trigger] v@[j])@ != x@,
        decreases n - i,
    {
        if v[i] == *x {
            return true;
        }
        i += 1;
    }
    false
}

/// Whether the profile carries the emotion.
pub fn profile_has_emotion(profile: &Vec<WeightEntry>, e: &String) -> (r: bool)
    ensures
        r == emotion_in_profile(profile@, e@),
{
    let n = profile.len();
    let mut i: usize = 0;
    while i < n
        invariant
            0 <= i <= n,
            n == profile@.len(),
            forall|j: int| 0 <= j < i ==> (#[trigger] profile@[j]).0@ != e@,
        decreases n - i,
    {
        if profile[i].0 == *e {
            return true;
        }
        i += 1;
    }
    false
}

/// Whether some characteristic of the game is a dealbreaker.
pub fn has_dealbreaker_exec(caracteristicas: &Vec<String>, dealbreakers: &Vec<String>) -> (r:
    bool)
    ensures
        r == has_dealbreaker(caracteristicas@, dealbreakers@),
{
    let n = caracteristicas.len();
    let mut i: usize = 0;
    while i < n
        invariant
            0 <= i <= n,
            n == caracteristicas@.len(),
            forall|j: int|
                0 <= j < i ==> !in_strings(dealbreakers@, (#[trigger] caracteristicas@[j])@),
        decreases n - i,
    {
        if contains_string(dealbreakers, &caracteristicas[i]) {
            return true;
        }
        i += 1;
    }
    false
}

/// Apply the exclusion filters to one candidate.
pub fn eligible_exec(
    c: &CandidateGame,
    dealbreakers: &Vec<String>,
    min_minutes: i32,
    played: &Vec<String>,
) -> (r: bool)
    ensures
        r == spec_eligible(*c, dealbreakers@, min_minutes, played@),
{
    if has_dealbreaker_exec(&c.caracteristicas, dealbreakers) {
        return false;
    }
    match c.duracion_max {
        Some(m) => {
            if m < min_minutes {
                return false;
            }
        },
        None => {},
    }
    if contains_string(played, &c.id) {
        return false;
    }
    true
}

/// The direct signal of `pairs[j..]`: the summed intensity of the game's
/// resonance edges to emotions the profile carries.
pub open spec fn direct_sum_from(
    pairs: Seq<(String, u32)>,
    profile: Seq<WeightEntry>,
    j: int,
) -> int
    decreases pairs.len() - j,
{
    if !(0 <= j < pairs.len()) {
        0
    } else {
        (if emotion_in_profile(profile, pairs[j].0@) {
            pairs[j].1 as int
        } else {
            0
        }) + direct_sum_from(pairs, profile, j + 1)
    }
}

/// The mediated signal of `rels[j..]`: the summed intensity of relation
/// edges whose mediator the game carries and whose emotion the profile
/// carries.
pub open spec fn relation_sum_from(
    rels: Seq<(String, String, u32)>,
    mediators: Seq<String>,
    profile: Seq<WeightEntry>,
    j: int,
) -> int
    decreases rels.len() - j,
{
    if !(0 <= j < rels.len()) {
        0
    } else {
        (if in_strings(mediators, rels[j].0@) && emotion_in_profile(profile, rels[j].1@) {
            rels[j].2 as int
        } else {
            0
        }) + relation_sum_from(rels, mediators, profile, j + 1)
    }
}

/// The direct component, in `COMPONENT_SCALE` units.
pub open spec fn spec_direct_component(c: CandidateGame, profile: Seq<WeightEntry>) -> int {
    10 * direct_sum_from(c.emociones@, profile, 0)
}

/// The genre-mediated component, in `COMPONENT_SCALE` units: each relation
/// counts with the inner weight 0.5.
pub open spec fn spec_genre_component(c: CandidateGame, profile: Seq<WeightEntry>) -> int {
    5 * relation_sum_from(c.relaciones_genero@, c.generos@, profile, 0)
}

/// The characteristic-mediated component, in `COMPONENT_SCALE` units: each
/// relation counts with the inner weight 0.3.
pub open spec fn spec_characteristic_component(
    c: CandidateGame,
    profile: Seq<WeightEntry>,
) -> int {
    3 * relation_sum_from(c.relaciones_caracteristica@, c.caracteristicas@, profile, 0)
}

/// The composite score: `direct·1.0 + genre·0.5 + characteristic·0.3`, over
/// components in `COMPONENT_SCALE` units, yielding `SCORE_SCALE` units.
pub open spec fn combine_score(direct: int, genre: int, characteristic: int) -> int {
    10 * direct + 5 * genre + 3 * characteristic
}

/// The composite score of a candidate against a profile.
pub open spec fn spec_score(c: CandidateGame, profile: Seq<WeightEntry>) -> int {
    combine_score(
        spec_direct_component(c, profile),
        spec_genre_component(c, profile),
        spec_characteristic_component(c, profile),
    )
}

/// Combine the three score components with the fixed outer policy weights
/// 1.0, 0.5 and 0.3.
pub fn combine_score_exec(direct: u64, genre: u64, characteristic: u64) -> (r: u64)
    requires
        combine_score(direct as int, genre as int, characteristic as int) <= u64::MAX,
    ensures
        r == combine_score(direct as int, genre as int, characteristic as int),
{
    10 * direct + 5 * genre + 3 * characteristic
}

proof fn lemma_direct_sum_bound(pairs: Seq<(String, u32)>, profile: Seq<WeightEntry>, j: int)
    requires
        0 <= j <= pairs.len(),
        forall|i: int| 0 <= i < pairs.len() ==> (#[trigger] pairs[i]).1 <= 1000,
    ensures
        0 <= direct_sum_from(pairs, profile, j) <= 1000 * (pairs.len() - j),
    decreases pairs.len() - j,
{
    if j < pairs.len() {
        lemma_direct_sum_bound(pairs, profile, j + 1);
    }
}

proof fn lemma_relation_sum_bound(
    rels: Seq<(String, String, u32)>,
    mediators: Seq<String>,
    profile: Seq<WeightEntry>,
    j: int,
)
    requires
        0 <= j <= rels.len(),
        forall|i: int| 0 <= i < rels.len() ==> (#[trigger] rels[i]).2 <= 1000,
    ensures
        0 <= relation_sum_from(rels, mediators, profile, j) <= 1000 * (rels.len() - j),
    decreases rels.len() - j,
{
    if j < rels.len() {
        lemma_relation_sum_bound(rels, mediators, profile, j + 1);
    }
}

fn direct_component(pairs: &Vec<(String, u32)>, profile: &Vec<WeightEntry>) -> (r: u64)
    requires
        pairs@.len() <= 100000,
        forall|i: int| 0 <= i < pairs@.len() ==> (#[trigger] pairs@[i]).1 <= 1000,
    ensures
        r == 10 * direct_sum_from(pairs@, profile@, 0),
        r <= 1000000000,
{
    let n = pairs.len();
    let mut acc: u64 = 0;
    let mut j: usize = 0;
    while j < n
        invariant
            0 <= j <= n,
            n == pairs@.len(),
            n <= 100000,
            forall|i: int| 0 <= i < pairs@.len() ==> (#[trigger] pairs@[i]).1 <= 1000,
            acc <= 1000 * j,
            direct_sum_from(pairs@, profile@, 0) == acc + direct_sum_from(
                pairs@,
                profile@,
                j as int,
            ),
        decreases n - j,
    {
        if profile_has_emotion(profile, &pairs[j].0) {
            acc = acc + pairs[j].1 as u64;
        }
        j += 1;
    }
    proof {
        lemma_direct_sum_bound(pairs@, profile@, 0);
    }
    10 * acc
}

fn relation_sum(
    rels: &Vec<(String, String, u32)>,
    mediators: &Vec<String>,
    profile: &Vec<WeightEntry>,
) -> (r: u64)
    requires
        rels@.len() <= 100000,
        forall|i: int| 0 <= i < rels@.len() ==> (#[trigger] rels@[i]).2 <= 1000,
    ensures
        r == relation_sum_from(rels@, mediators@, profile@, 0),
        r <= 100000000,
{
    let n = rels.len();
    let mut acc: u64 = 0;
    let mut j: usize = 0;
    while j < n
        invariant
            0 <= j <= n,
            n == rels@.len(),
            n <= 100000,
            forall|i: int| 0 <= i < rels@.len() ==> (#[trigger] rels@[i]).2 <= 1000,
            acc <= 1000 * j,
            relation_sum_from(rels@, mediators@, profile@, 0) == acc + relation_sum_from(
                rels@,
                mediators@,
                profile@,
                j as int,
            ),
        decreases n - j,
    {
        if contains_string(mediators, &rels[j].0) && profile_has_emotion(profile, &rels[j].1) {
            acc = acc + rels[j].2 as u64;
        }
        j += 1;
    }
    proof {
        lemma_relation_sum_bound(rels@, mediators@, profile@, 0);
    }
    acc
}

/// What a scored recommendation says of its candidate: names, genres and
/// characteristics carried over, matched emotions listed in edge order, the
/// breakdown present exactly when asked for, and the composite score exact.
pub open spec fn rec_matches(
    r: GameRecommendation,
    profile: Seq<WeightEntry>,
    c: CandidateGame,
    include_breakdown: bool,
) -> bool {
    &&& r.id == c.id
    &&& r.nombre == c.nombre
    &&& r.descripcion == c.descripcion
    &&& r.generos == c.generos
    &&& r.caracteristicas == c.caracteristicas
    &&& r.emociones_coincidentes@ == c.emociones@.map_values(|p: (String, u32)| p.0)
    &&& r.resonancia == spec_score(c, profile)
    &&& match r.resonancia_desglosada {
        Some(b) => {
            &&& include_breakdown
            &&& b.directa == spec_direct_component(c, profile)
            &&& b.por_genero == spec_genre_component(c, profile)
            &&& b.por_caracteristica == spec_characteristic_component(c, profile)
        },
        None => !include_breakdown,
    }
}

/// Score one candidate against a profile: the composite of the direct,
/// genre-mediated and characteristic-mediated signals.
pub fn score_candidate(
    profile: &EmotionalProfile,
    c: CandidateGame,
    include_breakdown: bool,
) -> (r: GameRecommendation)
    requires
        wf_candidate(&c),
    ensures
        rec_matches(r, profile.emotions@, c, include_breakdown),
{
    let directa = direct_component(&c.emociones, &profile.emotions);
    let por_genero = 5 * relation_sum(&c.relaciones_genero, &c.generos, &profile.emotions);
    let por_caracteristica = 3 * relation_sum(
        &c.relaciones_caracteristica,
        &c.caracteristicas,
        &profile.emotions,
    );
    proof {
        lemma_direct_sum_bound(c.emociones@, profile.emotions@, 0);
        lemma_relation_sum_bound(c.relaciones_genero@, c.generos@, profile.emotions@, 0);
        lemma_relation_sum_bound(
            c.relaciones_caracteristica@,
            c.caracteristicas@,
            profile.emotions@,
            0,
        );
    }
    let resonancia = combine_score_exec(directa, por_genero, por_caracteristica);
    let mut emociones_coincidentes: Vec<String> = Vec::new();
    let n = c.emociones.len();
    let mut i: usize = 0;
    while i < n
        invariant
            0 <= i <= n,
            n == c.emociones@.len(),
            emociones_coincidentes@ == c.emociones@.take(i as int).map_values(
                |p: (String, u32)| p.0,
            ),
        decreases n - i,
    {
        emociones_coincidentes.push(c.emociones[i].0.clone());
        proof {
            assert(emociones_coincidentes@ =~= c.emociones@.take(i + 1).map_values(
                |p: (String, u32)| p.0,
            ));
        }
        i += 1;
    }
    proof {
        assert(c.emociones@.take(n as int) =~= c.emociones@);
    }
    let resonancia_desglosada = if include_breakdown {
        Some(ResonanciaDesglosada { directa, por_genero, por_caracteristica })
    } else {
        None
    };
    GameRecommendation {
        id: c.id,
        nombre: c.nombre,
        descripcion: c.descripcion,
        resonancia,
        resonancia_desglosada,
        generos: c.generos,
        caracteristicas: c.caracteristicas,
        emociones_coincidentes,
    }
}

/// Insert into a descending list: right before the first strictly smaller
/// score, so that an equal score stays behind the earlier entries.
pub open spec fn insert_desc(
    s: Seq<GameRecommendation>,
    x: GameRecommendation,
) -> Seq<GameRecommendation>
    decreases s.len(),
{
    if s.len() == 0 {
        seq![x]
    } else if s[0].resonancia >= x.resonancia {
        seq![s[0]] + insert_desc(s.drop_first(), x)
    } else {
        seq![x] + s
    }
}

/// The stable descending sort by score: each entry inserted in turn, ties
/// kept in input order.
pub open spec fn sort_desc(s: Seq<GameRecommendation>) -> Seq<GameRecommendation>
    decreases s.len(),
{
    if s.len() == 0 {
        Seq::empty()
    } else {
        insert_desc(sort_desc(s.drop_last()), s.last())
    }
}

/// Scores never increase along the list.
pub open spec fn sorted_desc(s: Seq<GameRecommendation>) -> bool {
    forall|i: int, j: int|
        0 <= i < j < s.len() ==> (#[trigger] s[i]).resonancia >= (#[trigger] s[j]).resonancia
}

proof fn lemma_insert_desc_len(s: Seq<GameRecommendation>, x: GameRecommendation)
    ensures
        insert_desc(s, x).len() == s.len() + 1,
    decreases s.len(),
{
    if s.len() > 0 && s[0].resonancia >= x.resonancia {
        lemma_insert_desc_len(s.drop_first(), x);
    }
}

proof fn lemma_sort_desc_len(s: Seq<GameRecommendation>)
    ensures
        sort_desc(s).len() == s.len(),
    decreases s.len(),
{
    if s.len() > 0 {
        lemma_sort_desc_len(s.drop_last());
        lemma_insert_desc_len(sort_desc(s.drop_last()), s.last());
    }
}

/// A pointwise property of the entries survives an insertion.
proof fn lemma_insert_desc_all(
    s: Seq<GameRecommendation>,
    x: GameRecommendation,
    pred: spec_fn(GameRecommendation) -> bool,
)
    requires
        forall|i: int| 0 <= i < s.len() ==> pred(#[trigger] s[i]),
        pred(x),
    ensures
        forall|i: int| 0 <= i < insert_desc(s, x).len() ==> pred(#[trigger] insert_desc(s, x)[i]),
    decreases s.len(),
{
    if s.len() > 0 && s[0].resonancia >= x.resonancia {
        assert(forall|i: int|
            0 <= i < s.drop_first().len() ==> pred(#[trigger] s.drop_first()[i]));
        lemma_insert_desc_all(s.drop_first(), x, pred);
        assert forall|i: int| 0 <= i < insert_desc(s, x).len() implies pred(
            #[trigger] insert_desc(s, x)[i],
        ) by {
            if i > 0 {
                assert(insert_desc(s, x)[i] == insert_desc(s.drop_first(), x)[i - 1]);
            }
        }
    }
}

/// A pointwise property of the entries survives the sort.
pub proof fn lemma_sort_desc_all(s: Seq<GameRecommendation>, pred: spec_fn(GameRecommendation) -> bool)
    requires
        forall|i: int| 0 <= i < s.len() ==> pred(#[trigger] s[i]),
    ensures
        forall|i: int| 0 <= i < sort_desc(s).len() ==> pred(#[trigger] sort_desc(s)[i]),
    decreases s.len(),
{
    if s.len() > 0 {
        assert(forall|i: int| 0 <= i < s.drop_last().len() ==> pred(#[trigger] s.drop_last()[i]));
        lemma_sort_desc_all(s.drop_last(), pred);
        lemma_insert_desc_all(sort_desc(s.drop_last()), s.last(), pred);
    }
}

proof fn lemma_insert_desc_sorted(s: Seq<GameRecommendation>, x: GameRecommendation)
    requires
        sorted_desc(s),
    ensures
        sorted_desc(insert_desc(s, x)),
    decreases s.len(),
{
    if s.len() == 0 {
    } else if s[0].resonancia >= x.resonancia {
        assert(sorted_desc(s.drop_first()));
        lemma_insert_desc_sorted(s.drop_first(), x);
        let rest = insert_desc(s.drop_first(), x);
        lemma_insert_desc_all(
            s.drop_first(),
            x,
            |y: GameRecommendation| y.resonancia <= s[0].resonancia,
        );
        assert forall|i: int, j: int|
            0 <= i < j < insert_desc(s, x).len() implies (#[trigger] insert_desc(s, x)[i]).resonancia
            >= (#[trigger] insert_desc(s, x)[j]).resonancia by {
            if i > 0 {
                assert(insert_desc(s, x)[i] == rest[i - 1]);
                assert(insert_desc(s, x)[j] == rest[j - 1]);
            } else {
                assert(insert_desc(s, x)[j] == rest[j - 1]);
            }
        }
    } else {
        assert forall|i: int, j: int|
            0 <= i < j < insert_desc(s, x).len() implies (#[trigger] insert_desc(s, x)[i]).resonancia
            >= (#[trigger] insert_desc(s, x)[j]).resonancia by {
            if i > 0 {
                assert(insert_desc(s, x)[i] == s[i - 1]);
                assert(insert_desc(s, x)[j] == s[j - 1]);
            } else {
                assert(insert_desc(s, x)[j] == s[j - 1]);
            }
        }
    }
}

/// The sort leaves a descending list.
pub proof fn lemma_sort_desc_sorted(s: Seq<GameRecommendation>)
    ensures
        sorted_desc(sort_desc(s)),
        sort_desc(s).len() == s.len(),
    decreases s.len(),
{
    lemma_sort_desc_len(s);
    if s.len() > 0 {
        lemma_sort_desc_sorted(s.drop_last());
        lemma_insert_desc_sorted(sort_desc(s.drop_last()), s.last());
    }
}

proof fn lemma_insert_desc_at(s: Seq<GameRecommendation>, x: GameRecommendation, idx: int)
    requires
        0 <= idx <= s.len(),
        forall|j: int| 0 <= j < idx ==> (#[trigger] s[j]).resonancia >= x.resonancia,
        idx < s.len() ==> s[idx].resonancia < x.resonancia,
    ensures
        insert_desc(s, x) == s.take(idx) + seq![x] + s.skip(idx),
    decreases idx,
{
    if idx == 0 {
        if s.len() == 0 {
            assert(insert_desc(s, x) =~= s.take(0) + seq![x] + s.skip(0));
        } else {
            assert(insert_desc(s, x) =~= s.take(0) + seq![x] + s.skip(0));
        }
    } else {
        assert(s[0].resonancia >= x.resonancia);
        lemma_insert_desc_at(s.drop_first(), x, idx - 1);
        assert(s.drop_first().take(idx - 1) =~= s.take(idx).drop_first());
        assert(s.drop_first().skip(idx - 1) =~= s.skip(idx));
        assert(insert_desc(s, x) =~= s.take(idx) + seq![x] + s.skip(idx));
    }
}

/// Insert a scored recommendation into a descending list, after every entry
/// that scores at least as high.
fn insert_sorted(v: &mut Vec<GameRecommendation>, x: GameRecommendation)
    ensures
        final(v)@ == insert_desc(old(v)@, x),
{
    let ghost orig = v@;
    let n = v.len();
    let mut idx: usize = 0;
    while idx < n && v[idx].resonancia >= x.resonancia
        invariant
            0 <= idx <= n,
            n == v@.len(),
            v@ == orig,
            forall|j: int| 0 <= j < idx ==> (#[trigger] v@[j]).resonancia >= x.resonancia,
        decreases n - idx,
    {
        idx += 1;
    }
    proof {
        lemma_insert_desc_at(orig, x, idx as int);
    }
    v.insert(idx, x);
    proof {
        assert(v@ =~= orig.take(idx as int) + seq![x] + orig.skip(idx as int));
    }
}

/// Sort recommendations by score, descending, keeping equal scores in their
/// input order.
pub fn sort_recommendations(recs: Vec<GameRecommendation>) -> (r: Vec<GameRecommendation>)
    ensures
        r@ == sort_desc(recs@),
        sorted_desc(r@),
        r@.len() == recs@.len(),
{
    let ghost orig = recs@;
    let mut input = recs;
    let total = input.len();
    proof {
        assert(orig.len() == total as int);
    }
    let mut out: Vec<GameRecommendation> = Vec::new();
    let mut processed: usize = 0;
    while input.len() > 0
        invariant
            0 <= processed <= orig.len() <= usize::MAX,
            processed + input@.len() == orig.len(),
            input@ == orig.skip(processed as int),
            out@ == sort_desc(orig.take(processed as int)),
        decreases input@.len(),
    {
        let x = input.remove(0);
        proof {
            assert(x == orig[processed as int]);
            assert(input@ =~= orig.skip(processed as int + 1));
            assert(orig.take(processed as int + 1).drop_last() =~= orig.take(processed as int));
            assert(orig.take(processed as int + 1).last() == orig[processed as int]);
        }
        insert_sorted(&mut out, x);
        processed += 1;
    }
    proof {
        assert(orig.take(processed as int) =~= orig);
        lemma_sort_desc_sorted(orig);
    }
    out
}

/// The candidates that survive the exclusion filters, in input order.
pub open spec fn eligible_candidates(
    candidates: Seq<CandidateGame>,
    dealbreakers: Seq<String>,
    min_minutes: i32,
    played: Seq<String>,
) -> Seq<CandidateGame> {
    candidates.filter(|c: CandidateGame| spec_eligible(c, dealbreakers, min_minutes, played))
}

/// Whether `scored` scores the eligible candidates one for one, in order.
pub open spec fn scores_eligible(
    scored: Seq<GameRecommendation>,
    profile: Seq<WeightEntry>,
    candidates: Seq<CandidateGame>,
    dealbreakers: Seq<String>,
    min_minutes: i32,
    played: Seq<String>,
    include_breakdown: bool,
) -> bool {
    let elegidos = eligible_candidates(candidates, dealbreakers, min_minutes, played);
    &&& scored.len() == elegidos.len()
    &&& (forall|k: int|
        0 <= k < scored.len() ==> rec_matches(
            #[trigger] scored[k],
            profile,
            elegidos[k],
            include_breakdown,
        ))
}

/// Whether a recommendation is the exact score of some eligible candidate.
pub open spec fn from_eligible(
    r: GameRecommendation,
    profile: Seq<WeightEntry>,
    candidates: Seq<CandidateGame>,
    dealbreakers: Seq<String>,
    min_minutes: i32,
    played: Seq<String>,
    include_breakdown: bool,
) -> bool {
    exists|k: int|
        0 <= k < candidates.len() && spec_eligible(
            #[trigger] candidates[k],
            dealbreakers,
            min_minutes,
            played,
        ) && rec_matches(r, profile, candidates[k], include_breakdown)
}

/// Filter, score, rank and truncate the candidate set: drop every candidate
/// a filter excludes, score the rest against the profile, sort by score
/// descending (ties in input order), and keep at most `limit` entries.
///
/// Every returned recommendation is the exact score of an eligible
/// candidate; in particular none carries a dealbreaker characteristic, and
/// none whose duration band falls short of the requested minutes survives.
pub fn rank_candidates(
    profile: &EmotionalProfile,
    candidates: Vec<CandidateGame>,
    dealbreakers: &Vec<String>,
    min_minutes: i32,
    played: &Vec<String>,
    include_breakdown: bool,
    limit: usize,
) -> (r: Vec<GameRecommendation>)
    requires
        forall|i: int| 0 <= i < candidates@.len() ==> wf_candidate(&#[trigger] candidates@[i]),
    ensures
        r@.len() <= limit,
        sorted_desc(r@),
        exists|scored: Seq<GameRecommendation>|
            {
                &&& #[trigger] scores_eligible(
                    scored,
                    profile.emotions@,
                    candidates@,
                    dealbreakers@,
                    min_minutes,
                    played@,
                    include_breakdown,
                )
                &&& r@ == if limit <= scored.len() {
                    sort_desc(scored).take(limit as int)
                } else {
                    sort_desc(scored)
                }
            },
        forall|i: int|
            0 <= i < r@.len() ==> from_eligible(
                #[trigger] r@[i],
                profile.emotions@,
                candidates@,
                dealbreakers@,
                min_minutes,
                played@,
                include_breakdown,
            ),
        forall|i: int|
            0 <= i < r@.len() ==> !has_dealbreaker((#[trigger] r@[i]).caracteristicas@, dealbreakers@),
{
    let ghost orig = candidates@;
    let ghost prof = profile.emotions@;
    let mut input = candidates;
    let total = input.len();
    proof {
        assert(orig.len() == total as int);
    }
    let ghost elig = |c: CandidateGame| spec_eligible(c, dealbreakers@, min_minutes, played@);
    let mut scored: Vec<GameRecommendation> = Vec::new();
    let mut processed: usize = 0;
    while input.len() > 0
        invariant
            0 <= processed <= orig.len() <= usize::MAX,
            processed + input@.len() == orig.len(),
            input@ == orig.skip(processed as int),
            prof == profile.emotions@,
            elig == (|c: CandidateGame| spec_eligible(c, dealbreakers@, min_minutes, played@)),
            forall|i: int| 0 <= i < orig.len() ==> wf_candidate(&#[trigger] orig[i]),
            scored@.len() == orig.take(processed as int).filter(elig).len(),
            forall|k: int|
                0 <= k < scored@.len() ==> rec_matches(
                    #[trigger] scored@[k],
                    prof,
                    orig.take(processed as int).filter(elig)[k],
                    include_breakdown,
                ),
            forall|i: int|
                0 <= i < scored@.len() ==> from_eligible(
                    #[trigger] scored@[i],
                    prof,
                    orig,
                    dealbreakers@,
                    min_minutes,
                    played@,
                    include_breakdown,
                ),
        decreases input@.len(),
    {
        let c = input.remove(0);
        proof {
            reveal_with_fuel(Seq::<CandidateGame>::filter, 2);
            assert(c == orig[processed as int]);
            assert(input@ =~= orig.skip(processed as int + 1));
            assert(orig.take(processed as int + 1).drop_last() =~= orig.take(processed as int));
            assert(orig.take(processed as int + 1).last() == orig[processed as int]);
        }
        if eligible_exec(&c, dealbreakers, min_minutes, played) {
            let ghost k = processed as int;
            let rec = score_candidate(profile, c, include_breakdown);
            proof {
                assert(spec_eligible(orig[k], dealbreakers@, min_minutes, played@));
                assert(rec_matches(rec, prof, orig[k], include_breakdown));
                assert(orig.take(k + 1).filter(elig) =~= orig.take(k).filter(elig).push(orig[k]));
            }
            scored.push(rec);
        }
        processed += 1;
    }
    let ghost pred = |y: GameRecommendation|
        from_eligible(y, prof, orig, dealbreakers@, min_minutes, played@, include_breakdown);
    let ghost scored_view = scored@;
    proof {
        assert(orig.take(orig.len() as int) =~= orig);
        assert(scores_eligible(
            scored_view,
            prof,
            orig,
            dealbreakers@,
            min_minutes,
            played@,
            include_breakdown,
        ));
        assert(forall|i: int| 0 <= i < scored@.len() ==> pred(#[trigger] scored@[i]));
        lemma_sort_desc_all(scored@, pred);
        lemma_sort_desc_sorted(scored@);
    }
    let mut ranked = sort_recommendations(scored);
    ranked.truncate(limit);
    proof {
        assert forall|i: int| 0 <= i < ranked@.len() implies !has_dealbreaker(
            (#[trigger] ranked@[i]).caracteristicas@,
            dealbreakers@,
        ) by {
            assert(pred(ranked@[i]));
            let k = choose|k: int|
                0 <= k < orig.len() && spec_eligible(
                    #[trigger] orig[k],
                    dealbreakers@,
                    min_minutes,
                    played@,
                ) && rec_matches(ranked@[i], prof, orig[k], include_breakdown);
            assert(ranked@[i].caracteristicas == orig[k].caracteristicas);
        }
    }
    ranked
}

/// The profile a bare emotional state denotes: that one emotion at full
/// weight, the default duration band, and the emotion itself dominant.
pub fn single_emotion_profile(user_id: &str, emotion: &str) -> (r: EmotionalProfile)
    ensures
        r.user_id@ == user_id@,
        r.emotions@.len() == 1,
        r.emotions@[0].0@ == emotion@,
        r.emotions@[0].1 == 1000,
        r.weight_total == 1000,
        r.dominant_emotion@ == emotion@,
        r.time_available == crate::catalog::DurationRange::Medio,
{
    let mut emotions: Vec<WeightEntry> = Vec::new();
    emotions.push((emotion.to_owned(), 1000));
    EmotionalProfile {
        user_id: user_id.to_owned(),
        emotions,
        weight_total: 1000,
        dominant_emotion: emotion.to_owned(),
        time_available: crate::catalog::DurationRange::Medio,
    }
}

/// What one query attempt produced: rows, or a datastore failure.
#[derive(Debug)]
pub enum QueryOutcome {
    Rows(Vec<GameRecommendation>),
    Failed,
}

/// What to do next in the fallback chain.
#[derive(Debug)]
pub enum NextStep {
    Deliver(Vec<GameRecommendation>),
    TryAlternative,
    UseFallback,
}

/// Decide after the primary query: deliver non-empty rows; retry with the
/// cheaper direct-match query when the rows are empty; fall back to the
/// static catalog when the datastore failed.
pub fn after_primary_query(outcome: QueryOutcome) -> (r: NextStep)
    ensures
        match outcome {
            QueryOutcome::Rows(v) => if v@.len() > 0 {
                r == NextStep::Deliver(v)
            } else {
                r == NextStep::TryAlternative
            },
            QueryOutcome::Failed => r == NextStep::UseFallback,
        },
{
    match outcome {
        QueryOutcome::Rows(v) => {
            if v.len() > 0 {
                NextStep::Deliver(v)
            } else {
                NextStep::TryAlternative
            }
        },
        QueryOutcome::Failed => NextStep::UseFallback,
    }
}

/// Decide after the alternative query: deliver whatever rows came, empty
/// ones included; fall back to the static catalog only on failure.
pub fn after_alternative_query(outcome: QueryOutcome) -> (r: NextStep)
    ensures
        match outcome {
            QueryOutcome::Rows(v) => r == NextStep::Deliver(v),
            QueryOutcome::Failed => r == NextStep::UseFallback,
        },
        !(r is TryAlternative),
{
    match outcome {
        QueryOutcome::Rows(v) => NextStep::Deliver(v),
        QueryOutcome::Failed => NextStep::UseFallback,
    }
}


/// Clamp a reported intensity into [0, 1] (in `INTENSITY_SCALE` units).
pub open spec fn clamp_intensity(v: int) -> int {
    if v < 0 {
        0
    } else if v > 1000 {
        1000
    } else {
        v
    }
}

/// Build a candidate from the fields of one datastore row, applying the
/// documented defaults: a row without a game id yields no candidate; a
/// missing name or description gets its placeholder; a missing intensity
/// counts as half a unit, and any intensity is clamped into [0, 1]; missing
/// lists are empty. The row's single resonance edge goes to the queried
/// emotion.
pub fn candidate_from_fields(
    id: Option<String>,
    nombre: Option<String>,
    descripcion: Option<String>,
    resonancia: Option<i64>,
    generos: Option<Vec<String>>,
    caracteristicas: Option<Vec<String>>,
    emotion_type: &str,
    duracion_max: Option<i32>,
) -> (r: Option<CandidateGame>)
    ensures
        id is None <==> r is None,
        r matches Some(c) ==> {
            &&& id matches Some(v) && c.id == v
            &&& c.nombre@ == match nombre {
                Some(n) => n@,
                None => "Juego sin nombre"@,
            }
            &&& c.descripcion@ == match descripcion {
                Some(d) => d@,
                None => "Sin descripción disponible"@,
            }
            &&& c.emociones@.len() == 1
            &&& c.emociones@[0].0@ == emotion_type@
            &&& c.emociones@[0].1 == clamp_intensity(
                match resonancia {
                    Some(v) => v as int,
                    None => 500,
                },
            )
            &&& c.generos@ == match generos {
                Some(g) => g@,
                None => Seq::<String>::empty(),
            }
            &&& c.caracteristicas@ == match caracteristicas {
                Some(cs) => cs@,
                None => Seq::<String>::empty(),
            }
            &&& c.relaciones_genero@.len() == 0
            &&& c.relaciones_caracteristica@.len() == 0
            &&& c.duracion_max == duracion_max
            &&& wf_candidate(&c)
        },
{
    let id_value = match id {
        Some(v) => v,
        None => {
            return None;
        },
    };
    let nombre_value = match nombre {
        Some(n) => n,
        None => "Juego sin nombre".to_owned(),
    };
    let descripcion_value = match descripcion {
        Some(d) => d,
        None => "Sin descripción disponible".to_owned(),
    };
    let raw: i64 = match resonancia {
        Some(v) => v,
        None => 500,
    };
    let intensity: u32 = if raw < 0 {
        0
    } else if raw > 1000 {
        1000
    } else {
        raw as u32
    };
    let mut emociones: Vec<(String, u32)> = Vec::new();
    emociones.push((emotion_type.to_owned(), intensity));
    Some(
        CandidateGame {
            id: id_value,
            nombre: nombre_value,
            descripcion: descripcion_value,
            emociones,
            generos: match generos {
                Some(g) => g,
                None => Vec::new(),
            },
            caracteristicas: match caracteristicas {
                Some(cs) => cs,
                None => Vec::new(),
            },
            relaciones_genero: Vec::new(),
            relaciones_caracteristica: Vec::new(),
            duracion_max,
        },
    )
}

} // verus!
