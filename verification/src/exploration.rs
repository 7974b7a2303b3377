//! ExplorationSelector: diversity-biased suggestions from genres the user
//! has not played recently.
//!
//! Candidates need at least one genre outside the user's recent window, must
//! not have been played, and must pass the duration filter. Each one gets a
//! randomized score from a seedable generator — deliberately
//! non-deterministic across requests, reproducible under a fixed seed — with
//! a small offset keeping it above zero.

use vstd::prelude::*;
use crate::recommendation::GameRecommendation;
use crate::recommendation::ResonanciaDesglosada;
use crate::scoring::CandidateGame;
use crate::scoring::contains_string;
use crate::scoring::in_strings;
use crate::scoring::passes_duration;
use crate::scoring::sort_desc;
use crate::scoring::sort_recommendations;
use crate::scoring::sorted_desc;
use crate::scoring::lemma_sort_desc_all;
use crate::scoring::lemma_sort_desc_sorted;

verus! {

/// How far back the genre-history window reaches: thirty days, in
/// milliseconds.
pub const EXPLORATION_WINDOW_MILLIS: i64 = 2592000000;

/// How many exploration suggestions a request gets at most.
pub const EXPLORATION_LIMIT: usize = 3;

/// The linear-congruential step of the exploration generator.
pub open spec fn lcg_next(s: u64) -> u64 {
    vstd::wrapping::u64_specs::wrapping_add(
        vstd::wrapping::u64_specs::wrapping_mul(s, 6364136223846793005),
        1442695040888963407,
    )
}

/// The generator state after `n` steps from `s`.
pub open spec fn lcg_iter(s: u64, n: nat) -> u64
    decreases n,
{
    if n == 0 {
        s
    } else {
        lcg_next(lcg_iter(s, (n - 1) as nat))
    }
}

/// A seedable pseudo-random generator for exploration scores: the same seed
/// reproduces the same ordering, so tests can pin it down.
#[derive(Debug, Clone, Copy)]
pub struct ExplorationRng {
    pub state: u64,
}

impl ExplorationRng {
    /// Start the generator from a seed.
    pub fn new(seed: u64) -> (r: ExplorationRng)
        ensures
            r.state == seed,
    {
        ExplorationRng { state: seed }
    }

    /// Draw the next value.
    pub fn next_value(&mut self) -> (r: u64)
        ensures
            final(self).state == lcg_next(old(self).state),
            r == final(self).state,
    {
        self.state = self.state.wrapping_mul(6364136223846793005).wrapping_add(
            1442695040888963407,
        );
        self.state
    }
}

/// The exploration score a draw yields, in `SCORE_SCALE` units: uniform
/// below one, offset away from exact zero.
pub open spec fn spec_exploration_score(rand: u64) -> int {
    1000 + rand % 99000
}

/// One play of the user's history, with the game's genres and the moment it
/// was last played (milliseconds since the epoch).
#[derive(Debug)]
pub struct PlayedGame {
    pub game_id: String,
    pub genres: Vec<String>,
    pub played_at: i64,
}

/// Whether a genre was played within the window before `now`.
pub open spec fn genre_recent(plays: Seq<PlayedGame>, now: int, g: Seq<char>) -> bool {
    exists|i: int|
        0 <= i < plays.len() && (#[trigger] plays[i]).played_at + EXPLORATION_WINDOW_MILLIS >= now
            && in_strings(plays[i].genres@, g)
}

/// The genres the user played within the window before `now`, each once, in
/// first-played order.
pub fn recent_genres(plays: &Vec<PlayedGame>, now_millis: i64) -> (r: Vec<String>)
    ensures
        forall|k: int| 0 <= k < r@.len() ==> genre_recent(plays@, now_millis as int, (#[trigger] r@[k])@),
        forall|i: int, j: int|
            0 <= i < plays@.len() && (#[trigger] plays@[i]).played_at + EXPLORATION_WINDOW_MILLIS
                >= now_millis && 0 <= j < plays@[i].genres@.len() ==> in_strings(
                r@,
                (#[trigger] plays@[i].genres@[j])@,
            ),
        forall|k: int, l: int| 0 <= k < l < r@.len() ==> (#[trigger] r@[k])@ != (#[trigger] r@[l])@,
{
    let mut r: Vec<String> = Vec::new();
    let n = plays.len();
    let mut i: usize = 0;
    while i < n
        invariant
            0 <= i <= n,
            n == plays@.len(),
            forall|k: int|
                0 <= k < r@.len() ==> genre_recent(plays@, now_millis as int, (#[trigger] r@[k])@),
            forall|a: int, j: int|
                0 <= a < i && (#[trigger] plays@[a]).played_at + EXPLORATION_WINDOW_MILLIS
                    >= now_millis && 0 <= j < plays@[a].genres@.len() ==> in_strings(
                    r@,
                    (#[trigger] plays@[a].genres@[j])@,
                ),
            forall|k: int, l: int|
                0 <= k < l < r@.len() ==> (#[trigger] r@[k])@ != (#[trigger] r@[l])@,
        decreases n - i,
    {
        let within = (plays[i].played_at as i128) + (EXPLORATION_WINDOW_MILLIS as i128)
            >= (now_millis as i128);
        if within {
            let gn = plays[i].genres.len();
            let mut j: usize = 0;
            while j < gn
                invariant
                    0 <= j <= gn,
                    0 <= i < n,
                    n == plays@.len(),
                    gn == plays@[i as int].genres@.len(),
                    plays@[i as int].played_at + EXPLORATION_WINDOW_MILLIS >= now_millis,
                    forall|k: int|
                        0 <= k < r@.len() ==> genre_recent(
                            plays@,
                            now_millis as int,
                            (#[trigger] r@[k])@,
                        ),
                    forall|a: int, b: int|
                        0 <= a < i && (#[trigger] plays@[a]).played_at
                            + EXPLORATION_WINDOW_MILLIS >= now_millis && 0 <= b
                            < plays@[a].genres@.len() ==> in_strings(
                            r@,
                            (#[trigger] plays@[a].genres@[b])@,
                        ),
                    forall|b: int|
                        0 <= b < j ==> in_strings(r@, (#[trigger] plays@[i as int].genres@[b])@),
                    forall|k: int, l: int|
                        0 <= k < l < r@.len() ==> (#[trigger] r@[k])@ != (#[trigger] r@[l])@,
                decreases gn - j,
            {
                let g = &plays[i].genres[j];
                if !contains_string(&r, g) {
                    let ghost before = r@;
                    r.push(g.clone());
                    proof {
                        assert(r@ =~= before.push(plays@[i as int].genres@[j as int]));
                        let last = r@.len() - 1;
                        assert(r@[last]@ == plays@[i as int].genres@[j as int]@);
                        assert(in_strings(r@, plays@[i as int].genres@[j as int]@));
                        assert forall|k: int| 0 <= k < r@.len() implies genre_recent(
                            plays@,
                            now_millis as int,
                            (#[trigger] r@[k])@,
                        ) by {
                            if k < last {
                                assert(r@[k] == before[k]);
                            } else {
                                assert(plays@[i as int].played_at + EXPLORATION_WINDOW_MILLIS
                                    >= now_millis && in_strings(
                                    plays@[i as int].genres@,
                                    r@[k]@,
                                ));
                            }
                        }
                        assert forall|a: int, b: int|
                            0 <= a < i && (#[trigger] plays@[a]).played_at
                                + EXPLORATION_WINDOW_MILLIS >= now_millis && 0 <= b
                                < plays@[a].genres@.len() implies in_strings(
                            r@,
                            (#[trigger] plays@[a].genres@[b])@,
                        ) by {
                            assert(in_strings(before, plays@[a].genres@[b]@));
                            let w = choose|w: int|
                                0 <= w < before.len() && (#[trigger] before[w])@
                                    == plays@[a].genres@[b]@;
                            assert(r@[w]@ == plays@[a].genres@[b]@);
                        }
                        assert forall|b: int| 0 <= b < j + 1 implies in_strings(
                            r@,
                            (#[trigger] plays@[i as int].genres@[b])@,
                        ) by {
                            if b < j {
                                assert(in_strings(before, plays@[i as int].genres@[b]@));
                                let w = choose|w: int|
                                    0 <= w < before.len() && (#[trigger] before[w])@
                                        == plays@[i as int].genres@[b]@;
                                assert(r@[w]@ == plays@[i as int].genres@[b]@);
                            }
                        }
                        assert forall|k: int, l: int| 0 <= k < l < r@.len() implies (
                        #[trigger] r@[k])@ != (#[trigger] r@[l])@ by {
                            if l == last {
                                assert(r@[k] == before[k]);
                                assert(!in_strings(before, r@[last]@));
                            } else {
                                assert(r@[k] == before[k]);
                                assert(r@[l] == before[l]);
                            }
                        }
                    }
                } else {
                    proof {
                        assert(in_strings(r@, plays@[i as int].genres@[j as int]@));
                    }
                }
                j += 1;
            }
        }
        i += 1;
    }
    r
}

/// Whether a candidate qualifies for exploration: at least one genre
/// outside the recent set, not already played, and long enough.
pub open spec fn explore_eligible(
    c: CandidateGame,
    recent: Seq<String>,
    min_minutes: i32,
    played: Seq<String>,
) -> bool {
    &&& exists|i: int| 0 <= i < c.generos@.len() && !in_strings(recent, (#[trigger] c.generos@[i])@)
    &&& passes_duration(c.duracion_max, min_minutes)
    &&& !in_strings(played, c.id@)
}

fn has_genre_outside(generos: &Vec<String>, recent: &Vec<String>) -> (r: bool)
    ensures
        r == exists|i: int|
            0 <= i < generos@.len() && !in_strings(recent@, (#[trigger] generos@[i])@),
{
    let n = generos.len();
    let mut i: usize = 0;
    while i < n
        invariant
            0 <= i <= n,
            n == generos@.len(),
            forall|j: int| 0 <= j < i ==> in_strings(recent@, (#[trigger] generos@[j])@),
        decreases n - i,
    {
        if !contains_string(recent, &generos[i]) {
            return true;
        }
        i += 1;
    }
    false
}

fn explore_eligible_exec(
    c: &CandidateGame,
    recent: &Vec<String>,
    min_minutes: i32,
    played: &Vec<String>,
) -> (r: bool)
    ensures
        r == explore_eligible(*c, recent@, min_minutes, played@),
{
    if !has_genre_outside(&c.generos, recent) {
        return false;
    }
    match c.duracion_max {
        Some(m) => {
            if m < min_minutes {
                return false;
            }
        },
        None => {},
    }
    if contains_string(played, &c.id) {
        return false;
    }
    true
}

/// The candidates that qualify for exploration, in input order.
pub open spec fn explorable_candidates(
    cs: Seq<CandidateGame>,
    recent: Seq<String>,
    min_minutes: i32,
    played: Seq<String>,
) -> Seq<CandidateGame> {
    cs.filter(|c: CandidateGame| explore_eligible(c, recent, min_minutes, played))
}

/// Whether `scored` scores the explorable candidates one for one, in input
/// order, the `k`-th candidate with the generator's `k+1`-th draw from the
/// seed `s0`.
pub open spec fn scores_explorable(
    scored: Seq<GameRecommendation>,
    candidates: Seq<CandidateGame>,
    recent: Seq<String>,
    min_minutes: i32,
    played: Seq<String>,
    s0: u64,
) -> bool {
    let elegibles = explorable_candidates(candidates, recent, min_minutes, played);
    &&& scored.len() == elegibles.len()
    &&& (forall|k: int|
        0 <= k < scored.len() ==> exploration_rec(
            #[trigger] scored[k],
            elegibles[k],
            lcg_iter(s0, (k + 1) as nat),
        ))
}

/// What an exploration suggestion says of its candidate: names, genres and
/// characteristics carried over, the synthetic exploration tag as the
/// matched emotion, a zero breakdown, and the randomized score of its draw.
pub open spec fn exploration_rec(r: GameRecommendation, c: CandidateGame, rand: u64) -> bool {
    &&& r.id == c.id
    &&& r.nombre == c.nombre
    &&& r.descripcion == c.descripcion
    &&& r.generos == c.generos
    &&& r.caracteristicas == c.caracteristicas
    &&& r.emociones_coincidentes@.len() == 1
    &&& r.emociones_coincidentes@[0]@ == "exploración"@
    &&& r.resonancia == spec_exploration_score(rand)
    &&& r.resonancia_desglosada == Some(
        (ResonanciaDesglosada { directa: 0, por_genero: 0, por_caracteristica: 0 }),
    )
}

/// Whether a suggestion is an exploration-scored image of some eligible
/// candidate, with a score drawn within the first `max_draws` states of the
/// generator seeded `s0`.
pub open spec fn exploration_pick(
    y: GameRecommendation,
    cs: Seq<CandidateGame>,
    recent: Seq<String>,
    min_minutes: i32,
    played: Seq<String>,
    s0: u64,
    max_draws: nat,
) -> bool {
    exists|k: int, n: nat|
        #![trigger cs[k], lcg_iter(s0, n)]
        0 <= k < cs.len() && 1 <= n <= max_draws && explore_eligible(
            cs[k],
            recent,
            min_minutes,
            played,
        ) && exploration_rec(y, cs[k], lcg_iter(s0, n))
}

fn score_exploration(c: CandidateGame, rng: &mut ExplorationRng) -> (r: GameRecommendation)
    ensures
        final(rng).state == lcg_next(old(rng).state),
        exploration_rec(r, c, final(rng).state),
{
    let draw = rng.next_value();
    let score: u64 = 1000 + draw % 99000;
    let mut emociones_coincidentes: Vec<String> = Vec::new();
    emociones_coincidentes.push("exploración".to_owned());
    GameRecommendation {
        id: c.id,
        nombre: c.nombre,
        descripcion: c.descripcion,
        resonancia: score,
        resonancia_desglosada: Some(
            ResonanciaDesglosada { directa: 0, por_genero: 0, por_caracteristica: 0 },
        ),
        generos: c.generos,
        caracteristicas: c.caracteristicas,
        emociones_coincidentes,
    }
}

/// Pick exploration suggestions: keep the candidates with a genre outside
/// the recent window that pass the played and duration filters, give each a
/// randomized score (one generator draw per eligible candidate, in input
/// order), rank by score and keep at most `limit`.
pub fn select_exploration(
    candidates: Vec<CandidateGame>,
    recent: &Vec<String>,
    min_minutes: i32,
    played: &Vec<String>,
    rng: &mut ExplorationRng,
    limit: usize,
) -> (r: Vec<GameRecommendation>)
    ensures
        r@.len() <= limit,
        sorted_desc(r@),
        final(rng).state == lcg_iter(
            old(rng).state,
            explorable_candidates(candidates@, recent@, min_minutes, played@).len() as nat,
        ),
        exists|scored: Seq<GameRecommendation>|
            {
                &&& #[trigger] scores_explorable(
                    scored,
                    candidates@,
                    recent@,
                    min_minutes,
                    played@,
                    old(rng).state,
                )
                &&& r@ == if limit <= scored.len() {
                    sort_desc(scored).take(limit as int)
                } else {
                    sort_desc(scored)
                }
            },
        forall|i: int|
            0 <= i < r@.len() ==> exploration_pick(
                #[trigger] r@[i],
                candidates@,
                recent@,
                min_minutes,
                played@,
                old(rng).state,
                candidates@.len() as nat,
            ),
{
    let ghost orig = candidates@;
    let ghost s0 = rng.state;
    let mut input = candidates;
    let total = input.len();
    proof {
        assert(orig.len() == total as int);
    }
    let ghost elig = |c: CandidateGame| explore_eligible(c, recent@, min_minutes, played@);
    let mut scored: Vec<GameRecommendation> = Vec::new();
    let mut processed: usize = 0;
    while input.len() > 0
        invariant
            0 <= processed <= orig.len() <= usize::MAX,
            processed + input@.len() == orig.len(),
            input@ == orig.skip(processed as int),
            elig == (|c: CandidateGame| explore_eligible(c, recent@, min_minutes, played@)),
            scored@.len() == orig.take(processed as int).filter(elig).len(),
            scored@.len() <= processed,
            rng.state == lcg_iter(s0, scored@.len() as nat),
            forall|k: int|
                0 <= k < scored@.len() ==> exploration_rec(
                    #[trigger] scored@[k],
                    orig.take(processed as int).filter(elig)[k],
                    lcg_iter(s0, (k + 1) as nat),
                ),
            forall|i: int|
                0 <= i < scored@.len() ==> exploration_pick(
                    #[trigger] scored@[i],
                    orig,
                    recent@,
                    min_minutes,
                    played@,
                    s0,
                    orig.len() as nat,
                ),
        decreases input@.len(),
    {
        let c = input.remove(0);
        proof {
            reveal_with_fuel(Seq::<CandidateGame>::filter, 2);
            assert(c == orig[processed as int]);
            assert(input@ =~= orig.skip(processed as int + 1));
            assert(orig.take(processed as int + 1).drop_last() =~= orig.take(processed as int));
            assert(orig.take(processed as int + 1).last() == orig[processed as int]);
        }
        if explore_eligible_exec(&c, recent, min_minutes, played) {
            let ghost k = processed as int;
            let ghost draws: nat = (scored@.len() + 1) as nat;
            let rec = score_exploration(c, rng);
            proof {
                assert(rng.state == lcg_iter(s0, draws));
                assert(explore_eligible(orig[k], recent@, min_minutes, played@));
                assert(exploration_rec(rec, orig[k], lcg_iter(s0, draws)));
                assert(1 <= draws <= orig.len());
                assert(orig.take(k + 1).filter(elig) =~= orig.take(k).filter(elig).push(orig[k]));
            }
            scored.push(rec);
        }
        processed += 1;
    }
    let ghost pick = |y: GameRecommendation|
        exploration_pick(y, orig, recent@, min_minutes, played@, s0, orig.len() as nat);
    let ghost scored_view = scored@;
    proof {
        assert(orig.take(orig.len() as int) =~= orig);
        assert(forall|i: int| 0 <= i < scored@.len() ==> pick(#[trigger] scored@[i]));
        lemma_sort_desc_all(scored@, pick);
        lemma_sort_desc_sorted(scored@);
    }
    let mut ranked = sort_recommendations(scored);
    ranked.truncate(limit);
    proof {
        assert(scores_explorable(scored_view, orig, recent@, min_minutes, played@, s0));
    }
    ranked
}

} // verus!
