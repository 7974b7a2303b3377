//! ScoringEngine behaviour: score composition, exclusion filters, ranking
//! and the fallback cascade.

use game_soul::recommendation::GameRecommendation;
use game_soul::scoring::CandidateGame;
use game_soul::scoring::NextStep;
use game_soul::scoring::QueryOutcome;
use game_soul::scoring::after_alternative_query;
use game_soul::scoring::after_primary_query;
use game_soul::scoring::combine_score_exec;
use game_soul::scoring::rank_candidates;
use game_soul::scoring::score_candidate;
use game_soul::scoring::single_emotion_profile;
use game_soul::scoring::sort_recommendations;

fn strings(names: &[&str]) -> Vec<String> {
    names.iter().map(|s| s.to_string()).collect()
}

fn candidate(id: &str, intensity: u32, characteristics: &[&str], duration_max: Option<i32>) -> CandidateGame {
    CandidateGame {
        id: id.to_string(),
        nombre: format!("Juego {}", id),
        descripcion: "Una descripción".to_string(),
        emociones: vec![("relajante".to_string(), intensity)],
        generos: strings(&["simulación"]),
        caracteristicas: strings(characteristics),
        relaciones_genero: Vec::new(),
        relaciones_caracteristica: Vec::new(),
        duracion_max: duration_max,
    }
}

#[test]
fn score_composition_is_exact() {
    // direct 0.8, genre 0.6, characteristic 0.4 => total 1.22.
    assert_eq!(combine_score_exec(8000, 6000, 4000), 122000);
}

#[test]
fn direct_score_sums_matched_intensities() {
    let profile = single_emotion_profile("u", "relajante");
    let rec = score_candidate(&profile, candidate("g1", 900, &[], None), true);
    // One matched edge of 0.9: direct component 9000, total 90000.
    let breakdown = rec.resonancia_desglosada.unwrap();
    assert_eq!(breakdown.directa, 9000);
    assert_eq!(breakdown.por_genero, 0);
    assert_eq!(breakdown.por_caracteristica, 0);
    assert_eq!(rec.resonancia, 90000);
    assert_eq!(rec.emociones_coincidentes, vec!["relajante".to_string()]);
}

#[test]
fn mediated_signals_use_inner_and_outer_weights() {
    let profile = single_emotion_profile("u", "relajante");
    let mut c = candidate("g1", 800, &["atmósfera"], None);
    c.relaciones_genero = vec![("simulación".to_string(), "relajante".to_string(), 600)];
    c.relaciones_caracteristica = vec![("atmósfera".to_string(), "relajante".to_string(), 400)];
    let rec = score_candidate(&profile, c, true);
    let b = rec.resonancia_desglosada.unwrap();
    // direct 0.8 -> 8000; genre 0.6·0.5 -> 3000; characteristic 0.4·0.3 -> 1200.
    assert_eq!(b.directa, 8000);
    assert_eq!(b.por_genero, 3000);
    assert_eq!(b.por_caracteristica, 1200);
    // total = 0.8·1.0 + 0.3·0.5 + 0.12·0.3 in SCORE_SCALE units.
    assert_eq!(rec.resonancia, 10 * 8000 + 5 * 3000 + 3 * 1200);
}

#[test]
fn unrelated_emotions_do_not_score() {
    let profile = single_emotion_profile("u", "desafiante");
    let rec = score_candidate(&profile, candidate("g1", 900, &[], None), true);
    assert_eq!(rec.resonancia, 0);
}

#[test]
fn dealbreakers_exclude_tagged_games() {
    // The scenario: profile {relajante: 0.9, contemplativo: 0.1},
    // dealbreakers ["combate"], one candidate tagged combate, one not.
    let questions = game_soul::questionnaire::create_questionnaire();
    let answers = vec![
        ("tipo_experiencia".to_string(), "relajante".to_string()),
        ("tiempo_disponible".to_string(), "medio".to_string()),
        ("estado_animo".to_string(), "tranquilo".to_string()),
        ("actividad_preferida".to_string(), "construir".to_string()),
        ("meta_emocional".to_string(), "calma".to_string()),
    ];
    let profile = game_soul::profile::build_emotional_profile("u", &answers, &questions).unwrap();
    let tagged = candidate("combatiente", 900, &["combate"], None);
    let clean = candidate("tranquilo", 700, &["atmósfera"], None);
    let ranked = rank_candidates(
        &profile,
        vec![tagged, clean],
        &strings(&["combate"]),
        0,
        &Vec::new(),
        true,
        5,
    );
    assert_eq!(ranked.len(), 1);
    assert_eq!(ranked[0].id, "tranquilo");
    for rec in &ranked {
        for d in &strings(&["combate"]) {
            assert!(!rec.caracteristicas.contains(d));
        }
    }
}

#[test]
fn short_duration_bands_are_excluded() {
    let profile = single_emotion_profile("u", "relajante");
    let candidates = vec![
        candidate("corto", 900, &[], Some(60)),
        candidate("largo", 800, &[], Some(480)),
        candidate("sin_banda", 700, &[], None),
    ];
    let ranked = rank_candidates(&profile, candidates, &Vec::new(), 120, &Vec::new(), true, 5);
    let ids: Vec<&str> = ranked.iter().map(|r| r.id.as_str()).collect();
    assert_eq!(ids, vec!["largo", "sin_banda"]);
}

#[test]
fn played_games_are_excluded() {
    let profile = single_emotion_profile("u", "relajante");
    let candidates = vec![candidate("ya_jugado", 900, &[], None), candidate("nuevo", 500, &[], None)];
    let ranked = rank_candidates(
        &profile,
        candidates,
        &Vec::new(),
        0,
        &strings(&["ya_jugado"]),
        true,
        5,
    );
    assert_eq!(ranked.len(), 1);
    assert_eq!(ranked[0].id, "nuevo");
}

#[test]
fn ranking_sorts_by_score_descending() {
    let profile = single_emotion_profile("u", "relajante");
    let candidates = vec![
        candidate("medio", 500, &[], None),
        candidate("alto", 900, &[], None),
        candidate("bajo", 100, &[], None),
    ];
    let ranked = rank_candidates(&profile, candidates, &Vec::new(), 0, &Vec::new(), true, 5);
    let ids: Vec<&str> = ranked.iter().map(|r| r.id.as_str()).collect();
    assert_eq!(ids, vec!["alto", "medio", "bajo"]);
}

#[test]
fn equal_scores_keep_input_order() {
    let profile = single_emotion_profile("u", "relajante");
    let candidates = vec![
        candidate("primero", 700, &[], None),
        candidate("segundo", 700, &[], None),
        candidate("tercero", 700, &[], None),
    ];
    let ranked = rank_candidates(&profile, candidates, &Vec::new(), 0, &Vec::new(), true, 5);
    let ids: Vec<&str> = ranked.iter().map(|r| r.id.as_str()).collect();
    assert_eq!(ids, vec!["primero", "segundo", "tercero"]);
}

#[test]
fn result_limit_truncates() {
    let profile = single_emotion_profile("u", "relajante");
    let candidates = (0..8).map(|i| candidate(&format!("g{}", i), 100 * (i + 1), &[], None)).collect();
    let ranked = rank_candidates(&profile, candidates, &Vec::new(), 0, &Vec::new(), true, 5);
    assert_eq!(ranked.len(), 5);
    assert_eq!(ranked[0].id, "g7");
}

#[test]
fn breakdown_is_omitted_on_request() {
    let profile = single_emotion_profile("u", "relajante");
    let rec = score_candidate(&profile, candidate("g", 600, &[], None), false);
    assert!(rec.resonancia_desglosada.is_none());
}

fn rec(id: &str, score: u64) -> GameRecommendation {
    GameRecommendation {
        id: id.to_string(),
        nombre: id.to_string(),
        descripcion: String::new(),
        resonancia: score,
        resonancia_desglosada: None,
        generos: Vec::new(),
        caracteristicas: Vec::new(),
        emociones_coincidentes: Vec::new(),
    }
}

#[test]
fn sort_is_stable_for_ties() {
    let sorted = sort_recommendations(vec![rec("a", 10), rec("b", 30), rec("c", 30), rec("d", 20)]);
    let ids: Vec<&str> = sorted.iter().map(|r| r.id.as_str()).collect();
    assert_eq!(ids, vec!["b", "c", "d", "a"]);
}

#[test]
fn primary_rows_are_delivered_when_nonempty() {
    match after_primary_query(QueryOutcome::Rows(vec![rec("a", 1)])) {
        NextStep::Deliver(v) => assert_eq!(v.len(), 1),
        _ => panic!("expected the rows delivered"),
    }
}

#[test]
fn empty_primary_rows_try_the_alternative() {
    assert!(matches!(
        after_primary_query(QueryOutcome::Rows(Vec::new())),
        NextStep::TryAlternative
    ));
}

#[test]
fn failed_primary_uses_the_fallback() {
    assert!(matches!(after_primary_query(QueryOutcome::Failed), NextStep::UseFallback));
}

#[test]
fn alternative_rows_are_delivered_even_empty() {
    assert!(matches!(
        after_alternative_query(QueryOutcome::Rows(Vec::new())),
        NextStep::Deliver(v) if v.is_empty()
    ));
    assert!(matches!(after_alternative_query(QueryOutcome::Failed), NextStep::UseFallback));
}
