//! ExplorationSelector behaviour: the recent-genre window, the eligibility
//! filters, and the seeded randomized scoring.

use game_soul::exploration::ExplorationRng;
use game_soul::exploration::PlayedGame;
use game_soul::exploration::recent_genres;
use game_soul::exploration::select_exploration;
use game_soul::scoring::CandidateGame;

const DAY_MILLIS: i64 = 86_400_000;

fn strings(names: &[&str]) -> Vec<String> {
    names.iter().map(|s| s.to_string()).collect()
}

fn played(game: &str, genres: &[&str], played_at: i64) -> PlayedGame {
    PlayedGame { game_id: game.to_string(), genres: strings(genres), played_at }
}

fn candidate(id: &str, genres: &[&str]) -> CandidateGame {
    CandidateGame {
        id: id.to_string(),
        nombre: id.to_string(),
        descripcion: String::new(),
        emociones: Vec::new(),
        generos: strings(genres),
        caracteristicas: Vec::new(),
        relaciones_genero: Vec::new(),
        relaciones_caracteristica: Vec::new(),
        duracion_max: None,
    }
}

#[test]
fn recent_window_keeps_only_the_last_thirty_days() {
    let now = 100 * DAY_MILLIS;
    let plays = vec![
        played("g1", &["acción"], now - DAY_MILLIS),
        played("g2", &["estrategia"], now - 31 * DAY_MILLIS),
        played("g3", &["puzzle", "acción"], now - 29 * DAY_MILLIS),
    ];
    let recent = recent_genres(&plays, now);
    assert_eq!(recent, strings(&["acción", "puzzle"]));
}

#[test]
fn recent_genres_are_deduplicated() {
    let now = 40 * DAY_MILLIS;
    let plays = vec![
        played("g1", &["acción"], now),
        played("g2", &["acción", "aventura"], now),
    ];
    assert_eq!(recent_genres(&plays, now), strings(&["acción", "aventura"]));
}

#[test]
fn exploration_prefers_unexplored_genres() {
    let recent = strings(&["acción"]);
    let candidates = vec![
        candidate("conocido", &["acción"]),
        candidate("nuevo", &["estrategia"]),
    ];
    let mut rng = ExplorationRng::new(7);
    let picks = select_exploration(candidates, &recent, 0, &Vec::new(), &mut rng, 3);
    assert_eq!(picks.len(), 1);
    assert_eq!(picks[0].id, "nuevo");
    assert_eq!(picks[0].emociones_coincidentes, vec!["exploración".to_string()]);
    let breakdown = picks[0].resonancia_desglosada.unwrap();
    assert_eq!(breakdown.directa, 0);
    assert_eq!(breakdown.por_genero, 0);
    assert_eq!(breakdown.por_caracteristica, 0);
}

#[test]
fn exploration_returns_at_most_three_uniquely_scored_entries() {
    let candidates = vec![
        candidate("a", &["estrategia"]),
        candidate("b", &["puzzle"]),
        candidate("c", &["aventura"]),
        candidate("d", &["deporte"]),
        candidate("e", &["carreras"]),
    ];
    let mut rng = ExplorationRng::new(42);
    let picks = select_exploration(candidates, &Vec::new(), 0, &Vec::new(), &mut rng, 3);
    assert_eq!(picks.len(), 3);
    for p in &picks {
        assert!(p.resonancia > 0);
        assert!(p.resonancia < 100000);
    }
    assert!(picks[0].resonancia >= picks[1].resonancia);
    assert!(picks[1].resonancia >= picks[2].resonancia);
    assert!(picks[0].resonancia != picks[1].resonancia);
    assert!(picks[1].resonancia != picks[2].resonancia);
    assert!(picks[0].resonancia != picks[2].resonancia);
}

#[test]
fn different_seeds_give_different_scores() {
    let make = || vec![candidate("a", &["estrategia"]), candidate("b", &["puzzle"])];
    let mut rng1 = ExplorationRng::new(1);
    let mut rng2 = ExplorationRng::new(2);
    let p1 = select_exploration(make(), &Vec::new(), 0, &Vec::new(), &mut rng1, 3);
    let p2 = select_exploration(make(), &Vec::new(), 0, &Vec::new(), &mut rng2, 3);
    let s1: Vec<u64> = p1.iter().map(|r| r.resonancia).collect();
    let s2: Vec<u64> = p2.iter().map(|r| r.resonancia).collect();
    assert_ne!(s1, s2);
}

#[test]
fn same_seed_reproduces_the_selection() {
    let make = || vec![candidate("a", &["estrategia"]), candidate("b", &["puzzle"])];
    let mut rng1 = ExplorationRng::new(99);
    let mut rng2 = ExplorationRng::new(99);
    let p1 = select_exploration(make(), &Vec::new(), 0, &Vec::new(), &mut rng1, 3);
    let p2 = select_exploration(make(), &Vec::new(), 0, &Vec::new(), &mut rng2, 3);
    let ids1: Vec<&str> = p1.iter().map(|r| r.id.as_str()).collect();
    let ids2: Vec<&str> = p2.iter().map(|r| r.id.as_str()).collect();
    assert_eq!(ids1, ids2);
    assert_eq!(rng1.state, rng2.state);
}

#[test]
fn exploration_respects_played_and_duration_filters() {
    let candidates = vec![
        {
            let mut c = candidate("corto", &["estrategia"]);
            c.duracion_max = Some(30);
            c
        },
        candidate("jugado", &["puzzle"]),
        candidate("valido", &["aventura"]),
    ];
    let mut rng = ExplorationRng::new(5);
    let picks = select_exploration(
        candidates,
        &Vec::new(),
        60,
        &strings(&["jugado"]),
        &mut rng,
        3,
    );
    assert_eq!(picks.len(), 1);
    assert_eq!(picks[0].id, "valido");
}
