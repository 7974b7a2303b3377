//! ProfileBuilder behaviour: accumulation, normalization, dominant-emotion
//! selection, duration selection and validation.

use game_soul::profile::build_emotional_profile;
use game_soul::profile::calculate_emotional_profile;
use game_soul::profile::dominant_emotion_of;
use game_soul::profile::selected_duration;
use game_soul::profile::total_weight;
use game_soul::profile::validate_answers;
use game_soul::questionnaire::create_questionnaire;
use game_soul::catalog::DurationRange;
use game_soul::AppError;

fn answers(pairs: &[(&str, &str)]) -> Vec<(String, String)> {
    pairs.iter().map(|(q, o)| (q.to_string(), o.to_string())).collect()
}

fn full_answers() -> Vec<(String, String)> {
    answers(&[
        ("tipo_experiencia", "relajante"),
        ("tiempo_disponible", "corto"),
        ("estado_animo", "tranquilo"),
        ("actividad_preferida", "construir"),
        ("meta_emocional", "calma"),
    ])
}

#[test]
fn accumulates_weights_per_emotion() {
    let questions = create_questionnaire();
    let acc = calculate_emotional_profile(&full_answers(), &questions);
    // relajante: 900 + 800 + 400 + 900; contemplativo: 400 + 600 + 600;
    // creativo: 900 — in first-contribution order.
    assert_eq!(acc.len(), 3);
    assert_eq!(acc[0].0, "relajante");
    assert_eq!(acc[0].1, 3000);
    assert_eq!(acc[1].0, "contemplativo");
    assert_eq!(acc[1].1, 1600);
    assert_eq!(acc[2].0, "creativo");
    assert_eq!(acc[2].1, 900);
}

#[test]
fn normalized_weights_sum_to_one() {
    let questions = create_questionnaire();
    let profile = build_emotional_profile("u1", &full_answers(), &questions).unwrap();
    let sum: u64 = profile.emotions.iter().map(|e| e.1).sum();
    assert_eq!(sum, profile.weight_total);
    assert_eq!(profile.weight_total, 5500);
}

#[test]
fn empty_contribution_leaves_empty_map() {
    let questions = create_questionnaire();
    let acc = calculate_emotional_profile(&answers(&[("tiempo_disponible", "corto")]), &questions);
    assert!(acc.is_empty());
    assert_eq!(total_weight(&acc), 0);
}

#[test]
fn dominant_emotion_is_deterministic() {
    let questions = create_questionnaire();
    let p1 = build_emotional_profile("u1", &full_answers(), &questions).unwrap();
    let p2 = build_emotional_profile("u1", &full_answers(), &questions).unwrap();
    assert_eq!(p1.dominant_emotion, p2.dominant_emotion);
    assert_eq!(p1.dominant_emotion, "relajante");
}

#[test]
fn dominant_tie_breaks_to_first_accumulated() {
    // Two entries with the same weight: the first accumulated wins.
    let entries = vec![("alegre".to_string(), 700u64), ("social".to_string(), 700u64)];
    assert_eq!(dominant_emotion_of(&entries), "alegre");
}

#[test]
fn dominant_of_empty_profile_is_neutral() {
    let entries: Vec<(String, u64)> = Vec::new();
    assert_eq!(dominant_emotion_of(&entries), "neutral");
}

#[test]
fn duration_answer_selects_band_last_one_wins() {
    let questions = create_questionnaire();
    assert_eq!(
        selected_duration(&answers(&[("tiempo_disponible", "muy_largo")]), &questions),
        DurationRange::MuyLargo
    );
    // No duration answer: the default band.
    assert_eq!(selected_duration(&answers(&[]), &questions), DurationRange::Medio);
}

#[test]
fn build_profile_keeps_selected_band() {
    let questions = create_questionnaire();
    let profile = build_emotional_profile("u9", &full_answers(), &questions).unwrap();
    assert_eq!(profile.time_available, DurationRange::Corto);
    assert_eq!(profile.user_id, "u9");
}

#[test]
fn unanswered_question_is_rejected() {
    let questions = create_questionnaire();
    let partial = answers(&[("tipo_experiencia", "relajante")]);
    match validate_answers(&partial, &questions) {
        Err(AppError::ValidationError(_)) => {}
        other => panic!("expected a validation error, got {:?}", other.is_ok()),
    }
}

#[test]
fn unknown_option_is_rejected() {
    let questions = create_questionnaire();
    let mut a = full_answers();
    a[0].1 = "inexistente".to_string();
    assert!(matches!(
        validate_answers(&a, &questions),
        Err(AppError::ValidationError(_))
    ));
}

#[test]
fn unknown_question_is_rejected() {
    let questions = create_questionnaire();
    let mut a = full_answers();
    a.push(("pregunta_falsa".to_string(), "si".to_string()));
    assert!(matches!(
        validate_answers(&a, &questions),
        Err(AppError::ValidationError(_))
    ));
}

#[test]
fn duplicate_question_is_rejected() {
    let questions = create_questionnaire();
    let mut a = full_answers();
    a.push(("tipo_experiencia".to_string(), "emocion".to_string()));
    assert!(matches!(
        validate_answers(&a, &questions),
        Err(AppError::ValidationError(_))
    ));
}

#[test]
fn complete_answers_validate() {
    let questions = create_questionnaire();
    assert!(validate_answers(&full_answers(), &questions).is_ok());
}

#[test]
fn build_profile_rejects_invalid_and_accepts_valid() {
    let questions = create_questionnaire();
    assert!(build_emotional_profile("u", &answers(&[]), &questions).is_err());
    assert!(build_emotional_profile("u", &full_answers(), &questions).is_ok());
}
