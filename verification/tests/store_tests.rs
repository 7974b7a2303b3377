//! The datastore boundary: save plans, stored-profile reconstruction,
//! reference fallbacks, the structure check and request accessors.

use game_soul::catalog::DurationRange;
use game_soul::profile::EmotionalProfile;
use game_soul::recommendation::RecommendationRequest;
use game_soul::recommendation::validate_recommendation_request;
use game_soul::store::GraphWrite;
use game_soul::store::characteristics_or_default;
use game_soul::store::check_structure_counts;
use game_soul::store::emotions_or_default;
use game_soul::store::profile_from_store;
use game_soul::store::profile_save_plan;
use game_soul::store::questionnaire_characteristic_names;
use game_soul::store::questionnaire_emotion_names;
use game_soul::AppError;

fn profile(weights: &[(&str, u64)], dominant: &str, band: DurationRange) -> EmotionalProfile {
    let emotions: Vec<(String, u64)> = weights.iter().map(|(e, w)| (e.to_string(), *w)).collect();
    let weight_total = emotions.iter().map(|e| e.1).sum();
    EmotionalProfile {
        user_id: "u1".to_string(),
        emotions,
        weight_total,
        dominant_emotion: dominant.to_string(),
        time_available: band,
    }
}

#[test]
fn save_plan_writes_state_duration_and_significant_resonances() {
    let p = profile(
        &[("relajante", 3000), ("contemplativo", 1600), ("creativo", 900)],
        "relajante",
        DurationRange::Corto,
    );
    let plan = profile_save_plan(&p);
    assert_eq!(plan.len(), 7);
    assert!(matches!(&plan[0], GraphWrite::EnsureUser { user_id } if user_id == "u1"));
    assert!(matches!(&plan[1], GraphWrite::ClearEmotionalState { user_id } if user_id == "u1"));
    match &plan[2] {
        GraphWrite::SetEmotionalState { emotion, weight_num, weight_den, .. } => {
            assert_eq!(emotion, "relajante");
            assert_eq!((*weight_num, *weight_den), (3000, 5500));
        }
        other => panic!("unexpected third write: {:?}", other),
    }
    assert!(matches!(
        &plan[3],
        GraphWrite::SetPreferredDuration { band: DurationRange::Corto, .. }
    ));
    match &plan[4] {
        GraphWrite::UpsertResonance { emotion, weight_num, weight_den, .. } => {
            assert_eq!(emotion, "relajante");
            assert_eq!((*weight_num, *weight_den), (3000, 5500));
        }
        other => panic!("unexpected resonance write: {:?}", other),
    }
}

#[test]
fn save_plan_skips_insignificant_weights() {
    // 100/1000 is exactly one tenth: not significant; 900/1000 is.
    let p = profile(&[("relajante", 900), ("contemplativo", 100)], "relajante", DurationRange::Medio);
    let plan = profile_save_plan(&p);
    assert_eq!(plan.len(), 5);
    assert!(matches!(
        &plan[4],
        GraphWrite::UpsertResonance { emotion, .. } if emotion == "relajante"
    ));
}

#[test]
fn save_plan_of_empty_profile_uses_a_whole_unit() {
    let p = profile(&[], "neutral", DurationRange::Medio);
    let plan = profile_save_plan(&p);
    assert_eq!(plan.len(), 4);
    match &plan[2] {
        GraphWrite::SetEmotionalState { weight_num, weight_den, .. } => {
            assert_eq!((*weight_num, *weight_den), (1, 1));
        }
        other => panic!("unexpected write: {:?}", other),
    }
}

#[test]
fn stored_profile_needs_a_dominant_emotion() {
    assert!(profile_from_store("u", None, None, &Vec::new()).is_none());
}

#[test]
fn stored_profile_rebuilds_clamped_weights() {
    let rows = vec![
        ("relajante".to_string(), 1500u32),
        ("social".to_string(), 0u32),
        ("alegre".to_string(), 400u32),
        ("alegre".to_string(), 100u32),
    ];
    let p = profile_from_store(
        "u",
        Some("relajante".to_string()),
        Some("largo".to_string()),
        &rows,
    )
    .unwrap();
    assert_eq!(p.dominant_emotion, "relajante");
    assert_eq!(p.time_available, DurationRange::Largo);
    assert_eq!(
        p.emotions,
        vec![("relajante".to_string(), 1000u64), ("alegre".to_string(), 500u64)]
    );
    assert_eq!(p.weight_total, 1500);
}

#[test]
fn stored_profile_defaults_the_band() {
    let p = profile_from_store("u", Some("social".to_string()), None, &Vec::new()).unwrap();
    assert_eq!(p.time_available, DurationRange::Medio);
    assert_eq!(p.weight_total, 0);
}

#[test]
fn reference_lists_fall_back_to_the_catalog() {
    let from_db = emotions_or_default(Some(vec!["calma".to_string()]));
    assert_eq!(from_db.len(), 1);
    assert_eq!(from_db[0].tipo, "calma");
    assert!(from_db[0].descripcion.is_none());

    let defaulted = emotions_or_default(Some(Vec::new()));
    assert_eq!(defaulted.len(), 9);
    assert_eq!(emotions_or_default(None).len(), 9);

    let chars = characteristics_or_default(None);
    assert_eq!(chars.len(), 18);
}

#[test]
fn questionnaire_names_fall_back_to_defaults() {
    assert_eq!(
        questionnaire_emotion_names(Some(vec!["x".to_string()])),
        vec!["x".to_string()]
    );
    let names = questionnaire_emotion_names(None);
    assert_eq!(names.len(), 9);
    assert_eq!(names[0], "alegre");
    let dealbreakers = questionnaire_characteristic_names(Some(Vec::new()));
    assert_eq!(dealbreakers, vec!["combate", "difícil", "social", "rápido"]);
}

#[test]
fn structure_check_requires_each_count() {
    assert!(check_structure_counts(9, 30, 120).is_ok());
    assert!(matches!(
        check_structure_counts(0, 30, 120),
        Err(AppError::DatabaseError(_))
    ));
    assert!(matches!(
        check_structure_counts(9, 0, 120),
        Err(AppError::DatabaseError(_))
    ));
    assert!(matches!(
        check_structure_counts(9, 30, 0),
        Err(AppError::DatabaseError(_))
    ));
}

fn request(estado: &str, tiempo: Option<i32>) -> RecommendationRequest {
    RecommendationRequest {
        estado_emocional: estado.to_string(),
        tiempo_disponible: tiempo,
        dealbreakers: None,
        incluir_exploracion: None,
    }
}

#[test]
fn request_accessors_apply_defaults() {
    let r = request("relajante", None);
    assert_eq!(r.get_tiempo_disponible(), 60);
    assert!(r.get_dealbreakers().is_empty());
    assert!(r.should_include_exploration());
    let r2 = RecommendationRequest {
        estado_emocional: "social".to_string(),
        tiempo_disponible: Some(45),
        dealbreakers: Some(vec!["combate".to_string()]),
        incluir_exploracion: Some(false),
    };
    assert_eq!(r2.get_tiempo_disponible(), 45);
    assert_eq!(r2.get_dealbreakers(), vec!["combate".to_string()]);
    assert!(!r2.should_include_exploration());
}

#[test]
fn request_validation_bounds_the_minutes() {
    assert!(validate_recommendation_request(&request("relajante", None)).is_ok());
    assert!(validate_recommendation_request(&request("relajante", Some(5))).is_ok());
    assert!(validate_recommendation_request(&request("relajante", Some(1440))).is_ok());
    assert!(matches!(
        validate_recommendation_request(&request("", None)),
        Err(AppError::ValidationError(_))
    ));
    assert!(matches!(
        validate_recommendation_request(&request("relajante", Some(4))),
        Err(AppError::ValidationError(_))
    ));
    assert!(matches!(
        validate_recommendation_request(&request("relajante", Some(1441))),
        Err(AppError::ValidationError(_))
    ));
}
