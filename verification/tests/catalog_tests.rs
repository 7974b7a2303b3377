//! Reference data: duration bands, vocabularies, the canonical
//! questionnaire and the static fallback catalog.

use game_soul::catalog::DurationRange;
use game_soul::catalog::get_available_characteristics;
use game_soul::catalog::get_available_emotions;
use game_soul::catalog::get_dealbreaker_characteristics;
use game_soul::fallback::generate_fallback_recommendations;
use game_soul::questionnaire::QuestionOptionValue;
use game_soul::questionnaire::create_questionnaire;

#[test]
fn duration_bands_have_the_catalog_ranges() {
    assert_eq!(DurationRange::MuyCorto.get_range_values(), (0, 30));
    assert_eq!(DurationRange::Corto.get_range_values(), (30, 60));
    assert_eq!(DurationRange::Medio.get_range_values(), (60, 180));
    assert_eq!(DurationRange::Largo.get_range_values(), (180, 480));
    assert_eq!(DurationRange::MuyLargo.get_range_values(), (480, 9999));
}

#[test]
fn duration_bands_are_contiguous_and_cover_from_zero() {
    let bands = [
        DurationRange::MuyCorto,
        DurationRange::Corto,
        DurationRange::Medio,
        DurationRange::Largo,
        DurationRange::MuyLargo,
    ];
    assert_eq!(bands[0].get_range_values().0, 0);
    for w in bands.windows(2) {
        assert_eq!(w[0].get_range_values().1, w[1].get_range_values().0);
    }
}

#[test]
fn duration_names_and_descriptions_match_the_store() {
    assert_eq!(DurationRange::MuyCorto.get_db_name(), "muy_corto");
    assert_eq!(DurationRange::MuyLargo.get_db_name(), "muy_largo");
    assert_eq!(DurationRange::Medio.get_description(), "Entre 1 y 3 horas");
}

#[test]
fn duration_round_trips_through_its_name() {
    for band in [
        DurationRange::MuyCorto,
        DurationRange::Corto,
        DurationRange::Medio,
        DurationRange::Largo,
        DurationRange::MuyLargo,
    ] {
        assert_eq!(DurationRange::from_db_name(band.get_db_name()), band);
    }
    assert_eq!(DurationRange::from_db_name("desconocido"), DurationRange::Medio);
}

#[test]
fn duration_filter_passes_exactly_at_the_band_maximum() {
    assert!(DurationRange::Corto.allows_minutes(60));
    assert!(!DurationRange::Corto.allows_minutes(61));
    assert!(DurationRange::MuyLargo.allows_minutes(1440));
}

#[test]
fn emotion_catalog_has_nine_entries() {
    let emotions = get_available_emotions();
    assert_eq!(emotions.len(), 9);
    assert_eq!(emotions[0].tipo, "alegre");
    assert_eq!(emotions[8].tipo, "creativo");
    assert!(emotions.iter().all(|e| e.descripcion.is_some()));
}

#[test]
fn characteristic_catalog_has_eighteen_entries() {
    let characteristics = get_available_characteristics();
    assert_eq!(characteristics.len(), 18);
    assert_eq!(characteristics[0].nombre, "social");
    assert_eq!(characteristics[17].nombre, "estilizado");
}

#[test]
fn dealbreaker_catalog_lists_the_four_usual_suspects() {
    assert_eq!(
        get_dealbreaker_characteristics(),
        vec!["combate", "difícil", "social", "rápido"]
    );
}

#[test]
fn questionnaire_has_the_five_canonical_questions() {
    let questions = create_questionnaire();
    assert_eq!(questions.len(), 5);
    let ids: Vec<&str> = questions.iter().map(|q| q.id.as_str()).collect();
    assert_eq!(
        ids,
        vec![
            "tipo_experiencia",
            "tiempo_disponible",
            "estado_animo",
            "actividad_preferida",
            "meta_emocional"
        ]
    );
    let counts: Vec<usize> = questions.iter().map(|q| q.options.len()).collect();
    assert_eq!(counts, vec![5, 5, 6, 5, 5]);
}

#[test]
fn questionnaire_emotion_weights_are_in_thousandths() {
    let questions = create_questionnaire();
    match &questions[0].options[0].value {
        QuestionOptionValue::EmotionMapping(m) => {
            assert_eq!(
                m,
                &vec![("relajante".to_string(), 900), ("contemplativo".to_string(), 400)]
            );
        }
        _ => panic!("the first experience option maps emotions"),
    }
    match &questions[1].options[4].value {
        QuestionOptionValue::TimeValue(band) => assert_eq!(*band, DurationRange::MuyLargo),
        _ => panic!("the time question selects duration bands"),
    }
}

#[test]
fn fallback_catalog_serves_the_known_emotions() {
    let relajante = generate_fallback_recommendations("relajante");
    assert_eq!(relajante.len(), 3);
    assert_eq!(relajante[0].id, "game1");
    assert_eq!(relajante[0].resonancia, 95000);
    assert!(relajante.iter().all(|r| r.emociones_coincidentes == vec!["relajante".to_string()]));

    let desafiante = generate_fallback_recommendations("desafiante");
    assert_eq!(desafiante.len(), 3);
    assert_eq!(desafiante[0].id, "game16");

    let creativo = generate_fallback_recommendations("creativo");
    assert_eq!(creativo.len(), 2);
    assert_eq!(creativo[0].id, "game11");

    let social = generate_fallback_recommendations("social");
    assert_eq!(social.len(), 2);
    assert_eq!(social[0].id, "game13");

    let exploracion = generate_fallback_recommendations("exploración");
    assert_eq!(exploracion.len(), 3);
    assert_eq!(exploracion[0].id, "game21");
}

#[test]
fn fallback_catalog_has_a_contemplative_default() {
    let other = generate_fallback_recommendations("melancólico");
    assert_eq!(other.len(), 1);
    assert_eq!(other[0].id, "game27");
    assert_eq!(other[0].resonancia, 80000);
    assert_eq!(other[0].emociones_coincidentes, vec!["contemplativo".to_string()]);
}
