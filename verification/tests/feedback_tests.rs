//! FeedbackProcessor behaviour: deltas, clamping, sentinel emotions and
//! request validation.

use game_soul::feedback::apply_feedback;
use game_soul::feedback::effective_emotions;
use game_soul::feedback::resonance_update;
use game_soul::feedback::satisfaction_delta;
use game_soul::recommendation::FeedbackRequest;
use game_soul::recommendation::validate_feedback_request;
use game_soul::AppError;

#[test]
fn deltas_cover_the_rating_scale() {
    assert_eq!(satisfaction_delta(1), -200);
    assert_eq!(satisfaction_delta(2), -100);
    assert_eq!(satisfaction_delta(3), 0);
    assert_eq!(satisfaction_delta(4), 100);
    assert_eq!(satisfaction_delta(5), 200);
}

#[test]
fn neutral_feedback_on_fresh_edge_sets_half_intensity() {
    // satisfaction 3 => delta 0 => exactly 0.5.
    assert_eq!(resonance_update(None, 3), 500);
}

#[test]
fn fresh_edge_moves_from_half_intensity() {
    assert_eq!(resonance_update(None, 5), 700);
    assert_eq!(resonance_update(None, 1), 300);
}

#[test]
fn repeated_positive_feedback_converges_to_one_and_stays() {
    let mut intensity: Option<u32> = None;
    let mut seen = Vec::new();
    for _ in 0..10 {
        let next = resonance_update(intensity, 5);
        seen.push(next);
        intensity = Some(next);
    }
    assert_eq!(seen[0], 700);
    assert_eq!(seen[1], 900);
    assert_eq!(seen[2], 1000);
    for v in &seen {
        assert!(*v <= 1000);
    }
    assert_eq!(*seen.last().unwrap(), 1000);
}

#[test]
fn repeated_negative_feedback_clamps_at_zero() {
    let mut intensity: Option<u32> = None;
    for _ in 0..10 {
        let next = resonance_update(intensity, 1);
        assert!(next <= 1000);
        intensity = Some(next);
    }
    assert_eq!(intensity, Some(0));
}

#[test]
fn out_of_range_previous_values_are_clamped() {
    assert_eq!(apply_feedback(Some(4000), -200), 1000);
    assert_eq!(apply_feedback(Some(100), -200), 0);
    assert_eq!(apply_feedback(Some(950), 200), 1000);
}

#[test]
fn missing_emotions_default_to_the_neutral_sentinel() {
    assert_eq!(effective_emotions(&None), vec!["neutral".to_string()]);
    let given = Some(vec!["alegre".to_string(), "social".to_string()]);
    assert_eq!(effective_emotions(&given), vec!["alegre".to_string(), "social".to_string()]);
}

fn feedback(user: &str, game: &str, satisfaction: i32) -> FeedbackRequest {
    FeedbackRequest {
        user_id: user.to_string(),
        game_id: game.to_string(),
        satisfaction,
        emotions_experienced: None,
        comments: None,
    }
}

#[test]
fn feedback_validation_checks_ids_and_range() {
    assert!(validate_feedback_request(&feedback("u", "g", 3)).is_ok());
    assert!(matches!(
        validate_feedback_request(&feedback("", "g", 3)),
        Err(AppError::ValidationError(_))
    ));
    assert!(matches!(
        validate_feedback_request(&feedback("u", "", 3)),
        Err(AppError::ValidationError(_))
    ));
    assert!(matches!(
        validate_feedback_request(&feedback("u", "g", 0)),
        Err(AppError::ValidationError(_))
    ));
    assert!(matches!(
        validate_feedback_request(&feedback("u", "g", 6)),
        Err(AppError::ValidationError(_))
    ));
}
