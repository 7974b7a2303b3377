//! Recommendation data model: the scored recommendation the engine returns,
//! the direct-request and feedback payloads, and their validation rules.
//!
//! Scores use exact integer scales: an edge intensity is in thousandths of
//! one (`INTENSITY_SCALE`), a score component in ten-thousandths
//! (`COMPONENT_SCALE`), and a composite score in hundred-thousandths
//! (`SCORE_SCALE`), so that the fixed policy multipliers 1.0 / 0.5 / 0.3
//! are exact integer factors.

use vstd::prelude::*;
use crate::error::AppError;

verus! {

/// One whole unit of edge intensity, in thousandths.
pub const INTENSITY_SCALE: u32 = 1000;

/// One whole unit of a score component, in ten-thousandths.
pub const COMPONENT_SCALE: u64 = 10000;

/// One whole unit of a composite score, in hundred-thousandths.
pub const SCORE_SCALE: u64 = 100000;

/// The components of a composite resonance score, in `COMPONENT_SCALE`
/// units: the direct game–emotion signal, and the signals mediated by
/// genres and by characteristics.
#[derive(Debug, Clone, Copy, PartialEq, Eq, Structural)]
pub struct ResonanciaDesglosada {
    pub directa: u64,
    pub por_genero: u64,
    pub por_caracteristica: u64,
}

/// A scored game recommendation, in `SCORE_SCALE` units.
#[derive(Debug)]
pub struct GameRecommendation {
    pub id: String,
    pub nombre: String,
    pub descripcion: String,
    pub resonancia: u64,
    pub resonancia_desglosada: Option<ResonanciaDesglosada>,
    pub generos: Vec<String>,
    pub caracteristicas: Vec<String>,
    pub emociones_coincidentes: Vec<String>,
}

/// A direct recommendation request: a bare emotional state, the available
/// minutes, the characteristics to exclude, and whether exploration
/// suggestions are welcome.
#[derive(Debug)]
pub struct RecommendationRequest {
    pub estado_emocional: String,
    pub tiempo_disponible: Option<i32>,
    pub dealbreakers: Option<Vec<String>>,
    pub incluir_exploracion: Option<bool>,
}

/// Copy a list of names.
pub fn clone_strings(v: &Vec<String>) -> (r: Vec<String>)
    ensures
        r@ == v@,
{
    let mut r: Vec<String> = Vec::new();
    let n = v.len();
    let mut i: usize = 0;
    while i < n
        invariant
            0 <= i <= n,
            n == v@.len(),
            r@ == v@.take(i as int),
        decreases n - i,
    {
        r.push(v[i].clone());
        proof {
            assert(r@ =~= v@.take(i + 1));
        }
        i += 1;
    }
    proof {
        assert(v@.take(n as int) =~= v@);
    }
    r
}

impl RecommendationRequest {
    /// The available minutes, defaulting to one hour.
    pub fn get_tiempo_disponible(&self) -> (r: i32)
        ensures
            r == match self.tiempo_disponible {
                Some(t) => t,
                None => 60,
            },
    {
        match self.tiempo_disponible {
            Some(t) => t,
            None => 60,
        }
    }

    /// The characteristics to exclude, defaulting to none.
    pub fn get_dealbreakers(&self) -> (r: Vec<String>)
        ensures
            r@ == match self.dealbreakers {
                Some(d) => d@,
                None => Seq::<String>::empty(),
            },
    {
        match &self.dealbreakers {
            Some(d) => clone_strings(d),
            None => Vec::new(),
        }
    }

    /// Whether exploration suggestions are welcome, defaulting to yes.
    pub fn should_include_exploration(&self) -> (r: bool)
        ensures
            r == match self.incluir_exploracion {
                Some(b) => b,
                None => true,
            },
    {
        match self.incluir_exploracion {
            Some(b) => b,
            None => true,
        }
    }
}

/// A valid direct request: a non-empty emotional state, and available
/// minutes between five minutes and a full day when given.
pub open spec fn spec_valid_recommendation_request(r: &RecommendationRequest) -> bool {
    &&& r.estado_emocional@.len() >= 1
    &&& match r.tiempo_disponible {
        Some(t) => 5 <= t <= 1440,
        None => true,
    }
}

/// Validate a direct recommendation request.
pub fn validate_recommendation_request(req: &RecommendationRequest) -> (r: Result<(), AppError>)
    ensures
        r is Ok <==> spec_valid_recommendation_request(req),
        r is Err ==> r->Err_0 is ValidationError,
{
    if req.estado_emocional.as_str().is_empty() {
        return Err(
            AppError::ValidationError("el estado emocional no puede estar vacío".to_owned()),
        );
    }
    match req.tiempo_disponible {
        Some(t) => {
            if t < 5 || t > 1440 {
                return Err(
                    AppError::ValidationError(
                        "el tiempo debe estar entre 5 minutos y 24 horas".to_owned(),
                    ),
                );
            }
        },
        None => {},
    }
    Ok(())
}

/// The response to a recommendation request: the emotionally ranked list,
/// and optionally a separate exploration list.
#[derive(Debug)]
pub struct RecommendationResponse {
    pub recomendaciones_emocionales: Vec<GameRecommendation>,
    pub recomendaciones_exploracion: Option<Vec<GameRecommendation>>,
}

impl RecommendationResponse {
    /// Bundle the two recommendation lists.
    pub fn new(
        recomendaciones_emocionales: Vec<GameRecommendation>,
        recomendaciones_exploracion: Option<Vec<GameRecommendation>>,
    ) -> (r: RecommendationResponse)
        ensures
            r.recomendaciones_emocionales == recomendaciones_emocionales,
            r.recomendaciones_exploracion == recomendaciones_exploracion,
    {
        RecommendationResponse { recomendaciones_emocionales, recomendaciones_exploracion }
    }
}

/// A feedback submission: who played what, how satisfying it was (1–5), and
/// optionally which emotions the play actually evoked.
#[derive(Debug)]
pub struct FeedbackRequest {
    pub user_id: String,
    pub game_id: String,
    pub satisfaction: i32,
    pub emotions_experienced: Option<Vec<String>>,
    pub comments: Option<String>,
}

/// A valid feedback submission: non-empty user and game identifiers, and a
/// satisfaction rating between one and five.
pub open spec fn spec_valid_feedback_request(r: &FeedbackRequest) -> bool {
    &&& r.user_id@.len() >= 1
    &&& r.game_id@.len() >= 1
    &&& 1 <= r.satisfaction <= 5
}

/// Validate a feedback submission.
pub fn validate_feedback_request(req: &FeedbackRequest) -> (r: Result<(), AppError>)
    ensures
        r is Ok <==> spec_valid_feedback_request(req),
        r is Err ==> r->Err_0 is ValidationError,
{
    if req.user_id.as_str().is_empty() {
        return Err(
            AppError::ValidationError("el ID de usuario no puede estar vacío".to_owned()),
        );
    }
    if req.game_id.as_str().is_empty() {
        return Err(AppError::ValidationError("el ID del juego no puede estar vacío".to_owned()));
    }
    if req.satisfaction < 1 || req.satisfaction > 5 {
        return Err(
            AppError::ValidationError("la satisfacción debe estar entre 1 y 5".to_owned()),
        );
    }
    Ok(())
}

} // verus!
