//! The questionnaire: its data model and the canonical five-question set.
//!
//! Every emotion contribution is an intensity in thousandths
//! (`INTENSITY_SCALE` of `crate::scoring`), so the canonical `0.9` becomes
//! `900`. A well-formed option never contributes more than `1000` per
//! emotion, which bounds every later accumulation.

use vstd::prelude::*;
use crate::catalog::DurationRange;

verus! {

/// What a question asks about.
#[derive(Debug, Clone, Copy, PartialEq, Eq, Structural)]
pub enum QuestionType {
    EmotionalState,
    TimeAvailable,
    ActivityPreference,
    MoodState,
    GoalState,
}

/// What choosing an option contributes: emotion intensities (in
/// thousandths), a duration band, or an opaque string value.
#[derive(Debug)]
pub enum QuestionOptionValue {
    EmotionMapping(Vec<(String, u32)>),
    TimeValue(DurationRange),
    StringValue(String),
}

/// One selectable option of a question.
#[derive(Debug)]
pub struct QuestionOption {
    pub id: String,
    pub text: String,
    pub value: QuestionOptionValue,
}

/// One question with its options.
#[derive(Debug)]
pub struct QuestionnaireQuestion {
    pub id: String,
    pub text: String,
    pub question_type: QuestionType,
    pub options: Vec<QuestionOption>,
}

/// A filled-in questionnaire: the ordered (question, chosen option) pairs.
/// The transport layer receives the answers as a map keyed by question id
/// and hands them over in its iteration order; the order only breaks ties.
#[derive(Debug)]
pub struct QuestionnaireSubmission {
    pub user_id: String,
    pub answers: Vec<(String, String)>,
    pub dealbreakers: Option<Vec<String>>,
}

/// What `GET /questionnaire` answers: the questions and the vocabularies.
#[derive(Debug)]
pub struct QuestionnaireResponse {
    pub questions: Vec<QuestionnaireQuestion>,
    pub available_emotions: Vec<String>,
    pub available_characteristics: Vec<String>,
}

/// The emotion contributions of an option, over views.
pub open spec fn opt_pairs(o: QuestionOption) -> Seq<(Seq<char>, u32)> {
    match o.value {
        QuestionOptionValue::EmotionMapping(m) => m@.map_values(|p: (String, u32)| (p.0@, p.1)),
        QuestionOptionValue::TimeValue(_) => Seq::empty(),
        QuestionOptionValue::StringValue(_) => Seq::empty(),
    }
}

/// An option that contributes exactly the given emotion intensities.
pub open spec fn is_emotion_option(
    o: QuestionOption,
    id: Seq<char>,
    pairs: Seq<(Seq<char>, u32)>,
) -> bool {
    &&& o.id@ == id
    &&& o.value is EmotionMapping
    &&& opt_pairs(o) == pairs
}

/// An option that selects the given duration band.
pub open spec fn is_time_option(o: QuestionOption, id: Seq<char>, band: DurationRange) -> bool {
    &&& o.id@ == id
    &&& o.value == QuestionOptionValue::TimeValue(band)
}

/// A well-formed option value: every emotion contribution is positive and at
/// most one whole intensity unit, and an option carries few of them.
pub open spec fn wf_value(v: QuestionOptionValue) -> bool {
    match v {
        QuestionOptionValue::EmotionMapping(m) => {
            &&& m@.len() <= 8
            &&& forall|i: int| 0 <= i < m@.len() ==> 0 < (#[trigger] m@[i]).1 <= 1000
        },
        QuestionOptionValue::TimeValue(_) => true,
        QuestionOptionValue::StringValue(_) => true,
    }
}

/// A well-formed question: a bounded option list of well-formed values.
pub open spec fn wf_question(q: QuestionnaireQuestion) -> bool {
    &&& q.options@.len() <= 16
    &&& forall|i: int| 0 <= i < q.options@.len() ==> wf_value((#[trigger] q.options@[i]).value)
}

/// A well-formed question set: bounded, of well-formed questions.
pub open spec fn wf_questionnaire(qs: Seq<QuestionnaireQuestion>) -> bool {
    &&& qs.len() <= 100
    &&& forall|i: int| 0 <= i < qs.len() ==> wf_question(#[trigger] qs[i])
}

fn emotion_pair(emotion: &str, intensity: u32) -> (r: (String, u32))
    ensures
        r.0@ == emotion@,
        r.1 == intensity,
{
    (emotion.to_owned(), intensity)
}

fn emotion_option_2(
    id: &str,
    text: &str,
    e1: &str,
    w1: u32,
    e2: &str,
    w2: u32,
) -> (o: QuestionOption)
    requires
        0 < w1 <= 1000,
        0 < w2 <= 1000,
    ensures
        is_emotion_option(o, id@, seq![(e1@, w1), (e2@, w2)]),
        wf_value(o.value),
{
    let mut m: Vec<(String, u32)> = Vec::new();
    m.push(emotion_pair(e1, w1));
    m.push(emotion_pair(e2, w2));
    let o = QuestionOption {
        id: id.to_owned(),
        text: text.to_owned(),
        value: QuestionOptionValue::EmotionMapping(m),
    };
    proof {
        assert(opt_pairs(o) =~= seq![(e1@, w1), (e2@, w2)]);
    }
    o
}

fn emotion_option_3(
    id: &str,
    text: &str,
    e1: &str,
    w1: u32,
    e2: &str,
    w2: u32,
    e3: &str,
    w3: u32,
) -> (o: QuestionOption)
    requires
        0 < w1 <= 1000,
        0 < w2 <= 1000,
        0 < w3 <= 1000,
    ensures
        is_emotion_option(o, id@, seq![(e1@, w1), (e2@, w2), (e3@, w3)]),
        wf_value(o.value),
{
    let mut m: Vec<(String, u32)> = Vec::new();
    m.push(emotion_pair(e1, w1));
    m.push(emotion_pair(e2, w2));
    m.push(emotion_pair(e3, w3));
    let o = QuestionOption {
        id: id.to_owned(),
        text: text.to_owned(),
        value: QuestionOptionValue::EmotionMapping(m),
    };
    proof {
        assert(opt_pairs(o) =~= seq![(e1@, w1), (e2@, w2), (e3@, w3)]);
    }
    o
}

fn time_option(id: &str, text: &str, band: DurationRange) -> (o: QuestionOption)
    ensures
        is_time_option(o, id@, band),
        wf_value(o.value),
{
    QuestionOption {
        id: id.to_owned(),
        text: text.to_owned(),
        value: QuestionOptionValue::TimeValue(band),
    }
}

/// The canonical experience question.
pub open spec fn wf_q_experience(q: QuestionnaireQuestion) -> bool {
    &&& q.id@ == "tipo_experiencia"@
    &&& q.question_type == QuestionType::EmotionalState
    &&& q.options@.len() == 5
    &&& is_emotion_option(
        q.options@[0],
        "relajante"@,
        seq![("relajante"@, 900u32), ("contemplativo"@, 400u32)],
    )
    &&& is_emotion_option(
        q.options@[1],
        "emocion"@,
        seq![("desafiante"@, 700u32), ("alegre"@, 600u32)],
    )
    &&& is_emotion_option(
        q.options@[2],
        "desafio"@,
        seq![("desafiante"@, 900u32), ("competitivo"@, 500u32)],
    )
    &&& is_emotion_option(
        q.options@[3],
        "exploracion"@,
        seq![("exploración"@, 900u32), ("creativo"@, 400u32)],
    )
    &&& is_emotion_option(
        q.options@[4],
        "conexion"@,
        seq![("social"@, 900u32), ("alegre"@, 300u32)],
    )
}

fn question_experience() -> (q: QuestionnaireQuestion)
    ensures
        wf_q_experience(q),
        wf_question(q),
{
    let mut options: Vec<QuestionOption> = Vec::new();
    options.push(
        emotion_option_2(
            "relajante",
            "Relajarme",
            "relajante",
            900,
            "contemplativo",
            400,
        ),
    );
    options.push(
        emotion_option_2("emocion", "Sentir emoción", "desafiante", 700, "alegre", 600),
    );
    options.push(
        emotion_option_2("desafio", "Desafiarme", "desafiante", 900, "competitivo", 500),
    );
    options.push(
        emotion_option_2(
            "exploracion",
            "Explorar algo nuevo",
            "exploración",
            900,
            "creativo",
            400,
        ),
    );
    options.push(
        emotion_option_2("conexion", "Conectar con otros", "social", 900, "alegre", 300),
    );
    QuestionnaireQuestion {
        id: "tipo_experiencia".to_owned(),
        text: "¿Qué tipo de experiencia buscas ahora mismo?".to_owned(),
        question_type: QuestionType::EmotionalState,
        options,
    }
}

/// The canonical time-available question.
pub open spec fn wf_q_time(q: QuestionnaireQuestion) -> bool {
    &&& q.id@ == "tiempo_disponible"@
    &&& q.question_type == QuestionType::TimeAvailable
    &&& q.options@.len() == 5
    &&& is_time_option(q.options@[0], "muy_corto"@, DurationRange::MuyCorto)
    &&& is_time_option(q.options@[1], "corto"@, DurationRange::Corto)
    &&& is_time_option(q.options@[2], "medio"@, DurationRange::Medio)
    &&& is_time_option(q.options@[3], "largo"@, DurationRange::Largo)
    &&& is_time_option(q.options@[4], "muy_largo"@, DurationRange::MuyLargo)
}

fn question_time() -> (q: QuestionnaireQuestion)
    ensures
        wf_q_time(q),
        wf_question(q),
{
    let mut options: Vec<QuestionOption> = Vec::new();
    options.push(
        time_option(
            "muy_corto",
            "Muy poco (Menos de 30 minutos)",
            DurationRange::MuyCorto,
        ),
    );
    options.push(
        time_option("corto", "Poco (Entre 30 minutos y 1 hora)", DurationRange::Corto),
    );
    options.push(
        time_option("medio", "Moderado (Entre 1 y 3 horas)", DurationRange::Medio),
    );
    options.push(
        time_option("largo", "Bastante (Entre 3 y 8 horas)", DurationRange::Largo),
    );
    options.push(
        time_option("muy_largo", "Mucho (Más de 8 horas)", DurationRange::MuyLargo),
    );
    QuestionnaireQuestion {
        id: "tiempo_disponible".to_owned(),
        text: "¿Cuánto tiempo tienes disponible para jugar?".to_owned(),
        question_type: QuestionType::TimeAvailable,
        options,
    }
}

/// The canonical mood question.
pub open spec fn wf_q_mood(q: QuestionnaireQuestion) -> bool {
    &&& q.id@ == "estado_animo"@
    &&& q.question_type == QuestionType::MoodState
    &&& q.options@.len() == 6
    &&& is_emotion_option(
        q.options@[0],
        "energico"@,
        seq![("alegre"@, 700u32), ("desafiante"@, 600u32), ("competitivo"@, 500u32)],
    )
    &&& is_emotion_option(
        q.options@[1],
        "tranquilo"@,
        seq![("relajante"@, 800u32), ("contemplativo"@, 600u32)],
    )
    &&& is_emotion_option(
        q.options@[2],
        "aburrido"@,
        seq![("exploración"@, 700u32), ("desafiante"@, 500u32)],
    )
    &&& is_emotion_option(
        q.options@[3],
        "nostalgico"@,
        seq![("melancólico"@, 800u32), ("contemplativo"@, 600u32)],
    )
    &&& is_emotion_option(
        q.options@[4],
        "curioso"@,
        seq![("exploración"@, 900u32), ("creativo"@, 500u32)],
    )
    &&& is_emotion_option(
        q.options@[5],
        "estresado"@,
        seq![("relajante"@, 800u32), ("social"@, 400u32)],
    )
}

fn question_mood() -> (q: QuestionnaireQuestion)
    ensures
        wf_q_mood(q),
        wf_question(q),
{
    let mut options: Vec<QuestionOption> = Vec::new();
    options.push(
        emotion_option_3(
            "energico",
            "Enérgico",
            "alegre",
            700,
            "desafiante",
            600,
            "competitivo",
            500,
        ),
    );
    options.push(
        emotion_option_2(
            "tranquilo",
            "Tranquilo",
            "relajante",
            800,
            "contemplativo",
            600,
        ),
    );
    options.push(
        emotion_option_2("aburrido", "Aburrido", "exploración", 700, "desafiante", 500),
    );
    options.push(
        emotion_option_2(
            "nostalgico",
            "Nostálgico",
            "melancólico",
            800,
            "contemplativo",
            600,
        ),
    );
    options.push(
        emotion_option_2("curioso", "Curioso", "exploración", 900, "creativo", 500),
    );
    options.push(
        emotion_option_2("estresado", "Estresado", "relajante", 800, "social", 400),
    );
    QuestionnaireQuestion {
        id: "estado_animo".to_owned(),
        text: "¿Cómo describirías tu estado de ánimo actual?".to_owned(),
        question_type: QuestionType::MoodState,
        options,
    }
}

/// The canonical activity question.
pub open spec fn wf_q_activity(q: QuestionnaireQuestion) -> bool {
    &&& q.id@ == "actividad_preferida"@
    &&& q.question_type == QuestionType::ActivityPreference
    &&& q.options@.len() == 5
    &&& is_emotion_option(
        q.options@[0],
        "puzzle"@,
        seq![("desafiante"@, 700u32), ("contemplativo"@, 500u32)],
    )
    &&& is_emotion_option(
        q.options@[1],
        "historia"@,
        seq![("creativo"@, 800u32), ("social"@, 600u32)],
    )
    &&& is_emotion_option(
        q.options@[2],
        "construir"@,
        seq![("creativo"@, 900u32), ("relajante"@, 400u32)],
    )
    &&& is_emotion_option(
        q.options@[3],
        "competir"@,
        seq![("competitivo"@, 900u32), ("desafiante"@, 700u32)],
    )
    &&& is_emotion_option(
        q.options@[4],
        "descubrir"@,
        seq![("exploración"@, 900u32), ("alegre"@, 400u32)],
    )
}

fn question_activity() -> (q: QuestionnaireQuestion)
    ensures
        wf_q_activity(q),
        wf_question(q),
{
    let mut options: Vec<QuestionOption> = Vec::new();
    options.push(
        emotion_option_2(
            "puzzle",
            "Resolver un puzzle",
            "desafiante",
            700,
            "contemplativo",
            500,
        ),
    );
    options.push(
        emotion_option_2("historia", "Contar una historia", "creativo", 800, "social", 600),
    );
    options.push(
        emotion_option_2("construir", "Construir algo", "creativo", 900, "relajante", 400),
    );
    options.push(
        emotion_option_2("competir", "Competir", "competitivo", 900, "desafiante", 700),
    );
    options.push(
        emotion_option_2(
            "descubrir",
            "Descubrir un lugar nuevo",
            "exploración",
            900,
            "alegre",
            400,
        ),
    );
    QuestionnaireQuestion {
        id: "actividad_preferida".to_owned(),
        text: "Si tuvieras que elegir una actividad ahora mismo, ¿cuál sería?".to_owned(),
        question_type: QuestionType::ActivityPreference,
        options,
    }
}

/// The canonical goal question.
pub open spec fn wf_q_goal(q: QuestionnaireQuestion) -> bool {
    &&& q.id@ == "meta_emocional"@
    &&& q.question_type == QuestionType::GoalState
    &&& q.options@.len() == 5
    &&& is_emotion_option(
        q.options@[0],
        "satisfaccion"@,
        seq![("desafiante"@, 900u32), ("competitivo"@, 600u32)],
    )
    &&& is_emotion_option(
        q.options@[1],
        "calma"@,
        seq![("relajante"@, 900u32), ("contemplativo"@, 600u32)],
    )
    &&& is_emotion_option(
        q.options@[2],
        "asombro"@,
        seq![("exploración"@, 800u32), ("contemplativo"@, 500u32)],
    )
    &&& is_emotion_option(
        q.options@[3],
        "diversion"@,
        seq![("alegre"@, 900u32), ("social"@, 600u32)],
    )
    &&& is_emotion_option(
        q.options@[4],
        "conexion"@,
        seq![("melancólico"@, 600u32), ("contemplativo"@, 800u32)],
    )
}

fn question_goal() -> (q: QuestionnaireQuestion)
    ensures
        wf_q_goal(q),
        wf_question(q),
{
    let mut options: Vec<QuestionOption> = Vec::new();
    options.push(
        emotion_option_2(
            "satisfaccion",
            "Satisfacción por superar un reto",
            "desafiante",
            900,
            "competitivo",
            600,
        ),
    );
    options.push(
        emotion_option_2(
            "calma",
            "Calma y tranquilidad",
            "relajante",
            900,
            "contemplativo",
            600,
        ),
    );
    options.push(
        emotion_option_2(
            "asombro",
            "Asombro y curiosidad",
            "exploración",
            800,
            "contemplativo",
            500,
        ),
    );
    options.push(
        emotion_option_2(
            "diversion",
            "Diversión y alegría",
            "alegre",
            900,
            "social",
            600,
        ),
    );
    options.push(
        emotion_option_2(
            "conexion",
            "Conexión con una historia o personajes",
            "melancólico",
            600,
            "contemplativo",
            800,
        ),
    );
    QuestionnaireQuestion {
        id: "meta_emocional".to_owned(),
        text: "¿Qué te gustaría sentir después de jugar?".to_owned(),
        question_type: QuestionType::GoalState,
        options,
    }
}

/// The canonical five-question set: experience, time available, mood,
/// activity, goal.
pub fn create_questionnaire() -> (r: Vec<QuestionnaireQuestion>)
    ensures
        r@.len() == 5,
        wf_questionnaire(r@),
        wf_q_experience(r@[0]),
        wf_q_time(r@[1]),
        wf_q_mood(r@[2]),
        wf_q_activity(r@[3]),
        wf_q_goal(r@[4]),
{
    let mut r: Vec<QuestionnaireQuestion> = Vec::new();
    r.push(question_experience());
    r.push(question_time());
    r.push(question_mood());
    r.push(question_activity());
    r.push(question_goal());
    r
}

} // verus!
