//! FallbackCatalog: hand-curated recommendations keyed by emotion, served
//! only when every graph query path has failed. Scores are in
//! `SCORE_SCALE` units, so `95000` reads as a resonance of 0.95.

use vstd::prelude::*;
use crate::recommendation::GameRecommendation;

verus! {

fn fallback_rec(
    id: &str,
    nombre: &str,
    descripcion: &str,
    resonancia: u64,
    g1: &str,
    g2: Option<&str>,
    c1: &str,
    c2: Option<&str>,
    emocion: &str,
) -> (r: GameRecommendation)
    ensures
        r.id@ == id@,
        r.nombre@ == nombre@,
        r.descripcion@ == descripcion@,
        r.resonancia == resonancia,
        r.resonancia_desglosada is None,
        r.generos@[0]@ == g1@,
        match g2 {
            Some(g) => r.generos@.len() == 2 && r.generos@[1]@ == g@,
            None => r.generos@.len() == 1,
        },
        r.caracteristicas@[0]@ == c1@,
        match c2 {
            Some(c) => r.caracteristicas@.len() == 2 && r.caracteristicas@[1]@ == c@,
            None => r.caracteristicas@.len() == 1,
        },
        r.emociones_coincidentes@.len() == 1,
        r.emociones_coincidentes@[0]@ == emocion@,
{
    let mut generos: Vec<String> = Vec::new();
    generos.push(g1.to_owned());
    match g2 {
        Some(g) => generos.push(g.to_owned()),
        None => {},
    }
    let mut caracteristicas: Vec<String> = Vec::new();
    caracteristicas.push(c1.to_owned());
    match c2 {
        Some(c) => caracteristicas.push(c.to_owned()),
        None => {},
    }
    let mut emociones_coincidentes: Vec<String> = Vec::new();
    emociones_coincidentes.push(emocion.to_owned());
    GameRecommendation {
        id: id.to_owned(),
        nombre: nombre.to_owned(),
        descripcion: descripcion.to_owned(),
        resonancia,
        resonancia_desglosada: None,
        generos,
        caracteristicas,
        emociones_coincidentes,
    }
}

/// Every entry of a fallback list matches the emotion it was curated for.
pub open spec fn fallback_entries_match(s: Seq<GameRecommendation>, emocion: Seq<char>) -> bool {
    forall|i: int|
        0 <= i < s.len() ==> (#[trigger] s[i]).emociones_coincidentes@.len() == 1
            && s[i].emociones_coincidentes@[0]@ == emocion && s[i].resonancia_desglosada is None
}

/// The static fallback recommendations for an emotion: three curated games
/// for the relaxing, challenging and exploratory moods, two for the creative
/// and social ones, and a single contemplative pick for anything else.
pub fn generate_fallback_recommendations(emotion_type: &str) -> (r: Vec<GameRecommendation>)
    ensures
        emotion_type@ == "relajante"@ ==> r@.len() == 3 && r@[0].id@ == "game1"@
            && r@[0].resonancia == 95000 && r@[1].id@ == "game4"@ && r@[1].resonancia == 90000
            && r@[2].id@ == "game30"@ && r@[2].resonancia == 70000 && fallback_entries_match(
            r@,
            "relajante"@,
        ),
        emotion_type@ == "desafiante"@ ==> r@.len() == 3 && r@[0].id@ == "game16"@
            && r@[0].resonancia == 90000 && r@[1].id@ == "game28"@ && r@[1].resonancia == 90000
            && r@[2].id@ == "game12"@ && r@[2].resonancia == 85000 && fallback_entries_match(
            r@,
            "desafiante"@,
        ),
        emotion_type@ == "exploración"@ ==> r@.len() == 3 && r@[0].id@ == "game21"@
            && r@[0].resonancia == 90000 && r@[1].id@ == "game20"@ && r@[1].resonancia == 80000
            && r@[2].id@ == "game27"@ && r@[2].resonancia == 85000 && fallback_entries_match(
            r@,
            "exploración"@,
        ),
        emotion_type@ == "creativo"@ ==> r@.len() == 2 && r@[0].id@ == "game11"@
            && r@[0].resonancia == 90000 && r@[1].id@ == "game30"@ && r@[1].resonancia == 85000
            && fallback_entries_match(r@, "creativo"@),
        emotion_type@ == "social"@ ==> r@.len() == 2 && r@[0].id@ == "game13"@
            && r@[0].resonancia == 95000 && r@[1].id@ == "game29"@ && r@[1].resonancia == 85000
            && fallback_entries_match(r@, "social"@),
        emotion_type@ != "relajante"@ && emotion_type@ != "desafiante"@ && emotion_type@
            != "exploración"@ && emotion_type@ != "creativo"@ && emotion_type@ != "social"@
            ==> r@.len() == 1 && r@[0].id@ == "game27"@ && r@[0].resonancia == 80000
            && fallback_entries_match(r@, "contemplativo"@),
        r@.len() >= 1,
{
    proof {
        reveal_strlit("relajante");
        reveal_strlit("desafiante");
        reveal_strlit("exploración");
        reveal_strlit("creativo");
        reveal_strlit("social");
        reveal_strlit("contemplativo");
        assert("relajante"@.len() == 9);
        assert("desafiante"@.len() == 10);
        assert("exploración"@.len() == 11);
        assert("creativo"@.len() == 8);
        assert("social"@.len() == 6);
    }
    let e = emotion_type.to_owned();
    let mut r: Vec<GameRecommendation> = Vec::new();
    if e == "relajante".to_owned() {
        r.push(
            fallback_rec(
                "game1",
                "Stardew Valley",
                "Un juego de simulación de granja en el que puedes cultivar, pescar, minar y hacer amigos.",
                95000,
                "simulación",
                None,
                "relajante",
                Some("social"),
                "relajante",
            ),
        );
        r.push(
            fallback_rec(
                "game4",
                "Animal Crossing: New Horizons",
                "Un juego de simulación de vida donde construyes una comunidad en una isla desierta.",
                90000,
                "simulación",
                None,
                "coleccionable",
                Some("relajante"),
                "relajante",
            ),
        );
        r.push(
            fallback_rec(
                "game30",
                "Satisfactory",
                "Un juego de construcción de fábricas en primera persona en un planeta alienígena",
                70000,
                "simulación",
                Some("construcción"),
                "relajante",
                Some("creativo"),
                "relajante",
            ),
        );
    } else if e == "desafiante".to_owned() {
        r.push(
            fallback_rec(
                "game16",
                "Elden Ring",
                "Un RPG de acción de mundo abierto con combate desafiante y exploración no lineal",
                90000,
                "acción",
                Some("RPG"),
                "desafiante",
                Some("exploración"),
                "desafiante",
            ),
        );
        r.push(
            fallback_rec(
                "game28",
                "Slay the Spire",
                "Un roguelike de construcción de mazos con estrategia por turnos",
                90000,
                "estrategia",
                Some("roguelike"),
                "desafiante",
                None,
                "desafiante",
            ),
        );
        r.push(
            fallback_rec(
                "game12",
                "Hades",
                "Un roguelike de acción con narrativa rica y combate frenético",
                85000,
                "acción",
                Some("roguelike"),
                "desafiante",
                Some("narrativa"),
                "desafiante",
            ),
        );
    } else if e == "exploración".to_owned() {
        r.push(
            fallback_rec(
                "game21",
                "No Man's Sky",
                "Un juego de exploración espacial con universo procedural virtualmente infinito",
                90000,
                "exploración",
                Some("aventura"),
                "exploración",
                Some("espacial"),
                "exploración",
            ),
        );
        r.push(
            fallback_rec(
                "game20",
                "God of War (2018)",
                "Una aventura de acción con combate visceral y narrativa emotiva padre-hijo",
                80000,
                "aventura",
                Some("acción"),
                "exploración",
                Some("combate"),
                "exploración",
            ),
        );
        r.push(
            fallback_rec(
                "game27",
                "Subnautica",
                "Un juego de supervivencia y exploración submarina en un planeta alienígena",
                85000,
                "exploración",
                Some("supervivencia"),
                "exploración",
                Some("atmósfera"),
                "exploración",
            ),
        );
    } else if e == "creativo".to_owned() {
        r.push(
            fallback_rec(
                "game11",
                "Factorio",
                "Un juego de construcción y gestión de fábricas con énfasis en la automatización",
                90000,
                "estrategia",
                Some("construcción"),
                "creativo",
                Some("optimización"),
                "creativo",
            ),
        );
        r.push(
            fallback_rec(
                "game30",
                "Satisfactory",
                "Un juego de construcción de fábricas en primera persona en un planeta alienígena",
                85000,
                "simulación",
                Some("construcción"),
                "creativo",
                Some("exploración"),
                "creativo",
            ),
        );
    } else if e == "social".to_owned() {
        r.push(
            fallback_rec(
                "game13",
                "Among Us",
                "Un juego de deducción social donde identificas impostores entre la tripulación",
                95000,
                "fiesta",
                Some("deducción"),
                "social",
                Some("colaborativo"),
                "social",
            ),
        );
        r.push(
            fallback_rec(
                "game29",
                "Final Fantasy XIV",
                "Un MMORPG con rica narrativa, diversas clases y contenido variado",
                85000,
                "MMORPG",
                Some("RPG"),
                "social",
                Some("colaborativo"),
                "social",
            ),
        );
    } else {
        r.push(
            fallback_rec(
                "game27",
                "Subnautica",
                "Un juego de supervivencia y exploración submarina en un planeta alienígena",
                80000,
                "supervivencia",
                Some("exploración"),
                "atmósfera",
                Some("exploración"),
                "contemplativo",
            ),
        );
    }
    r
}

} // verus!
