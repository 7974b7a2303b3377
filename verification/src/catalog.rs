//! Static reference data: the fixed emotion and characteristic vocabularies
//! and the five duration bands. The vocabularies mirror the nodes the graph
//! datastore is seeded with; the bands partition the whole non-negative
//! minute range, which `lemma_duration_bands_partition` states.

use vstd::prelude::*;

verus! {

/// An emotion tag, with an optional human-readable description.
#[derive(Debug)]
pub struct Emotion {
    pub tipo: String,
    pub descripcion: Option<String>,
}

/// A game characteristic tag, with an optional description.
#[derive(Debug)]
pub struct Characteristic {
    pub nombre: String,
    pub descripcion: Option<String>,
}

/// The nine built-in emotion names, in catalog order.
pub open spec fn default_emotion_names(s: Seq<Seq<char>>) -> bool {
    &&& s.len() == 9
    &&& s[0] == "alegre"@
    &&& s[1] == "relajante"@
    &&& s[2] == "melancólico"@
    &&& s[3] == "exploración"@
    &&& s[4] == "desafiante"@
    &&& s[5] == "contemplativo"@
    &&& s[6] == "social"@
    &&& s[7] == "competitivo"@
    &&& s[8] == "creativo"@
}

/// A list of the built-in emotions, in catalog order.
pub open spec fn default_emotions_shape(s: Seq<Emotion>) -> bool {
    default_emotion_names(s.map_values(|e: Emotion| e.tipo@))
}

/// The emotion types a profile or a game edge may carry.
pub fn get_available_emotions() -> (r: Vec<Emotion>)
    ensures
        default_emotions_shape(r@),
        r@.len() == 9,
        forall|i: int| 0 <= i < r@.len() ==> (#[trigger] r@[i].descripcion) is Some,
{
    let mut r: Vec<Emotion> = Vec::new();
    r.push(
        Emotion {
            tipo: "alegre".to_owned(),
            descripcion: Some("Experiencias divertidas y positivas".to_owned()),
        },
    );
    r.push(
        Emotion {
            tipo: "relajante".to_owned(),
            descripcion: Some("Experiencias calmadas y sin estrés".to_owned()),
        },
    );
    r.push(
        Emotion {
            tipo: "melancólico".to_owned(),
            descripcion: Some("Experiencias emotivas y nostálgicas".to_owned()),
        },
    );
    r.push(
        Emotion {
            tipo: "exploración".to_owned(),
            descripcion: Some("Experiencias de descubrimiento y curiosidad".to_owned()),
        },
    );
    r.push(
        Emotion {
            tipo: "desafiante".to_owned(),
            descripcion: Some("Experiencias que prueban tus habilidades".to_owned()),
        },
    );
    r.push(
        Emotion {
            tipo: "contemplativo".to_owned(),
            descripcion: Some("Experiencias reflexivas y pensativas".to_owned()),
        },
    );
    r.push(
        Emotion {
            tipo: "social".to_owned(),
            descripcion: Some("Experiencias de conexión con otros".to_owned()),
        },
    );
    r.push(
        Emotion {
            tipo: "competitivo".to_owned(),
            descripcion: Some("Experiencias de competición y superación".to_owned()),
        },
    );
    r.push(
        Emotion {
            tipo: "creativo".to_owned(),
            descripcion: Some("Experiencias de expresión y creación".to_owned()),
        },
    );
    proof {
        assert(r@.map_values(|e: Emotion| e.tipo@).len() == 9);
    }
    r
}

/// A list of the built-in characteristics, in catalog order.
pub open spec fn default_characteristics_shape(s: Seq<Characteristic>) -> bool {
    &&& s.len() == 18
    &&& s[0].nombre@ == "social"@
    &&& s[1].nombre@ == "exploración"@
    &&& s[2].nombre@ == "desafiante"@
    &&& s[3].nombre@ == "historia"@
    &&& s[4].nombre@ == "puzzles"@
    &&& s[5].nombre@ == "coleccionable"@
    &&& s[6].nombre@ == "difícil"@
    &&& s[7].nombre@ == "combate"@
    &&& s[8].nombre@ == "atmósfera"@
    &&& s[9].nombre@ == "inmersivo"@
    &&& s[10].nombre@ == "decisiones"@
    &&& s[11].nombre@ == "artístico"@
    &&& s[12].nombre@ == "trabajo en equipo"@
    &&& s[13].nombre@ == "habilidades"@
    &&& s[14].nombre@ == "estrategia"@
    &&& s[15].nombre@ == "rápido"@
    &&& s[16].nombre@ == "personajes"@
    &&& s[17].nombre@ == "estilizado"@
}

/// The four built-in dealbreaker names, in catalog order.
pub open spec fn default_dealbreaker_names(s: Seq<Seq<char>>) -> bool {
    &&& s.len() == 4
    &&& s[0] == "combate"@
    &&& s[1] == "difícil"@
    &&& s[2] == "social"@
    &&& s[3] == "rápido"@
}

/// The characteristic tags a game may carry.
pub fn get_available_characteristics() -> (r: Vec<Characteristic>)
    ensures
        default_characteristics_shape(r@),
        r@.len() == 18,
        forall|i: int| 0 <= i < r@.len() ==> (#[trigger] r@[i].descripcion) is Some,
{
    let mut r: Vec<Characteristic> = Vec::new();
    r.push(
        Characteristic {
            nombre: "social".to_owned(),
            descripcion: Some("Juegos con enfoque en interacciones sociales".to_owned()),
        },
    );
    r.push(
        Characteristic {
            nombre: "exploración".to_owned(),
            descripcion: Some("Juegos que incentivan descubrir el mundo".to_owned()),
        },
    );
    r.push(
        Characteristic {
            nombre: "desafiante".to_owned(),
            descripcion: Some("Juegos que ponen a prueba tus habilidades".to_owned()),
        },
    );
    r.push(
        Characteristic {
            nombre: "historia".to_owned(),
            descripcion: Some("Juegos con narrativas desarrolladas".to_owned()),
        },
    );
    r.push(
        Characteristic {
            nombre: "puzzles".to_owned(),
            descripcion: Some("Juegos con rompecabezas y acertijos".to_owned()),
        },
    );
    r.push(
        Characteristic {
            nombre: "coleccionable".to_owned(),
            descripcion: Some("Juegos que incluyen elementos coleccionables".to_owned()),
        },
    );
    r.push(
        Characteristic {
            nombre: "difícil".to_owned(),
            descripcion: Some("Juegos con alto nivel de dificultad".to_owned()),
        },
    );
    r.push(
        Characteristic {
            nombre: "combate".to_owned(),
            descripcion: Some("Juegos con sistemas de combate".to_owned()),
        },
    );
    r.push(
        Characteristic {
            nombre: "atmósfera".to_owned(),
            descripcion: Some("Juegos con ambientes inmersivos".to_owned()),
        },
    );
    r.push(
        Characteristic {
            nombre: "inmersivo".to_owned(),
            descripcion: Some("Juegos que te sumergen completamente en su mundo".to_owned()),
        },
    );
    r.push(
        Characteristic {
            nombre: "decisiones".to_owned(),
            descripcion: Some("Juegos donde tus decisiones importan".to_owned()),
        },
    );
    r.push(
        Characteristic {
            nombre: "artístico".to_owned(),
            descripcion: Some("Juegos con estética y diseño artístico destacable".to_owned()),
        },
    );
    r.push(
        Characteristic {
            nombre: "trabajo en equipo".to_owned(),
            descripcion: Some("Juegos que requieren coordinación en grupo".to_owned()),
        },
    );
    r.push(
        Characteristic {
            nombre: "habilidades".to_owned(),
            descripcion: Some(
                "Juegos que requieren desarrollo de destrezas específicas".to_owned(),
            ),
        },
    );
    r.push(
        Characteristic {
            nombre: "estrategia".to_owned(),
            descripcion: Some("Juegos que requieren planificación".to_owned()),
        },
    );
    r.push(
        Characteristic {
            nombre: "rápido".to_owned(),
            descripcion: Some("Juegos con ritmo acelerado".to_owned()),
        },
    );
    r.push(
        Characteristic {
            nombre: "personajes".to_owned(),
            descripcion: Some("Juegos con desarrollo de personajes destacable".to_owned()),
        },
    );
    r.push(
        Characteristic {
            nombre: "estilizado".to_owned(),
            descripcion: Some("Juegos con estilo visual distintivo".to_owned()),
        },
    );
    r
}

/// The subset of characteristics users commonly want excluded.
pub fn get_dealbreaker_characteristics() -> (r: Vec<String>)
    ensures
        default_dealbreaker_names(r@.map_values(|s: String| s@)),
        r@.len() == 4,
        r@[0]@ == "combate"@,
        r@[1]@ == "difícil"@,
        r@[2]@ == "social"@,
        r@[3]@ == "rápido"@,
{
    let mut r: Vec<String> = Vec::new();
    r.push("combate".to_owned());
    r.push("difícil".to_owned());
    r.push("social".to_owned());
    r.push("rápido".to_owned());
    r
}

/// One of the five fixed play-session duration bands.
#[derive(Debug, Clone, Copy, PartialEq, Eq, Structural)]
pub enum DurationRange {
    MuyCorto,
    Corto,
    Medio,
    Largo,
    MuyLargo,
}

/// The minute range `(min, max)` of a band.
pub open spec fn spec_range_values(d: DurationRange) -> (int, int) {
    match d {
        DurationRange::MuyCorto => (0, 30),
        DurationRange::Corto => (30, 60),
        DurationRange::Medio => (60, 180),
        DurationRange::Largo => (180, 480),
        DurationRange::MuyLargo => (480, 9999),
    }
}

/// The band's name as the datastore stores it.
pub open spec fn spec_db_name(d: DurationRange) -> Seq<char> {
    match d {
        DurationRange::MuyCorto => "muy_corto"@,
        DurationRange::Corto => "corto"@,
        DurationRange::Medio => "medio"@,
        DurationRange::Largo => "largo"@,
        DurationRange::MuyLargo => "muy_largo"@,
    }
}

impl DurationRange {
    /// Minimum and maximum minutes of the band.
    pub fn get_range_values(&self) -> (r: (i32, i32))
        ensures
            (r.0 as int, r.1 as int) == spec_range_values(*self),
    {
        match self {
            DurationRange::MuyCorto => (0, 30),
            DurationRange::Corto => (30, 60),
            DurationRange::Medio => (60, 180),
            DurationRange::Largo => (180, 480),
            DurationRange::MuyLargo => (480, 9999),
        }
    }

    /// The band's name exactly as the datastore stores it.
    pub fn get_db_name(&self) -> (r: &'static str)
        ensures
            r@ == spec_db_name(*self),
    {
        match self {
            DurationRange::MuyCorto => "muy_corto",
            DurationRange::Corto => "corto",
            DurationRange::Medio => "medio",
            DurationRange::Largo => "largo",
            DurationRange::MuyLargo => "muy_largo",
        }
    }

    /// The band's description exactly as the datastore stores it.
    pub fn get_description(&self) -> (r: &'static str)
        ensures
            r@ == match *self {
                DurationRange::MuyCorto => "Menos de 30 minutos"@,
                DurationRange::Corto => "Entre 30 minutos y 1 hora"@,
                DurationRange::Medio => "Entre 1 y 3 horas"@,
                DurationRange::Largo => "Entre 3 y 8 horas"@,
                DurationRange::MuyLargo => "Más de 8 horas"@,
            },
    {
        match self {
            DurationRange::MuyCorto => "Menos de 30 minutos",
            DurationRange::Corto => "Entre 30 minutos y 1 hora",
            DurationRange::Medio => "Entre 1 y 3 horas",
            DurationRange::Largo => "Entre 3 y 8 horas",
            DurationRange::MuyLargo => "Más de 8 horas",
        }
    }

    /// Whether a session of this band can hold `requested` minutes: the
    /// duration filter passes exactly when the band's maximum reaches the
    /// requested minimum.
    pub fn allows_minutes(&self, requested: i32) -> (r: bool)
        ensures
            r == (spec_range_values(*self).1 >= requested),
    {
        let (_, max) = self.get_range_values();
        max >= requested
    }

    /// The band whose stored name is `name`; `Medio` when the name is not a
    /// band name.
    pub fn from_db_name(name: &str) -> (r: DurationRange)
        ensures
            r == spec_duration_from_db_name(name@),
    {
        let owned = name.to_owned();
        if owned == "muy_corto".to_owned() {
            DurationRange::MuyCorto
        } else if owned == "corto".to_owned() {
            DurationRange::Corto
        } else if owned == "medio".to_owned() {
            DurationRange::Medio
        } else if owned == "largo".to_owned() {
            DurationRange::Largo
        } else if owned == "muy_largo".to_owned() {
            DurationRange::MuyLargo
        } else {
            DurationRange::Medio
        }
    }
}

/// The band a stored name denotes, defaulting to `Medio`.
pub open spec fn spec_duration_from_db_name(name: Seq<char>) -> DurationRange {
    if name == "muy_corto"@ {
        DurationRange::MuyCorto
    } else if name == "corto"@ {
        DurationRange::Corto
    } else if name == "medio"@ {
        DurationRange::Medio
    } else if name == "largo"@ {
        DurationRange::Largo
    } else if name == "muy_largo"@ {
        DurationRange::MuyLargo
    } else {
        DurationRange::Medio
    }
}

/// The five bands in ascending order.
pub open spec fn spec_band_order() -> Seq<DurationRange> {
    seq![
        DurationRange::MuyCorto,
        DurationRange::Corto,
        DurationRange::Medio,
        DurationRange::Largo,
        DurationRange::MuyLargo,
    ]
}

/// The duration bands are contiguous and non-overlapping: the first starts
/// at zero minutes, each band ends where the next begins, every band is
/// non-empty, and the last reaches the catalog-wide maximum.
pub proof fn lemma_duration_bands_partition()
    ensures
        spec_range_values(spec_band_order()[0]).0 == 0,
        forall|i: int|
            0 <= i < 4 ==> spec_range_values(#[trigger] spec_band_order()[i]).1
                == spec_range_values(spec_band_order()[i + 1]).0,
        forall|i: int|
            0 <= i < 5 ==> spec_range_values(#[trigger] spec_band_order()[i]).0
                < spec_range_values(spec_band_order()[i]).1,
        spec_range_values(spec_band_order()[4]).1 == 9999,
{
}

} // verus!
