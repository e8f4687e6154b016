use vstd::prelude::*;
use vstd::string::*;

verus! {

/// The measures by which a mood selects songs.
#[derive(Clone, Copy, Debug, PartialEq, Eq, Structural)]
pub enum MoodParam {
    Acousticness,
    Danceability,
    Energy,
    Instrumentalness,
    Liveness,
    Loudness,
    Speechiness,
    Valence,
}

impl MoodParam {
    /// The word that is shown for the measure.
    pub open spec fn text(self) -> Seq<char> {
        match self {
            MoodParam::Acousticness => "acousticness"@,
            MoodParam::Danceability => "danceability"@,
            MoodParam::Energy => "energy"@,
            MoodParam::Instrumentalness => "instrumentalness"@,
            MoodParam::Liveness => "liveness"@,
            MoodParam::Loudness => "loudness"@,
            MoodParam::Speechiness => "speechniess"@,
            MoodParam::Valence => "valance"@,
        }
    }

    /// The word that is shown for the measure.
    pub fn to_string(&self) -> (s: String)
        ensures
            s@ == self.text(),
    {
        match self {
            MoodParam::Acousticness => String::from_str("acousticness"),
            MoodParam::Danceability => String::from_str("danceability"),
            MoodParam::Energy => String::from_str("energy"),
            MoodParam::Instrumentalness => String::from_str("instrumentalness"),
            MoodParam::Liveness => String::from_str("liveness"),
            MoodParam::Loudness => String::from_str("loudness"),
            MoodParam::Speechiness => String::from_str("speechniess"),
            MoodParam::Valence => String::from_str("valance"),
        }
    }
}

} // verus!
