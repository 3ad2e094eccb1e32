use vstd::prelude::*;

verus! {

/// The failures of this crate's planets.
#[derive(Debug)]
pub enum SkycartelError {
    /// The planet could not be built.
    PlanetConstruction(String),
    /// Energy cell configuration or accounting went wrong.
    Energy(String),
    /// Resource generation or validation went wrong.
    Resource(String),
    /// Anything else.
    Operational(String),
}

/// The text an error is shown with.
pub open spec fn error_message(e: SkycartelError) -> Seq<char> {
    match e {
        SkycartelError::PlanetConstruction(s) => "Planet construction failed: "@ + s@,
        SkycartelError::Energy(s) => "Energy configuration error: "@ + s@,
        SkycartelError::Resource(s) => "Resource error: "@ + s@,
        SkycartelError::Operational(s) => "Operational error: "@ + s@,
    }
}

impl SkycartelError {
    /// The text the error is shown with.
    pub fn message(&self) -> (m: String)
        ensures
            m@ == error_message(*self),
    {
        match self {
            SkycartelError::PlanetConstruction(s) => {
                let mut m = String::from_str("Planet construction failed: ");
                m.append(s.as_str());
                m
            },
            SkycartelError::Energy(s) => {
                let mut m = String::from_str("Energy configuration error: ");
                m.append(s.as_str());
                m
            },
            SkycartelError::Resource(s) => {
                let mut m = String::from_str("Resource error: ");
                m.append(s.as_str());
                m
            },
            SkycartelError::Operational(s) => {
                let mut m = String::from_str("Operational error: ");
                m.append(s.as_str());
                m
            },
        }
    }
}

} // verus!
