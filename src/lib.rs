//! Total weight moved on a bench press, with a randomly drawn number of
//! series when none is given, and a short greeting.

pub mod weight;
pub mod series;
pub mod greeting;
