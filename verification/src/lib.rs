//! Front end of a maze generator: it turns the choices a user makes on the
//! command line into one complete generation request, and it formats what the
//! generation engine hands back, either as a text grid or as binary literals.

pub mod request;
pub mod render;
pub mod token;
pub mod choice;
pub mod params;
pub mod run;
pub mod laws;
