//! Verified core of a DirectPlay lobby launcher: the data that is handed to
//! the DirectPlay lobby, the choices made from the user's selections, and the
//! sequence of lobby calls that launches an application.
pub mod guid;
pub mod text;
pub mod directplay;
pub mod session;
pub mod launch;
pub mod launcher;
