//! A minimal host for an embedded scripting engine: engine lifecycle, the
//! native surface offered to scripts, script origins and the order in which
//! bootstrap modules and the entry script are compiled and run.

pub mod native;
pub mod origin;
pub mod lifecycle;
pub mod context;
pub mod driver;
pub mod trace;
