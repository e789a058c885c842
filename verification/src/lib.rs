//! The tabular-session engine: verified construction of every SQL statement
//! the session sends to its embedded analytical engine, the wire form of cell
//! values, file ingest and export planning, and per-column statistics
//! assembly. The engine itself, file reading, and event delivery live with
//! the host around this crate; everything here is plain data in and plain
//! data out.

use vstd::prelude::*;
use vstd::string::*;

pub mod editor;
pub mod engine;
pub mod export;
pub mod ident;
pub mod import;
pub mod sql;
pub mod statistics;
pub mod text;
pub mod value;

verus! {

/// The process-wide session state: the configuration statements the engine
/// must receive when it is opened.
pub struct AppState {
    pub engine_setup: Vec<String>,
}

impl AppState {
    /// The session starts with a fixed engine configuration: a 4 GiB memory
    /// ceiling and four worker threads.
    pub fn new() -> (s: AppState)
        ensures
            s.engine_setup@.len() == 2,
            s.engine_setup@[0]@ == "SET memory_limit='4GB'"@,
            s.engine_setup@[1]@ == "SET threads=4"@,
    {
        let mut engine_setup: Vec<String> = Vec::new();
        engine_setup.push(String::from_str("SET memory_limit='4GB'"));
        engine_setup.push(String::from_str("SET threads=4"));
        AppState { engine_setup }
    }
}

} // verus!
