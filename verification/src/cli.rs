//! Run options, as plain values.
//!
//! Argument parsing itself happens outside the library; these structs are what
//! the parsed command line hands over.

use vstd::prelude::*;

verus! {

/// Options for one run.
#[derive(Debug)]
pub struct Opts {
    /// Path of the database file, as given on the command line.
    pub database_path: String,
    pub jaeger_opts: JaegerOpts,
}

/// Options for the tracing exporter.
#[derive(Debug)]
pub struct JaegerOpts {
    /// Whether trace exporting is enabled.
    pub enabled: bool,
    /// Service name under which traces are reported.
    pub service_name: String,
}

} // verus!
