//! A console logger that colors each line by its level.
use log::{LevelFilter, Metadata, Record, SetLoggerError};
use std::io::Write;
use vstd::prelude::*;

verus! {

#[verifier::external_type_specification]
#[verifier::external_body]
pub struct ExLevelFilter(LevelFilter);

#[verifier::external_type_specification]
#[verifier::external_body]
pub struct ExSetLoggerError(SetLoggerError);

#[verifier::external_type_specification]
#[verifier::external_body]
pub struct ExMetadata<'a>(Metadata<'a>);

#[verifier::external_type_specification]
#[verifier::external_body]
pub struct ExRecord<'a>(Record<'a>);

/// The ANSI color that opens a line of the level of rank `rank` (1 error,
/// 2 warn, 3 info, 4 debug, 5 trace); other ranks get none.
pub open spec fn escape_of(rank: int) -> Seq<char> {
    if rank == 1 {
        "\x1B[31m"@
    } else if rank == 2 {
        "\x1B[33m"@
    } else if rank == 3 {
        "\x1B[34m"@
    } else if rank == 4 {
        "\x1B[36m"@
    } else if rank == 5 {
        "\x1B[37m"@
    } else {
        ""@
    }
}

/// The color escape for a level rank: red errors, yellow warnings, blue
/// info, cyan debug, white trace.
pub fn level_escape(rank: usize) -> (r: &'static str)
    ensures
        r@ == escape_of(rank as int),
{
    proof {
        reveal_strlit("\x1B[31m");
        reveal_strlit("\x1B[33m");
        reveal_strlit("\x1B[34m");
        reveal_strlit("\x1B[36m");
        reveal_strlit("\x1B[37m");
        reveal_strlit("");
    }
    if rank == 1 {
        "\x1B[31m"
    } else if rank == 2 {
        "\x1B[33m"
    } else if rank == 3 {
        "\x1B[34m"
    } else if rank == 4 {
        "\x1B[36m"
    } else if rank == 5 {
        "\x1B[37m"
    } else {
        ""
    }
}

/// Whether a record of level rank `rank` passes the maximum level of rank
/// `max` (0 lets nothing through, 5 everything).
pub fn level_enabled(rank: usize, max: usize) -> (r: bool)
    ensures
        r == (rank <= max),
{
    rank <= max
}

/// Relies on log::Metadata::level, read as its `usize` discriminant, which
/// the crate fixes at 1 (error) to 5 (trace).
#[verifier::external_body]
fn metadata_rank(metadata: &Metadata<'_>) -> (r: usize)
    ensures
        1 <= r <= 5,
{
    metadata.level() as usize
}

/// Relies on log::Record::level, read as its `usize` discriminant, which
/// the crate fixes at 1 (error) to 5 (trace).
#[verifier::external_body]
fn record_rank(record: &Record<'_>) -> (r: usize)
    ensures
        1 <= r <= 5,
{
    record.level() as usize
}

/// Relies on log::max_level, read as its `usize` discriminant, which the
/// crate fixes at 0 (off) to 5 (trace). It reads global state.
#[verifier::external_body]
fn max_level_rank() -> (r: usize)
    ensures
        r <= 5,
{
    log::max_level() as usize
}

/// Relies on log::Record's level and arguments to print one line to
/// standard output, after the given color escape.
#[verifier::external_body]
fn print_record(record: &Record<'_>, escape: &str) {
    let _ = writeln!(
        std::io::stdout(),
        "{}[{}]\x1B[0m {}",
        escape,
        record.level(),
        record.args()
    );
}

/// Relies on log::set_logger to install the logger for the whole program;
/// it fails when a logger is already installed.
#[verifier::external_body]
fn install_logger(logger: &'static RobotLogger) -> Result<(), SetLoggerError> {
    log::set_logger(logger)
}

/// Relies on log::set_max_level to set the global maximum level.
#[verifier::external_body]
fn store_max_level(level: LevelFilter) {
    log::set_max_level(level)
}

/// Prints each record whose level passes the global maximum, colored by
/// level.
pub struct RobotLogger;

impl RobotLogger {
    /// Installs this logger for the program and sets the maximum level. When
    /// another logger is already installed, fails and leaves the maximum
    /// level as it was.
    pub fn init(&'static self, level: LevelFilter) -> Result<(), SetLoggerError> {
        match install_logger(self) {
            Ok(()) => {},
            Err(e) => return Err(e),
        }
        store_max_level(level);
        Ok(())
    }
}

impl log::Log for RobotLogger {
    fn enabled(&self, metadata: &Metadata<'_>) -> bool {
        level_enabled(metadata_rank(metadata), max_level_rank())
    }

    fn log(&self, record: &Record<'_>) {
        let rank = record_rank(record);
        if level_enabled(rank, max_level_rank()) {
            print_record(record, level_escape(rank));
        }
    }

    fn flush(&self) {
    }
}

} // verus!
