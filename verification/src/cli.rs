//! The command-line surface as plain data: what an invocation asked for,
//! and the exact conversions into the core's own types. Argument parsing
//! itself is the embedding program's job.

use vstd::prelude::*;
use crate::errors::{KillportError, offending_token};
use crate::output::OutputFormat;
use crate::process::{KillSignal, PortSpec, WaitCondition, token_spec, valid_port_token};

verus! {

/// The signal choice a user can name on the command line.
#[derive(Debug, Clone, Copy, PartialEq, Eq, Structural)]
pub enum Signal {
    Term,
    Kill,
    Int,
    Hup,
}

/// The output format a user can name on the command line.
#[derive(Debug, Clone, Copy, PartialEq, Eq, Structural)]
pub enum Format {
    Table,
    Json,
    Plain,
}

/// The direction a wait can be asked for: until the port is down (free) or
/// up (occupied).
#[derive(Debug, Clone, Copy, PartialEq, Eq, Structural)]
pub enum WaitUntil {
    Down,
    Up,
}

/// A whole invocation: an optional subcommand, and the default action's
/// own arguments (bare ports kill what is bound to them).
#[derive(Debug)]
pub struct Cli {
    pub command: Option<Commands>,
    pub ports: Vec<String>,
    pub signal: Signal,
    pub no_graceful: bool,
    pub timeout: u64,
    pub dry_run: bool,
    pub interactive: bool,
    pub format: Format,
}

/// The subcommands.
#[derive(Debug)]
pub enum Commands {
    Kill(KillArgs),
    List(ListArgs),
    Watch(WatchArgs),
}

/// Arguments of the kill subcommand.
#[derive(Debug)]
pub struct KillArgs {
    pub ports: Vec<String>,
    pub signal: Signal,
    pub no_graceful: bool,
    pub timeout: u64,
    pub dry_run: bool,
    pub interactive: bool,
    pub format: Format,
}

/// Arguments of the list subcommand; no ports means "everything bound".
#[derive(Debug)]
pub struct ListArgs {
    pub ports: Vec<String>,
    pub format: Format,
}

/// Arguments of the watch subcommand.
#[derive(Debug)]
pub struct WatchArgs {
    pub ports: Vec<String>,
    pub signal: Signal,
    pub no_graceful: bool,
    pub timeout: u64,
    pub poll: u64,
    pub format: Format,
}

/// The kill signal a command-line signal choice denotes.
pub fn convert_signal(s: Signal) -> (r: KillSignal)
    ensures
        r == (match s {
            Signal::Term => KillSignal::Term,
            Signal::Kill => KillSignal::Kill,
            Signal::Int => KillSignal::Int,
            Signal::Hup => KillSignal::Hup,
        }),
{
    match s {
        Signal::Term => KillSignal::Term,
        Signal::Kill => KillSignal::Kill,
        Signal::Int => KillSignal::Int,
        Signal::Hup => KillSignal::Hup,
    }
}

/// The output format a command-line format choice denotes.
pub fn convert_format(f: Format) -> (r: OutputFormat)
    ensures
        r == (match f {
            Format::Table => OutputFormat::Table,
            Format::Json => OutputFormat::Json,
            Format::Plain => OutputFormat::Plain,
        }),
{
    match f {
        Format::Table => OutputFormat::Table,
        Format::Json => OutputFormat::Json,
        Format::Plain => OutputFormat::Plain,
    }
}

/// The wait condition a command-line direction denotes: waiting until the
/// port is down waits for it to be free.
pub fn convert_wait_until(w: WaitUntil) -> (r: WaitCondition)
    ensures
        r == (match w {
            WaitUntil::Down => WaitCondition::Free,
            WaitUntil::Up => WaitCondition::Occupied,
        }),
{
    match w {
        WaitUntil::Down => WaitCondition::Free,
        WaitUntil::Up => WaitCondition::Occupied,
    }
}

/// Parses every port token of an invocation, failing fast on the first
/// malformed one: the result is Ok exactly when every token is
/// well-formed, and then holds each token's spec in order; an error names
/// the offending token.
pub fn parse_ports(raw: &Vec<String>) -> (r: Result<Vec<PortSpec>, KillportError>)
    ensures
        r is Ok <==> (forall|i: int|
            0 <= i < raw@.len() ==> valid_port_token((#[trigger] raw@[i])@)),
        r matches Ok(v) ==> v@.len() == raw@.len() && (forall|i: int|
            0 <= i < v@.len() ==> #[trigger] v@[i] == token_spec(raw@[i]@)),
        r matches Err(e) ==> exists|i: int|
            0 <= i < raw@.len() && !valid_port_token((#[trigger] raw@[i])@) && offending_token(e)
                == raw@[i]@,
{
    let mut out: Vec<PortSpec> = Vec::new();
    let mut i: usize = 0;
    while i < raw.len()
        invariant
            i <= raw@.len(),
            out@.len() == i,
            forall|k: int| 0 <= k < i ==> valid_port_token((#[trigger] raw@[k])@),
            forall|k: int| 0 <= k < i ==> #[trigger] out@[k] == token_spec(raw@[k]@),
        decreases raw@.len() - i,
    {
        match PortSpec::parse(raw[i].as_str()) {
            Ok(spec) => {
                out.push(spec);
            },
            Err(e) => {
                return Err(e);
            },
        }
        i = i + 1;
    }
    Ok(out)
}

} // verus!
