//! The command dispatcher: from a command value to the frame that goes
//! out on the wire.
//!
//! Load resolves the entry symbol's address out of the image first and
//! is the only command that can fail; Kill, Relaunch and List always
//! encode; Log produces no frame at all, it only leaves the drain
//! reader running.

use vstd::prelude::*;

use crate::frames::encode_kill_frame;
use crate::frames::encode_list_frame;
use crate::frames::encode_load_frame;
use crate::frames::encode_relaunch_frame;
use crate::frames::spec_kill_frame;
use crate::frames::spec_list_frame;
use crate::frames::spec_load_frame;
use crate::frames::spec_relaunch_frame;
use crate::symbols::resolve_symbol;
use crate::symbols::spec_elf_symbols;
use crate::symbols::spec_find_symbol;
use crate::symbols::ResolveError;

verus! {

/// A command against the remote task supervisor, as handed to the
/// dispatcher. The image arrives as its raw bytes; reading it off disk
/// is the caller's business.
pub enum Commands {
    /// Load a program image and start it under the given identifier.
    Load {
        /// The raw bytes of the executable image.
        image: Vec<u8>,
        /// The name of the entry-point symbol inside the image.
        symbol: Vec<u8>,
        /// The task identifier, free-form text as bytes.
        identifier: Vec<u8>,
    },
    /// Kill the task with the given identifier.
    Kill {
        /// The task identifier, free-form text as bytes.
        identifier: Vec<u8>,
    },
    /// Relaunch the task with the given identifier.
    Relaunch {
        /// The task identifier, free-form text as bytes.
        identifier: Vec<u8>,
    },
    /// List the tasks on the device.
    List,
    /// Attach to the device's log output; no frame is sent.
    Log,
}

/// The mathematical value of a command.
pub enum CommandModel {
    /// Load a program image and start it under the given identifier.
    Load { image: Seq<u8>, symbol: Seq<u8>, identifier: Seq<u8> },
    /// Kill the task with the given identifier.
    Kill { identifier: Seq<u8> },
    /// Relaunch the task with the given identifier.
    Relaunch { identifier: Seq<u8> },
    /// List the tasks on the device.
    List,
    /// Attach to the device's log output; no frame is sent.
    Log,
}

impl View for Commands {
    type V = CommandModel;

    open spec fn view(&self) -> CommandModel {
        match self {
            Commands::Load { image, symbol, identifier } => CommandModel::Load {
                image: image@,
                symbol: symbol@,
                identifier: identifier@,
            },
            Commands::Kill { identifier } => CommandModel::Kill { identifier: identifier@ },
            Commands::Relaunch { identifier } => CommandModel::Relaunch {
                identifier: identifier@,
            },
            Commands::List => CommandModel::List,
            Commands::Log => CommandModel::Log,
        }
    }
}

/// What the dispatcher owes for each command: the frame that goes out
/// (`Ok(Some(..))`), no frame for Log (`Ok(None)`), or the error that
/// stops a Load.
pub open spec fn spec_dispatch(c: CommandModel) -> Result<Option<Seq<u8>>, ResolveError> {
    match c {
        CommandModel::Load { image, symbol, identifier } => match spec_elf_symbols(image) {
            None => Err(ResolveError::MalformedImage),
            Some(table) => match spec_find_symbol(table, symbol) {
                None => Err(ResolveError::SymbolNotFound),
                Some(addr) => Ok(Some(spec_load_frame(image, addr, identifier))),
            },
        },
        CommandModel::Kill { identifier } => Ok(Some(spec_kill_frame(identifier))),
        CommandModel::Relaunch { identifier } => Ok(Some(spec_relaunch_frame(identifier))),
        CommandModel::List => Ok(Some(spec_list_frame())),
        CommandModel::Log => Ok(None),
    }
}

/// Build the Load frame for an image: resolve the entry symbol's
/// address out of the image's symbol table, then encode the frame
/// around the raw image bytes.
pub fn handle_load_cmd(image: &[u8], symbol: &[u8], identifier: &[u8]) -> (r: Result<
    Vec<u8>,
    ResolveError,
>)
    ensures
        match spec_elf_symbols(image@) {
            None => r == Err::<Vec<u8>, ResolveError>(ResolveError::MalformedImage),
            Some(table) => match spec_find_symbol(table, symbol@) {
                None => r == Err::<Vec<u8>, ResolveError>(ResolveError::SymbolNotFound),
                Some(addr) => r matches Ok(f) && f@ == spec_load_frame(image@, addr, identifier@),
            },
        },
{
    let addr = match resolve_symbol(image, symbol) {
        Ok(addr) => addr,
        Err(e) => {
            return Err(e);
        },
    };
    Ok(encode_load_frame(image, addr, identifier))
}

/// Build the Kill frame for a task identifier.
pub fn handle_kill_cmd(identifier: &[u8]) -> (r: Option<Vec<u8>>)
    ensures
        r matches Some(f) && f@ == spec_kill_frame(identifier@),
{
    Some(encode_kill_frame(identifier))
}

/// Build the Relaunch frame for a task identifier.
pub fn handle_relaunch_cmd(identifier: &[u8]) -> (r: Option<Vec<u8>>)
    ensures
        r matches Some(f) && f@ == spec_relaunch_frame(identifier@),
{
    Some(encode_relaunch_frame(identifier))
}

/// Build the List frame: the bare magic.
pub fn handle_list_cmd() -> (r: Option<Vec<u8>>)
    ensures
        r matches Some(f) && f@ == spec_list_frame(),
{
    Some(encode_list_frame())
}

/// Dispatch one command: the frame to send, `None` for Log, or the
/// error that stopped a Load.
pub fn handle_command(cmd: &Commands) -> (r: Result<Option<Vec<u8>>, ResolveError>)
    ensures
        match r {
            Ok(Some(f)) => spec_dispatch(cmd@) == Ok::<Option<Seq<u8>>, ResolveError>(Some(f@)),
            Ok(None) => spec_dispatch(cmd@) == Ok::<Option<Seq<u8>>, ResolveError>(
                None::<Seq<u8>>,
            ),
            Err(e) => spec_dispatch(cmd@) == Err::<Option<Seq<u8>>, ResolveError>(e),
        },
{
    match cmd {
        Commands::Load { image, symbol, identifier } => match handle_load_cmd(
            image.as_slice(),
            symbol.as_slice(),
            identifier.as_slice(),
        ) {
            Ok(f) => Ok(Some(f)),
            Err(e) => Err(e),
        },
        Commands::Kill { identifier } => Ok(handle_kill_cmd(identifier.as_slice())),
        Commands::Relaunch { identifier } => Ok(handle_relaunch_cmd(identifier.as_slice())),
        Commands::List => Ok(handle_list_cmd()),
        Commands::Log => Ok(None),
    }
}

/// Frame-kind determinism: what goes out is a function of the command
/// value alone; the same command always yields the identical byte
/// sequence, and Load's outcome moreover depends only on the image, the
/// symbol and the identifier.
pub proof fn lemma_dispatch_deterministic(c1: CommandModel, c2: CommandModel)
    requires
        c1 == c2,
    ensures
        spec_dispatch(c1) == spec_dispatch(c2),
{
}

} // verus!
