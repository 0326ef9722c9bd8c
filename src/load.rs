//! The decisions taken while loading the configuration.
//!
//! Loading alternates outside work (finding the configuration directory,
//! reading the file, writing the default file) with decisions. The caller
//! performs each `LoadAction` and hands its outcome to the next step, until
//! the action is `Finish`.
use vstd::prelude::*;

use crate::config::{
    default_model, fields_of, resolve, Config, ConfigFields, ConfigModel, FieldsModel,
    DEFAULT_SHINY_RATE_BITS,
};
use crate::error::ConfigError;

verus! {

/// What reading the configuration file gave.
#[derive(Debug)]
pub enum ReadOutcome {
    /// The file was read and parsed; these are the fields it sets.
    Parsed(ConfigFields),
    /// The file does not exist.
    NotFound,
    /// The file exists but could not be read.
    Unreadable,
    /// The file was read but its content could not be parsed.
    Malformed,
}

/// Mathematical model of a `ReadOutcome`.
pub enum ReadModel {
    Parsed(FieldsModel),
    NotFound,
    Unreadable,
    Malformed,
}

impl View for ReadOutcome {
    type V = ReadModel;

    open spec fn view(&self) -> ReadModel {
        match self {
            ReadOutcome::Parsed(f) => ReadModel::Parsed(f@),
            ReadOutcome::NotFound => ReadModel::NotFound,
            ReadOutcome::Unreadable => ReadModel::Unreadable,
            ReadOutcome::Malformed => ReadModel::Malformed,
        }
    }
}

/// What the caller does next.
#[derive(Debug)]
pub enum LoadAction {
    /// Read and parse the configuration file.
    ReadFile,
    /// Create the configuration directory and write this configuration to
    /// the file.
    WriteDefault(Config),
    /// Loading is over, with this result.
    Finish(Result<Config, ConfigError>),
}

/// Mathematical model of a `LoadAction`.
pub enum ActionModel {
    ReadFile,
    WriteDefault(ConfigModel),
    Finish(Result<ConfigModel, ConfigError>),
}

/// Mathematical model of a load result.
pub open spec fn result_model(r: Result<Config, ConfigError>) -> Result<ConfigModel, ConfigError> {
    match r {
        Ok(c) => Ok(c@),
        Err(e) => Err(e),
    }
}

impl View for LoadAction {
    type V = ActionModel;

    open spec fn view(&self) -> ActionModel {
        match self {
            LoadAction::ReadFile => ActionModel::ReadFile,
            LoadAction::WriteDefault(c) => ActionModel::WriteDefault(c@),
            LoadAction::Finish(r) => ActionModel::Finish(result_model(*r)),
        }
    }
}

/// The first decision: read the file if the configuration directory was
/// found, else fail.
pub open spec fn begin_step(dir_found: bool) -> ActionModel {
    if dir_found {
        ActionModel::ReadFile
    } else {
        ActionModel::Finish(Err(ConfigError::DirectoryUnresolvable))
    }
}

/// The decision once the file has been read: use what it sets, create the
/// default file if there is none, or fail.
pub open spec fn read_step(read: ReadModel) -> ActionModel {
    match read {
        ReadModel::Parsed(f) => ActionModel::Finish(Ok(resolve(f))),
        ReadModel::NotFound => ActionModel::WriteDefault(default_model()),
        ReadModel::Unreadable => ActionModel::Finish(Err(ConfigError::Unreadable)),
        ReadModel::Malformed => ActionModel::Finish(Err(ConfigError::Malformed)),
    }
}

/// The decision once `config` has been written to the file, or the writing
/// failed.
pub open spec fn write_step(config: ConfigModel, written: bool) -> ActionModel {
    if written {
        ActionModel::Finish(Ok(config))
    } else {
        ActionModel::Finish(Err(ConfigError::WriteFailed))
    }
}

/// Starts loading, once the configuration directory has been looked up.
pub fn begin_load(dir_found: bool) -> (r: LoadAction)
    ensures
        r@ == begin_step(dir_found),
{
    if dir_found {
        LoadAction::ReadFile
    } else {
        LoadAction::Finish(Err(ConfigError::DirectoryUnresolvable))
    }
}

/// Goes on once the configuration file has been read.
pub fn after_read(read: ReadOutcome) -> (r: LoadAction)
    ensures
        r@ == read_step(read@),
{
    match read {
        ReadOutcome::Parsed(fields) => LoadAction::Finish(Ok(Config::with_defaults(fields))),
        ReadOutcome::NotFound => LoadAction::WriteDefault(Config::default()),
        ReadOutcome::Unreadable => LoadAction::Finish(Err(ConfigError::Unreadable)),
        ReadOutcome::Malformed => LoadAction::Finish(Err(ConfigError::Malformed)),
    }
}

/// Goes on once `config` has been written to the file (`written`), or the
/// writing failed.
pub fn after_write(config: Config, written: bool) -> (r: LoadAction)
    ensures
        r@ == write_step(config@, written),
{
    if written {
        LoadAction::Finish(Ok(config))
    } else {
        LoadAction::Finish(Err(ConfigError::WriteFailed))
    }
}

/// What the outside work of one load gives: whether the configuration
/// directory is found, what reading the file gives, and whether writing the
/// default file succeeds.
pub struct LoadEnv {
    pub dir_found: bool,
    pub read: ReadModel,
    pub write_ok: bool,
}

/// How one load ends: its result, and the configurations written to the file
/// on the way, in order.
pub struct RunModel {
    pub result: Result<ConfigModel, ConfigError>,
    pub writes: Seq<ConfigModel>,
}

/// Performs `action` and the actions after it in `env`, in at most `fuel`
/// steps; `None` if loading has not finished by then.
pub open spec fn drive(action: ActionModel, env: LoadEnv, fuel: nat) -> Option<RunModel>
    decreases fuel,
{
    match action {
        ActionModel::Finish(r) => Some(RunModel { result: r, writes: Seq::empty() }),
        ActionModel::ReadFile => if fuel == 0 {
            None
        } else {
            drive(read_step(env.read), env, (fuel - 1) as nat)
        },
        ActionModel::WriteDefault(c) => if fuel == 0 {
            None
        } else {
            match drive(write_step(c, env.write_ok), env, (fuel - 1) as nat) {
                Some(rest) => Some(RunModel { result: rest.result, writes: seq![c] + rest.writes }),
                None => None,
            }
        },
    }
}

/// One whole load in `env`, from the directory lookup on.
pub open spec fn run(env: LoadEnv) -> Option<RunModel> {
    drive(begin_step(env.dir_found), env, 3)
}

/// Every load finishes: it succeeds exactly when the directory is found and
/// the file either parses or is missing and the default file can be written,
/// and it writes at most once, only when the file is missing.
pub proof fn lemma_load_finishes(env: LoadEnv)
    ensures
        run(env) is Some,
        run(env).unwrap().result is Ok <==> env.dir_found && (env.read is Parsed || (
        env.read is NotFound && env.write_ok)),
        run(env).unwrap().writes.len() <= 1,
        run(env).unwrap().writes.len() == 1 <==> env.dir_found && env.read is NotFound,
{
    reveal_with_fuel(drive, 4);
}

/// With no configuration file, loading returns the default configuration,
/// language "en" and shiny rate 1/128, and writes that configuration to the
/// file once.
pub proof fn lemma_defaulting()
    ensures
        run(LoadEnv { dir_found: true, read: ReadModel::NotFound, write_ok: true }) == Some(
            RunModel { result: Ok(default_model()), writes: seq![default_model()] },
        ),
        default_model().language == seq!['e', 'n'],
        default_model().shiny_rate_bits == 0x3F80_0000_0000_0000u64,
{
    reveal_with_fuel(drive, 4);
}

/// A file that sets every field of a configuration loads as that
/// configuration, and nothing is written.
pub proof fn lemma_round_trip(c: ConfigModel, write_ok: bool)
    ensures
        run(LoadEnv { dir_found: true, read: ReadModel::Parsed(fields_of(c)), write_ok }) == Some(
            RunModel { result: Ok(c), writes: Seq::empty() },
        ),
{
    reveal_with_fuel(drive, 4);
}

/// A file that sets only the language loads with that language and the
/// default shiny rate.
pub proof fn lemma_partial_override(language: Seq<char>, write_ok: bool)
    ensures
        run(
            LoadEnv {
                dir_found: true,
                read: ReadModel::Parsed(FieldsModel { language: Some(language), shiny_rate_bits: None }),
                write_ok,
            },
        ) == Some(
            RunModel {
                result: Ok(ConfigModel { language, shiny_rate_bits: DEFAULT_SHINY_RATE_BITS }),
                writes: Seq::empty(),
            },
        ),
{
    reveal_with_fuel(drive, 4);
}

/// Loading twice in a fresh environment gives the same configuration both
/// times, when the file written by the first load reads back as the fields it
/// was written from; only the first load writes.
pub proof fn lemma_second_run_identical(write_ok: bool)
    ensures
        ({
            let first = run(LoadEnv { dir_found: true, read: ReadModel::NotFound, write_ok: true });
            let second = run(
                LoadEnv {
                    dir_found: true,
                    read: ReadModel::Parsed(fields_of(first.unwrap().writes[0])),
                    write_ok,
                },
            );
            &&& first is Some
            &&& second is Some
            &&& first.unwrap().result is Ok
            &&& second.unwrap().result == first.unwrap().result
            &&& first.unwrap().writes.len() == 1
            &&& second.unwrap().writes.len() == 0
        }),
{
    reveal_with_fuel(drive, 4);
}

/// When the configuration directory cannot be found, loading fails with
/// `DirectoryUnresolvable` and writes nothing, whatever the rest of the
/// environment.
pub proof fn lemma_unresolvable_directory(read: ReadModel, write_ok: bool)
    ensures
        run(LoadEnv { dir_found: false, read, write_ok }) == Some(
            RunModel { result: Err(ConfigError::DirectoryUnresolvable), writes: Seq::empty() },
        ),
{
    reveal_with_fuel(drive, 4);
}

} // verus!
