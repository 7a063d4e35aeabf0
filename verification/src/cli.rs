//! The commands of the collection generator and what each decides before touching files.
use vstd::prelude::*;

verus! {

/// Generate artwork and metadata.
#[derive(Debug)]
pub struct Generate {
    /// Whether to use already present metadata to generate art.
    pub skip_metadata: bool,
    /// Whether to only generate metadata and not the art.
    pub skip_art: bool,
    /// Location of assets to generate.
    pub assets: String,
    /// Location of configuration file.
    pub config: String,
    /// Output location of generated art.
    pub output: String,
}

/// Initialize assets directory.
#[derive(Debug)]
pub struct Init {
    /// Location of assets folder to initialize.
    pub folder: String,
    /// Overwrite assets folder if already exists.
    pub overwrite: bool,
    /// Create a config.json from an existing assets folder, ignores folder option.
    pub from_existing: Option<String>,
}

/// Verify generated assets integrity.
#[derive(Debug)]
pub struct Verify {
    /// Location of generated folder to verify.
    pub folder: String,
}

/// What `generate` does: clean the output and generate metadata, then generate art.
#[derive(Debug, Clone, Copy, PartialEq, Eq, Structural)]
pub struct GenerateSteps {
    pub metadata: bool,
    pub art: bool,
}

/// The steps of `generate`: metadata unless skipped (after cleaning the output
/// directory), then art unless skipped.
pub fn generate_steps(options: &Generate) -> (r: GenerateSteps)
    ensures
        r.metadata == !options.skip_metadata,
        r.art == !options.skip_art,
{
    GenerateSteps { metadata: !options.skip_metadata, art: !options.skip_art }
}

/// How `init` builds the assets directory.
#[derive(Debug, Clone, Copy, PartialEq, Eq, Structural)]
pub enum InitMode {
    /// Write a sample configuration and layer into a new folder.
    FromScratch,
    /// Write a configuration describing an existing assets folder.
    FromExisting,
}

/// How `init` builds the assets directory: from an existing folder when one is given.
pub fn init_mode(options: &Init) -> (r: InitMode)
    ensures
        r == (if options.from_existing is Some {
            InitMode::FromExisting
        } else {
            InitMode::FromScratch
        }),
{
    match options.from_existing {
        Some(_) => InitMode::FromExisting,
        None => InitMode::FromScratch,
    }
}

/// Why `init` stops.
#[derive(Debug, Clone, Copy, PartialEq, Eq, Structural)]
pub enum InitError {
    /// The folder to create exists and overwriting was not asked for.
    FolderExists,
    /// The existing assets folder does not exist.
    FolderMissing,
    /// The existing assets path is not a directory.
    NotADirectory,
    /// A configuration already exists there and overwriting was not asked for.
    ConfigExists,
}

/// What happens to the folder of a sample assets directory.
#[derive(Debug, Clone, Copy, PartialEq, Eq, Structural)]
pub enum FolderAction {
    Create,
    RemoveThenCreate,
}

/// A folder that exists is replaced only when overwriting is asked for.
pub fn scratch_folder_action(folder_exists: bool, overwrite: bool) -> (r: Result<
    FolderAction,
    InitError,
>)
    ensures
        !folder_exists ==> r == Ok::<FolderAction, InitError>(FolderAction::Create),
        folder_exists && overwrite ==> r == Ok::<FolderAction, InitError>(
            FolderAction::RemoveThenCreate,
        ),
        folder_exists && !overwrite ==> r == Err::<FolderAction, InitError>(InitError::FolderExists),
{
    if folder_exists {
        if overwrite {
            Ok(FolderAction::RemoveThenCreate)
        } else {
            Err(InitError::FolderExists)
        }
    } else {
        Ok(FolderAction::Create)
    }
}

/// The existing assets path must be a directory, and its configuration is replaced only
/// when overwriting is asked for.
pub fn check_existing_assets(exists: bool, is_dir: bool, config_exists: bool, overwrite: bool) -> (r:
    Result<(), InitError>)
    ensures
        !exists ==> r == Err::<(), InitError>(InitError::FolderMissing),
        exists && !is_dir ==> r == Err::<(), InitError>(InitError::NotADirectory),
        exists && is_dir && config_exists && !overwrite ==> r == Err::<(), InitError>(
            InitError::ConfigExists,
        ),
        exists && is_dir && !(config_exists && !overwrite) ==> r == Ok::<(), InitError>(()),
{
    if !exists {
        return Err(InitError::FolderMissing);
    }
    if !is_dir {
        return Err(InitError::NotADirectory);
    }
    if config_exists && !overwrite {
        return Err(InitError::ConfigExists);
    }
    Ok(())
}

} // verus!
