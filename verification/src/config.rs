//! Run configuration: the resolved command line, login credentials, and the
//! startup validation that rejects a bad worker count, page size or page
//! budget before any network activity.

use vstd::prelude::*;

verus! {

/// Hard cap on the number of parallel download workers.
pub const MAX_THREADS: usize = 10;

/// Hard cap on the number of posts requested per page.
pub const MAX_PAGE_SIZE: u32 = 250;

/// The subcommand of one invocation.
#[derive(Debug)]
pub enum Commands {
    /// Delete the download directory and everything in it.
    ClearDl,
    /// Download a user's favorites.
    DFavs { username: String, count: u32, random: bool, tags: String },
    /// Download the posts a tag search returns.
    DTags { tags: String, count: u32, random: bool },
}

/// The command line, resolved: subcommand plus global flags.
#[derive(Debug)]
pub struct Args {
    pub command: Option<Commands>,
    pub verbose: bool,
    pub login: bool,
    pub api_source: String,
    pub lower_quality: bool,
    pub pages: i64,
    pub num_threads: usize,
}

/// The settings a run carries into the pipeline.
#[derive(Debug)]
pub struct CliContext {
    pub verbose: bool,
    pub api_source: String,
    pub lower_quality: bool,
    pub pages: i64,
    pub num_threads: usize,
}

/// Optional credentials; both parts empty means anonymous requests.
#[derive(Debug)]
pub struct Login {
    pub username: String,
    pub api_key: String,
}

impl Login {
    /// Credentials are attached to a request only when both the username
    /// and the key are non-empty.
    pub fn has_credentials(&self) -> (r: bool)
        ensures
            r == (self.username@.len() > 0 && self.api_key@.len() > 0),
    {
        !self.username.as_str().is_empty() && !self.api_key.as_str().is_empty()
    }
}

/// A configuration the run refuses at startup, before any network or
/// filesystem activity.
#[derive(Clone, Copy, Debug, PartialEq, Eq, Structural)]
pub enum ConfigError {
    /// The worker count exceeds the hard cap.
    TooManyThreads,
    /// The per-page post count exceeds the hard cap.
    PageSizeTooLarge,
    /// The page budget is neither unbounded (`-1`) nor a positive count.
    InvalidPageBudget,
    /// A tag search asks for every page; it needs an exact page count.
    MissingPageBudget,
}

impl ConfigError {
    /// The message reported to the user for this error.
    pub fn message(&self) -> (r: &'static str)
        ensures
            match self {
                ConfigError::TooManyThreads => r@ == "Cannot go above 10 threads for downloads."@,
                ConfigError::PageSizeTooLarge => r@ == "Cannot go above 250 posts per page."@,
                ConfigError::InvalidPageBudget => r@
                    == "The page amount must be -1 for all pages, or a positive count."@,
                ConfigError::MissingPageBudget => r@
                    == "You NEED to specify the page amount for downloading with tags. Exiting..."@,
            },
    {
        match self {
            ConfigError::TooManyThreads => "Cannot go above 10 threads for downloads.",
            ConfigError::PageSizeTooLarge => "Cannot go above 250 posts per page.",
            ConfigError::InvalidPageBudget => "The page amount must be -1 for all pages, or a positive count.",
            ConfigError::MissingPageBudget => "You NEED to specify the page amount for downloading with tags. Exiting...",
        }
    }
}

/// The per-page post count a command asks for, if it is a download command.
pub open spec fn requested_page_size(command: Option<Commands>) -> Option<u32> {
    match command {
        Some(Commands::DFavs { count, .. }) => Some(count),
        Some(Commands::DTags { count, .. }) => Some(count),
        _ => None,
    }
}

/// Whether a command starts the download pipeline at all.
pub open spec fn is_download_command(command: Option<Commands>) -> bool {
    ||| command matches Some(Commands::DFavs { .. })
    ||| command matches Some(Commands::DTags { .. })
}

/// The startup validation: the first configuration error found, checked in
/// the order worker count, page size, page budget.
pub open spec fn validate_spec(args: Args) -> Result<(), ConfigError> {
    if args.num_threads > MAX_THREADS {
        Err(ConfigError::TooManyThreads)
    } else if requested_page_size(args.command) matches Some(c) && c > MAX_PAGE_SIZE {
        Err(ConfigError::PageSizeTooLarge)
    } else if is_download_command(args.command) && !(args.pages == -1 || args.pages > 0) {
        Err(ConfigError::InvalidPageBudget)
    } else if args.command matches Some(Commands::DTags { .. }) && args.pages == -1 {
        Err(ConfigError::MissingPageBudget)
    } else {
        Ok(())
    }
}

impl Args {
    /// Checks the configuration before any work starts; a run with an
    /// error here halts with no partial state created.
    pub fn validate(&self) -> (r: Result<(), ConfigError>)
        ensures
            r == validate_spec(*self),
    {
        if self.num_threads > MAX_THREADS {
            return Err(ConfigError::TooManyThreads);
        }
        let page_size: Option<u32> = match &self.command {
            Some(Commands::DFavs { count, .. }) => Some(*count),
            Some(Commands::DTags { count, .. }) => Some(*count),
            _ => None,
        };
        if let Some(c) = page_size {
            if c > MAX_PAGE_SIZE {
                return Err(ConfigError::PageSizeTooLarge);
            }
        }
        let is_download = match &self.command {
            Some(Commands::DFavs { .. }) => true,
            Some(Commands::DTags { .. }) => true,
            _ => false,
        };
        if is_download && !(self.pages == -1 || self.pages > 0) {
            return Err(ConfigError::InvalidPageBudget);
        }
        let is_tags = match &self.command {
            Some(Commands::DTags { .. }) => true,
            _ => false,
        };
        if is_tags && self.pages == -1 {
            return Err(ConfigError::MissingPageBudget);
        }
        Ok(())
    }
}

} // verus!
