//! Command line options for the git-mover tool
use crate::platform::PlatformType;
use crate::utils::Direction;
use vstd::prelude::*;

verus! {

/// git-mover - Move git repositories to a new location
#[derive(Debug)]
pub struct GitMoverCli {
    /// The source platform (github, gitlab, codeberg)
    pub source: Option<PlatformType>,
    /// The destination platform (github, gitlab, codeberg)
    pub destination: Option<PlatformType>,
    /// Don't sync forked repositories
    pub no_forks: bool,
    /// Don't delete repositories
    pub no_delete: bool,
    /// Resync all repositories
    pub resync: bool,
    /// Custom configuration file path
    pub config: Option<String>,
    /// Show the current config path and exit
    pub show_config_path: bool,
    /// Sync manually
    pub manual: bool,
    /// Verbose mode
    pub verbose: u8,
}

/// What the options hold, as the contracts see it.
pub struct GitMoverCliView {
    pub source: Option<PlatformType>,
    pub destination: Option<PlatformType>,
    pub no_forks: bool,
    pub no_delete: bool,
    pub resync: bool,
    pub config: Option<Seq<char>>,
    pub show_config_path: bool,
    pub manual: bool,
    pub verbose: u8,
}

impl View for GitMoverCli {
    type V = GitMoverCliView;

    open spec fn view(&self) -> GitMoverCliView {
        GitMoverCliView {
            source: self.source,
            destination: self.destination,
            no_forks: self.no_forks,
            no_delete: self.no_delete,
            resync: self.resync,
            config: match self.config {
                Some(path) => Some(path@),
                None => None,
            },
            show_config_path: self.show_config_path,
            manual: self.manual,
            verbose: self.verbose,
        }
    }
}

/// The options of a command line without arguments.
pub open spec fn default_cli() -> GitMoverCliView {
    GitMoverCliView {
        source: None,
        destination: None,
        no_forks: false,
        no_delete: false,
        resync: false,
        config: None,
        show_config_path: false,
        manual: false,
        verbose: 0,
    }
}

impl Default for GitMoverCli {
    fn default() -> (cli: GitMoverCli)
        ensures
            cli@ == default_cli(),
    {
        GitMoverCli {
            source: None,
            destination: None,
            no_forks: false,
            no_delete: false,
            resync: false,
            config: None,
            show_config_path: false,
            manual: false,
            verbose: 0,
        }
    }
}

impl Clone for GitMoverCli {
    fn clone(&self) -> (cli: GitMoverCli)
        ensures
            cli@ == self@,
    {
        GitMoverCli {
            source: self.source,
            destination: self.destination,
            no_forks: self.no_forks,
            no_delete: self.no_delete,
            resync: self.resync,
            config: match &self.config {
                Some(path) => Some(path.clone()),
                None => None,
            },
            show_config_path: self.show_config_path,
            manual: self.manual,
            verbose: self.verbose,
        }
    }
}

impl GitMoverCli {
    /// The platform that the command line names for `direction`, if it
    /// names one.
    pub fn platform_for(&self, direction: Direction) -> (p: Option<PlatformType>)
        ensures
            p == match direction {
                Direction::Source => self@.source,
                Direction::Destination => self@.destination,
            },
    {
        match direction {
            Direction::Source => self.source,
            Direction::Destination => self.destination,
        }
    }
}

} // verus!
