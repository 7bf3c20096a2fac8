//! Job configuration: what one extraction run is asked to do, and whether it
//! belongs to a watch.

use vstd::prelude::*;
use vstd::std_specs::convert::FromSpecImpl;

verus! {

/// How an extraction job relates to watching its source for changes.
#[derive(Debug, Clone, Copy, PartialEq, Eq, Structural)]
pub enum WatchState {
    /// Watching was asked for and has not begun.
    Requested,
    /// The job runs inside the watch loop.
    Watching,
    /// A single run, with no watch.
    Disabled,
}

impl WatchState {
    /// The state that the command line's watch switch asks for.
    pub fn from_switch(watch: bool) -> (r: WatchState)
        ensures
            r == (if watch { WatchState::Requested } else { WatchState::Disabled }),
    {
        if watch {
            WatchState::Requested
        } else {
            WatchState::Disabled
        }
    }

    /// Whether the job belongs to a watch, begun or not.
    pub open spec fn spec_is_watch(self) -> bool {
        self != WatchState::Disabled
    }

    /// Whether the job belongs to a watch, begun or not.
    #[verifier::when_used_as_spec(spec_is_watch)]
    pub fn is_watch(self) -> (r: bool)
        ensures
            r == self.spec_is_watch(),
    {
        match self {
            WatchState::Disabled => false,
            _ => true,
        }
    }
}

/// The failure of a command to find what it was asked to work on.
#[derive(Debug, Clone, Copy, PartialEq, Eq, Structural)]
pub struct CommandError;

/// `steamlocate::Error`, the error of the Steam library locator. It is
/// carried through and never looked into.
#[verifier::external_type_specification]
#[verifier::external_body]
pub struct ExSteamError(steamlocate::Error);

impl From<steamlocate::Error> for CommandError {
    fn from(_e: steamlocate::Error) -> (r: CommandError) {
        CommandError
    }
}

impl FromSpecImpl<steamlocate::Error> for CommandError {
    open spec fn obeys_from_spec() -> bool {
        true
    }

    open spec fn from_spec(_e: steamlocate::Error) -> CommandError {
        CommandError
    }
}

impl<'a> From<&'a str> for CommandError {
    fn from(_message: &'a str) -> (r: CommandError) {
        CommandError
    }
}

impl<'a> FromSpecImpl<&'a str> for CommandError {
    open spec fn obeys_from_spec() -> bool {
        true
    }

    open spec fn from_spec(_message: &'a str) -> CommandError {
        CommandError
    }
}

/// What an extraction job is, with its source path as text.
pub struct JobView {
    pub file_name: Seq<char>,
    pub folder: bool,
    pub watch: WatchState,
    pub collate: bool,
}

/// The configuration of one extraction run.
#[derive(Debug)]
pub struct YankConfig {
    /// The path of the blueprint to extract from.
    pub file_name: String,
    /// Whether the files go below a directory named after the blueprint.
    pub folder: bool,
    /// How the run relates to a watch.
    pub watch: WatchState,
    /// Whether each file is written under its bare name, not below its
    /// component's path.
    pub disable_collate: bool,
}

impl View for YankConfig {
    type V = JobView;

    open spec fn view(&self) -> JobView {
        JobView {
            file_name: self.file_name@,
            folder: self.folder,
            watch: self.watch,
            collate: !self.disable_collate,
        }
    }
}

impl YankConfig {
    /// The job that the command line's switches describe.
    pub fn new(file_name: String, folder: bool, watch: bool, no_collate: bool) -> (r: YankConfig)
        ensures
            r@ == (JobView {
                file_name: file_name@,
                folder,
                watch: if watch { WatchState::Requested } else { WatchState::Disabled },
                collate: !no_collate,
            }),
    {
        YankConfig {
            file_name,
            folder,
            watch: WatchState::from_switch(watch),
            disable_collate: no_collate,
        }
    }

    /// Takes the source path and the folder switch over from a new command
    /// line. The watch is switched off where the new line does not ask for
    /// one and is otherwise left as it was; collation is left as it was.
    pub fn update(&mut self, file_name: String, folder: bool, watch: bool)
        ensures
            final(self)@ == (JobView {
                file_name: file_name@,
                folder,
                watch: if watch { old(self).watch } else { WatchState::Disabled },
                collate: old(self)@.collate,
            }),
    {
        self.file_name = file_name;
        self.folder = folder;
        if !watch {
            self.watch = WatchState::Disabled;
        }
    }
}

impl Clone for YankConfig {
    fn clone(&self) -> (r: YankConfig)
        ensures
            r@ == self@,
    {
        YankConfig {
            file_name: self.file_name.clone(),
            folder: self.folder,
            watch: self.watch,
            disable_collate: self.disable_collate,
        }
    }
}

/// The configuration of one packaging run.
#[derive(Debug)]
pub struct PackageConfig {
    /// The path of the blueprint to package.
    pub file_name: String,
    /// How the run relates to a watch.
    pub watch: WatchState,
}

impl PackageConfig {
    /// The packaging job that the command line's switches describe.
    pub fn new(file_name: String, watch: bool) -> (r: PackageConfig)
        ensures
            r.file_name@ == file_name@,
            r.watch == (if watch { WatchState::Requested } else { WatchState::Disabled }),
    {
        PackageConfig { file_name, watch: WatchState::from_switch(watch) }
    }

    /// Takes the source path over from a new command line. The watch is
    /// switched off where the new line does not ask for one and is otherwise
    /// left as it was.
    pub fn update(&mut self, file_name: String, watch: bool)
        ensures
            final(self).file_name@ == file_name@,
            final(self).watch == (if watch { old(self).watch } else { WatchState::Disabled }),
    {
        self.file_name = file_name;
        if !watch {
            self.watch = WatchState::Disabled;
        }
    }
}

impl Clone for PackageConfig {
    fn clone(&self) -> (r: PackageConfig)
        ensures
            r.file_name@ == self.file_name@,
            r.watch == self.watch,
    {
        PackageConfig { file_name: self.file_name.clone(), watch: self.watch }
    }
}

impl From<PackageConfig> for YankConfig {
    /// The extraction that packaging performs: into a directory named after
    /// the blueprint, collated, with the packaging job's watch state.
    fn from(config: PackageConfig) -> (r: YankConfig) {
        YankConfig {
            file_name: config.file_name,
            folder: true,
            watch: config.watch,
            disable_collate: false,
        }
    }
}

impl FromSpecImpl<PackageConfig> for YankConfig {
    open spec fn obeys_from_spec() -> bool {
        true
    }

    open spec fn from_spec(config: PackageConfig) -> YankConfig {
        YankConfig {
            file_name: config.file_name,
            folder: true,
            watch: config.watch,
            disable_collate: false,
        }
    }
}

} // verus!
