use vstd::prelude::*;

use crate::text::texts;

verus! {

/// Environment variable that holds the user's home directory.
pub const HOME_VARIABLE: &'static str = "USERPROFILE";

/// Folder under the home directory that holds the user's documents.
pub const DOCUMENTS_DIR: &'static str = "Documents";

/// Folder under the documents folder that holds the saved projects.
pub const PROJECTS_DIR: &'static str = "MAVI_Projects";

/// Why a project could not be saved.
pub enum PersistError {
    /// The home directory is not configured.
    Configuration(String),
    /// Creating the folder or writing the file failed.
    Io(String),
}

impl PersistError {
    /// The report carried by the error.
    pub open spec fn text(self) -> Seq<char> {
        match self {
            PersistError::Configuration(m) => m@,
            PersistError::Io(m) => m@,
        }
    }

    /// The report that the host shows.
    pub fn message(&self) -> (r: String)
        ensures
            r@ == self.text(),
    {
        match self {
            PersistError::Configuration(m) => m.clone(),
            PersistError::Io(m) => m.clone(),
        }
    }
}

/// Where a save stands. Paths are lists of components, joined by the host.
pub enum SaveState {
    /// Waiting for the home directory.
    AwaitingHome { file_name: String, data: Vec<u8> },
    /// Waiting for the project folder to exist.
    AwaitingDir { file: Vec<String>, data: Vec<u8> },
    /// Waiting for the file to be written.
    AwaitingWrite,
    /// Nothing more to do.
    Finished,
}

/// What the host reports back after doing what was asked.
pub enum SaveEvent {
    /// The home directory, or why it could not be read.
    Home(Result<String, String>),
    /// Whether the project folder now exists, or why not.
    DirCreated(Result<(), String>),
    /// The written file's full path as text, or why the write failed.
    Written(Result<String, String>),
}

/// What the host is to do next.
pub enum SaveAction {
    /// Create this folder and every missing parent.
    CreateDir(Vec<String>),
    /// Write exactly these bytes to this file, replacing what it held.
    WriteFile(Vec<String>, Vec<u8>),
    /// Hand this result to the caller.
    Finish(Result<String, PersistError>),
}

/// The project folder under a home directory.
pub open spec fn project_dir(home: Seq<char>) -> Seq<Seq<char>> {
    seq![home, DOCUMENTS_DIR@, PROJECTS_DIR@]
}


/// Whether `state` waits for an event of the kind of `event`.
pub open spec fn fits(state: SaveState, event: SaveEvent) -> bool {
    match state {
        SaveState::AwaitingHome { .. } => event is Home,
        SaveState::AwaitingDir { .. } => event is DirCreated,
        SaveState::AwaitingWrite => event is Written,
        SaveState::Finished => false,
    }
}

/// A finished save takes no further event, so it asks for no further action.
pub proof fn lemma_finished_takes_nothing(event: SaveEvent)
    ensures
        !fits(SaveState::Finished, event),
{
}

impl SaveState {
    /// A save of `data` under `file_name` in the project folder.
    pub fn start(file_name: String, data: Vec<u8>) -> (r: SaveState)
        ensures
            r matches SaveState::AwaitingHome { file_name: f, data: d } && f@ == file_name@ && d@
                == data@,
    {
        SaveState::AwaitingHome { file_name, data }
    }

    /// Whether the save has nothing more to do.
    pub fn is_finished(&self) -> (r: bool)
        ensures
            r == (*self is Finished),
    {
        matches!(self, SaveState::Finished)
    }

    /// Whether this state waits for an event of the kind of `event`.
    pub fn accepts(&self, event: &SaveEvent) -> (r: bool)
        ensures
            r == fits(*self, *event),
    {
        match self {
            SaveState::AwaitingHome { .. } => matches!(event, SaveEvent::Home(_)),
            SaveState::AwaitingDir { .. } => matches!(event, SaveEvent::DirCreated(_)),
            SaveState::AwaitingWrite => matches!(event, SaveEvent::Written(_)),
            SaveState::Finished => false,
        }
    }
}

fn prefixed(prefix: &str, cause: &String) -> (r: String)
    ensures
        r@ == prefix@ + cause@,
{
    let mut r = String::from_str(prefix);
    r.append(cause.as_str());
    r
}

/// Advances a save by one event. A missing home directory ends the save
/// before anything is created or written; the folder is created before the
/// file is written; the bytes written are exactly those given at the start.
pub fn save_step(state: SaveState, event: SaveEvent) -> (r: (SaveState, SaveAction))
    requires
        fits(state, event),
    ensures
        match state {
            SaveState::AwaitingHome { file_name, data } => match event {
                SaveEvent::Home(Err(cause)) => r.0 is Finished && (r.1 matches SaveAction::Finish(
                    Err(PersistError::Configuration(m)),
                ) && m@ == HOME_VARIABLE@ + " not found: "@ + cause@),
                SaveEvent::Home(Ok(home)) => (r.0 matches SaveState::AwaitingDir { file, data: d }
                    && texts(file@) == project_dir(home@).push(file_name@) && d@ == data@) && (
                r.1 matches SaveAction::CreateDir(dir) && texts(dir@) == project_dir(home@)),
                _ => true,
            },
            SaveState::AwaitingDir { file, data } => match event {
                SaveEvent::DirCreated(Err(cause)) => r.0 is Finished && (r.1 matches SaveAction::Finish(
                    Err(PersistError::Io(m)),
                ) && m@ == "Failed to create directory: "@ + cause@),
                SaveEvent::DirCreated(Ok(())) => r.0 is AwaitingWrite && (r.1 matches SaveAction::WriteFile(
                    path,
                    d,
                ) && texts(path@) == texts(file@) && d@ == data@),
                _ => true,
            },
            SaveState::AwaitingWrite => match event {
                SaveEvent::Written(Err(cause)) => r.0 is Finished && (r.1 matches SaveAction::Finish(
                    Err(PersistError::Io(m)),
                ) && m@ == "Failed to save file: "@ + cause@),
                SaveEvent::Written(Ok(path)) => r.0 is Finished && (r.1 matches SaveAction::Finish(
                    Ok(p),
                ) && p@ == path@),
                _ => true,
            },
            SaveState::Finished => true,
        },
{
    match state {
        SaveState::AwaitingHome { file_name, data } => match event {
            SaveEvent::Home(Err(cause)) => {
                let mut m = String::from_str(HOME_VARIABLE);
                m.append(" not found: ");
                m.append(cause.as_str());
                (SaveState::Finished, SaveAction::Finish(Err(PersistError::Configuration(m))))
            },
            SaveEvent::Home(Ok(home)) => {
                let mut dir: Vec<String> = Vec::new();
                dir.push(home.clone());
                dir.push(String::from_str(DOCUMENTS_DIR));
                dir.push(String::from_str(PROJECTS_DIR));
                let mut file: Vec<String> = Vec::new();
                file.push(home);
                file.push(String::from_str(DOCUMENTS_DIR));
                file.push(String::from_str(PROJECTS_DIR));
                file.push(file_name);
                assert(texts(dir@) =~= project_dir(dir@[0]@));
                assert(texts(file@) =~= project_dir(dir@[0]@).push(file@[3]@));
                (SaveState::AwaitingDir { file, data }, SaveAction::CreateDir(dir))
            },
            _ => unreached(),
        },
        SaveState::AwaitingDir { file, data } => match event {
            SaveEvent::DirCreated(Err(cause)) => {
                let m = prefixed("Failed to create directory: ", &cause);
                (SaveState::Finished, SaveAction::Finish(Err(PersistError::Io(m))))
            },
            SaveEvent::DirCreated(Ok(())) => (SaveState::AwaitingWrite, SaveAction::WriteFile(file, data)),
            _ => unreached(),
        },
        SaveState::AwaitingWrite => match event {
            SaveEvent::Written(Err(cause)) => {
                let m = prefixed("Failed to save file: ", &cause);
                (SaveState::Finished, SaveAction::Finish(Err(PersistError::Io(m))))
            },
            SaveEvent::Written(Ok(path)) => (SaveState::Finished, SaveAction::Finish(Ok(path))),
            _ => unreached(),
        },
        SaveState::Finished => unreached(),
    }
}

} // verus!
