//! Where the backend's files lie. The caller knows the directories and asks
//! the file system; what is decided here is which of the candidates counts.
//! A place below a directory is given as the components to append to it.

use crate::config::process::BACKEND_DATA_DIR;
use crate::config::ServerMode;
use crate::text::push_text;
use vstd::prelude::*;
use vstd::string::*;

verus! {

/// The file that lists the runtime's requirements.
pub const REQUIREMENTS_FILE: &'static str = "requirements-runtime.txt";

/// The script that starts the backend.
pub const START_SCRIPT: &'static str = "start_backend.py";

/// The directory in which the requirements file was found.
#[derive(Debug, Clone, Copy, PartialEq, Eq, Structural)]
pub enum RequirementsPlace {
    /// The backend's root.
    Root,
    /// The directory above the root.
    Parent,
    /// The directory `backend` below the root.
    Backend,
}

/// The start script below the backend's root: under `lifetrace/scripts`
/// where it is there, else under `scripts`.
pub open spec fn script_entry(nested_exists: bool) -> Seq<Seq<char>> {
    if nested_exists {
        seq!["lifetrace"@, "scripts"@, START_SCRIPT@]
    } else {
        seq!["scripts"@, START_SCRIPT@]
    }
}

/// The start script, as the components below the backend's root.
/// `nested_exists` says whether the script lies under `lifetrace/scripts`.
pub fn get_backend_script_entry(nested_exists: bool) -> (path: Vec<String>)
    ensures
        path.deep_view() == script_entry(nested_exists),
{
    let mut path: Vec<String> = Vec::new();
    assert(path.deep_view() =~= Seq::<Seq<char>>::empty());
    if nested_exists {
        push_text(&mut path, "lifetrace");
    }
    push_text(&mut path, "scripts");
    push_text(&mut path, START_SCRIPT);
    assert(path.deep_view() =~= script_entry(nested_exists));
    path
}

/// Where the requirements file is taken from: the root where it has the
/// file, else the directory above where there is one and it has the file,
/// else `backend` below the root where that has it; and the root again
/// where none has.
pub open spec fn requirements_place(in_root: bool, in_parent: Option<bool>, in_backend: bool) -> RequirementsPlace {
    if in_root {
        RequirementsPlace::Root
    } else if in_parent == Some(true) {
        RequirementsPlace::Parent
    } else if in_backend {
        RequirementsPlace::Backend
    } else {
        RequirementsPlace::Root
    }
}

/// Chooses the requirements file. Each argument says whether the file
/// exists in that place; `in_parent` is `None` where the root has no
/// directory above it.
pub fn get_requirements_path(in_root: bool, in_parent: Option<bool>, in_backend: bool) -> (place:
    RequirementsPlace)
    ensures
        place == requirements_place(in_root, in_parent, in_backend),
{
    if in_root {
        return RequirementsPlace::Root;
    }
    match in_parent {
        Some(found) => {
            if found {
                return RequirementsPlace::Parent;
            }
        },
        None => {},
    }
    if in_backend {
        RequirementsPlace::Backend
    } else {
        RequirementsPlace::Root
    }
}

/// The requirements file of a place: below the root for `Root` and
/// `Backend`, below the directory above it for `Parent`.
pub fn requirements_components(place: RequirementsPlace) -> (path: Vec<String>)
    ensures
        path.deep_view() == (match place {
            RequirementsPlace::Backend => seq!["backend"@, REQUIREMENTS_FILE@],
            _ => seq![REQUIREMENTS_FILE@],
        }),
{
    let mut path: Vec<String> = Vec::new();
    assert(path.deep_view() =~= Seq::<Seq<char>>::empty());
    match place {
        RequirementsPlace::Backend => {
            push_text(&mut path, "backend");
            push_text(&mut path, REQUIREMENTS_FILE);
            assert(path.deep_view() =~= seq!["backend"@, REQUIREMENTS_FILE@]);
        },
        _ => {
            push_text(&mut path, REQUIREMENTS_FILE);
            assert(path.deep_view() =~= seq![REQUIREMENTS_FILE@]);
        },
    }
    path
}

/// Picks from candidates, given in their order of preference, the first
/// that exists.
pub fn choose_existing(exists: &Vec<bool>) -> (choice: Option<usize>)
    ensures
        match choice {
            Some(i) => i < exists.len() && exists[i as int] && forall|j: int|
                0 <= j < i ==> !exists[j],
            None => forall|j: int| 0 <= j < exists.len() ==> !exists[j],
        },
{
    let mut i: usize = 0;
    while i < exists.len()
        invariant
            i <= exists.len(),
            forall|j: int| 0 <= j < i ==> !exists[j],
        decreases exists.len() - i,
    {
        if exists[i] {
            return Some(i);
        }
        i += 1;
    }
    None
}

/// The name of the backend's data directory, below the application's
/// data directory: the plain name for a packaged run that finds that
/// directory in place, else the name with the mode behind it.
pub open spec fn data_dir_name(mode: ServerMode, legacy_exists: bool) -> Seq<char> {
    if mode == ServerMode::Build && legacy_exists {
        BACKEND_DATA_DIR@
    } else {
        BACKEND_DATA_DIR@ + "-"@ + (match mode {
            ServerMode::Dev => "dev"@,
            ServerMode::Build => "build"@,
        })
    }
}

/// Names the backend's data directory.
pub fn get_data_dir(mode: ServerMode, legacy_exists: bool) -> (name: String)
    ensures
        name@ == data_dir_name(mode, legacy_exists),
{
    let mut name = String::from_str(BACKEND_DATA_DIR);
    match mode {
        ServerMode::Build => {
            if !legacy_exists {
                name.append("-");
                name.append("build");
            }
        },
        ServerMode::Dev => {
            name.append("-");
            name.append("dev");
        },
    }
    assert(name@ =~= data_dir_name(mode, legacy_exists));
    name
}

} // verus!
