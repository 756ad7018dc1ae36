//! Launching the supervised executable: the steps to take, in order, and how
//! their outcome fills the shared process slot.
use vstd::prelude::*;

verus! {

/// Why the supervised process could not be started.
#[derive(Clone, Copy, Debug, PartialEq, Eq, Structural)]
pub enum LaunchError {
    /// The executable path has no parent directory to run in.
    NoParentDirectory,
    /// The working directory could not be entered.
    WorkingDirectory,
    /// The executable could not be spawned.
    Spawn,
}

/// One step of a launch.
#[derive(Debug)]
pub enum LaunchStep {
    /// Make this directory the working directory.
    ChangeDir(String),
    /// Start this executable with no arguments.
    Spawn(String),
}

/// What `std::path::Path::parent` gives for a path.
pub uninterp spec fn path_parent(p: Seq<char>) -> Option<Seq<char>>;

/// Relies on `std::path::Path::parent`: the path without its final
/// component, and none for an empty path.
#[verifier::external_body]
fn parent_dir(path: &str) -> (r: Option<String>)
    ensures
        match r {
            Some(d) => path_parent(path@) == Some(d@),
            None => path_parent(path@) is None,
        },
        path@.len() == 0 ==> r is None,
{
    std::path::Path::new(path).parent().map(|d| d.to_string_lossy().into_owned())
}

/// Steps that run `path` inside its parent directory: entering the directory
/// comes before the spawn.
pub open spec fn is_launch_plan(steps: Seq<LaunchStep>, path: Seq<char>, dir: Seq<char>) -> bool {
    &&& steps.len() == 2
    &&& (steps[0] matches LaunchStep::ChangeDir(d) && d@ == dir)
    &&& (steps[1] matches LaunchStep::Spawn(p) && p@ == path)
}

/// The steps that launch the executable at `path`, or `NoParentDirectory`
/// when the path has no parent.
pub fn launch_steps(path: &str) -> (r: Result<Vec<LaunchStep>, LaunchError>)
    ensures
        match path_parent(path@) {
            Some(dir) => (r matches Ok(steps) && is_launch_plan(steps@, path@, dir)),
            None => r == Err::<Vec<LaunchStep>, LaunchError>(LaunchError::NoParentDirectory),
        },
        path@.len() == 0 ==> r == Err::<Vec<LaunchStep>, LaunchError>(
            LaunchError::NoParentDirectory,
        ),
{
    match parent_dir(path) {
        Some(dir) => {
            let mut steps: Vec<LaunchStep> = Vec::new();
            steps.push(LaunchStep::ChangeDir(dir));
            steps.push(LaunchStep::Spawn(path.to_owned()));
            Ok(steps)
        },
        None => Err(LaunchError::NoParentDirectory),
    }
}

/// Puts a launched process into the shared slot; a failed launch leaves the
/// slot as it was and passes the error on.
pub fn settle_launch<T>(slot: &mut Option<T>, launched: Result<T, LaunchError>) -> (r: Result<
    (),
    LaunchError,
>)
    ensures
        match launched {
            Ok(child) => *final(slot) == Some(child) && r is Ok,
            Err(e) => *final(slot) == *old(slot) && r == Err::<(), LaunchError>(e),
        },
{
    match launched {
        Ok(child) => {
            *slot = Some(child);
            Ok(())
        },
        Err(e) => Err(e),
    }
}

} // verus!
