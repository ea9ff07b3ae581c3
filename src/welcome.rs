//! The welcome screen: the build directory and the backend version gate.
use vstd::prelude::*;
use vstd::string::*;
use crate::message::Msg;
use crate::text::starts_with;

verus! {

/// The backend version that this wizard drives.
pub open spec fn supported_prefix() -> Seq<char> {
    "1.6"@
}

pub open spec fn is_supported(version: Seq<char>) -> bool {
    supported_prefix().len() <= version.len() && version.subrange(
        0,
        supported_prefix().len() as int,
    ) == supported_prefix()
}

/// A stage of preparing the build directory, in the order in which they run.
#[derive(Clone, Copy, Debug, PartialEq, Eq, Structural)]
pub enum SetupStage {
    /// Create the build directory.
    CreateDir,
    /// Initialise it with the packaging tool.
    InitBuild,
    /// Have the packaging tool fetch its list of sources.
    FetchSources,
}

/// The stage after `s`, if any.
pub open spec fn next_stage_spec(s: SetupStage) -> Option<SetupStage> {
    match s {
        SetupStage::CreateDir => Some(SetupStage::InitBuild),
        SetupStage::InitBuild => Some(SetupStage::FetchSources),
        SetupStage::FetchSources => None,
    }
}

/// Why the welcome screen cannot move on.
#[derive(Debug, PartialEq, Eq)]
pub enum WelcomeError {
    /// A stage of preparing the build directory failed.
    Setup(SetupStage),
    /// The fetch list of the backend could not be read.
    Unreadable,
    /// The backend reported this version, which is not supported.
    Outdated(String),
}

/// Directory `build` inside `chosen`, joined as a path.
pub open spec fn build_dir_spec(chosen: Seq<char>) -> Seq<char> {
    if chosen.len() == 0 {
        "build"@
    } else if chosen.last() == '/' {
        chosen + "build"@
    } else {
        chosen + "/build"@
    }
}

/// The build directory under the directory that the user picked.
pub fn build_dir(chosen: &str) -> (r: String)
    ensures
        r@ == build_dir_spec(chosen@),
{
    let n = chosen.unicode_len();
    if n == 0 {
        String::from_str("build")
    } else if chosen.get_char(n - 1) == '/' {
        let mut r = String::from_str(chosen);
        r.append("build");
        r
    } else {
        let mut r = String::from_str(chosen);
        r.append("/build");
        r
    }
}

/// Checks the version that the backend reported in its fetch list (`None`:
/// the list could not be read).
pub fn check_version(version: Option<&str>) -> (r: Result<(), WelcomeError>)
    ensures
        version is None ==> r == Err::<(), WelcomeError>(WelcomeError::Unreadable),
        version is Some ==> (r is Ok <==> is_supported(version.unwrap()@)),
        version is Some && !is_supported(version.unwrap()@) ==> (r matches Err(
            WelcomeError::Outdated(v),
        ) && v@ == version.unwrap()@),
{
    match version {
        None => Err(WelcomeError::Unreadable),
        Some(v) => {
            if starts_with(v, "1.6") {
                Ok(())
            } else {
                Err(WelcomeError::Outdated(String::from_str(v)))
            }
        },
    }
}

/// After stage `done` of preparing the build directory ran, with outcome
/// `ok`: the stage to run next (`None`: check the version), or the error that
/// keeps the user on the welcome screen.
pub fn setup_next(done: SetupStage, ok: bool) -> (r: Result<Option<SetupStage>, WelcomeError>)
    ensures
        ok ==> r == Ok::<Option<SetupStage>, WelcomeError>(next_stage_spec(done)),
        !ok ==> r == Err::<Option<SetupStage>, WelcomeError>(WelcomeError::Setup(done)),
{
    if !ok {
        return Err(WelcomeError::Setup(done));
    }
    match done {
        SetupStage::CreateDir => Ok(Some(SetupStage::InitBuild)),
        SetupStage::InitBuild => Ok(Some(SetupStage::FetchSources)),
        SetupStage::FetchSources => Ok(None),
    }
}

/// The messages that "next" on the welcome screen sends once the build
/// directory was prepared (`failed`: the stage that failed, if one did) and the
/// fetch list read (`version`: the backend version it reports): the platform
/// screen when setup succeeded and the backend is supported, else the window
/// stays on this screen, unlocked, with the error.
pub fn welcome_next(failed: Option<SetupStage>, version: Option<&str>) -> (r: (
    Vec<Msg>,
    Result<(), WelcomeError>,
))
    ensures
        r.1 is Ok <==> (failed is None && version is Some && is_supported(version.unwrap()@)),
        r.1 is Ok ==> r.0@ == seq![Msg::DrawPlatform],
        r.1 is Err ==> r.0@ == seq![Msg::WindActivate],
        failed matches Some(s) ==> r.1 == Err::<(), WelcomeError>(WelcomeError::Setup(s)),
        failed is None && version is None ==> r.1 == Err::<(), WelcomeError>(
            WelcomeError::Unreadable,
        ),
        failed is None && version is Some && !is_supported(version.unwrap()@) ==> (r.1 matches Err(
            WelcomeError::Outdated(v),
        ) && v@ == version.unwrap()@),
{
    if let Some(s) = failed {
        return (vec![Msg::WindActivate], Err(WelcomeError::Setup(s)));
    }
    let status = check_version(version);
    if status.is_ok() {
        (vec![Msg::DrawPlatform], status)
    } else {
        (vec![Msg::WindActivate], status)
    }
}

impl WelcomeError {
    /// Status text for this error.
    pub fn describe(&self) -> (r: String)
        ensures
            self == WelcomeError::Setup(SetupStage::CreateDir) ==> r@
                == "Could not create build directory"@,
            self == WelcomeError::Setup(SetupStage::InitBuild) ==> r@
                == "Error to initialize build directory"@,
            self == WelcomeError::Setup(SetupStage::FetchSources) ==> r@
                == "Could not fetch the list of sources"@,
            self is Unreadable ==> r@
                == "error: could not read fetch.json, backend failed? No internet?"@,
            self matches WelcomeError::Outdated(v) ==> r@ == "error: you should update to version "@
                + v@,
    {
        match self {
            WelcomeError::Setup(SetupStage::CreateDir) => String::from_str(
                "Could not create build directory",
            ),
            WelcomeError::Setup(SetupStage::InitBuild) => String::from_str(
                "Error to initialize build directory",
            ),
            WelcomeError::Setup(SetupStage::FetchSources) => String::from_str(
                "Could not fetch the list of sources",
            ),
            WelcomeError::Unreadable => String::from_str(
                "error: could not read fetch.json, backend failed? No internet?",
            ),
            WelcomeError::Outdated(v) => {
                let mut r = String::from_str("error: you should update to version ");
                r.append(v.as_str());
                r
            },
        }
    }
}

} // verus!
