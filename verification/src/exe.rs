//! Finding the daemon executable.

use crate::conf::{Environment, EnvironmentView};
use crate::error::{Error, ErrorView};
use crate::text::opt_text;
use crate::versions::{electrs_name, electrs_name_text, Compat};
use vstd::prelude::*;
use vstd::string::StringExecFns;

verus! {

/// The name under which the daemon is looked up on the search path.
pub const EXE_NAME: &'static str = "electrs";

/// The mathematical value of the outcome of a search for the executable.
pub open spec fn outcome_text(r: Result<String, Error>) -> Result<Seq<char>, ErrorView> {
    match r {
        Ok(path) => Ok(path@),
        Err(e) => Err(e@),
    }
}

/// Where the build has put the executable of the pinned release, under
/// `out_dir`; none where no release is pinned or downloads are skipped.
pub open spec fn downloaded_exe_text(compat: Compat, env: EnvironmentView, out_dir: Seq<char>)
    -> Option<Seq<char>> {
    if compat.has_release() && !env.skip_download {
        Some(out_dir + "/electrs/"@ + electrs_name_text(compat.release) + "/electrs"@)
    } else {
        None
    }
}

/// The executable to run, in this order of precedence: the one that the
/// environment names, by either variable but not by both; the downloaded
/// one; the one found on the search path.
pub open spec fn exe_choice(
    env: EnvironmentView,
    downloaded: Option<Seq<char>>,
    found: Option<Seq<char>>,
) -> Result<Seq<char>, ErrorView> {
    if env.electrs_exec is Some && env.electrs_exe is Some {
        Err(ErrorView::BothEnvVars)
    } else if let Some(path) = env.electrs_exec {
        Ok(path)
    } else if let Some(path) = env.electrs_exe {
        Ok(path)
    } else if let Some(path) = downloaded {
        Ok(path)
    } else if let Some(path) = found {
        Ok(path)
    } else {
        Err(ErrorView::NoElectrsExecutableFound)
    }
}

/// Whether the choice of the executable needs a look at the search path.
pub open spec fn needs_lookup(env: EnvironmentView, downloaded: Option<Seq<char>>) -> bool {
    env.electrs_exec is None && env.electrs_exe is None && downloaded is None
}

/// The path of the downloaded executable, if a release is pinned and
/// downloads are not skipped.
pub fn downloaded_exe_path(compat: Compat, env: &Environment, out_dir: &str) -> (path: Option<
    String,
>)
    ensures
        opt_text(path) == downloaded_exe_text(compat, env@, out_dir@),
{
    if compat.has_release() && !env.skip_download {
        let mut path = String::from_str(out_dir);
        path.append("/electrs/");
        path.append(electrs_name(compat.release).as_str());
        path.append("/electrs");
        Some(path)
    } else {
        None
    }
}

/// Calls `which::which`, which looks in each directory of the search path
/// for an executable file named `name`, and returns the path that it found,
/// as text, or `None` where it reports an error. What is found depends on
/// the environment and on the disk, so nothing is claimed of it.
#[verifier::external_body]
fn find_in_path(name: &str) -> (found: Option<String>) {
    match which::which(name) {
        Ok(path) => Some(path.display().to_string()),
        Err(_) => None,
    }
}

/// Chooses the executable, given what a look at the search path found.
pub fn choose_exe(env: &Environment, downloaded: Option<String>, found: Option<String>) -> (r:
    Result<String, Error>)
    ensures
        outcome_text(r) == exe_choice(env@, opt_text(downloaded), opt_text(found)),
{
    match (&env.electrs_exec, &env.electrs_exe) {
        (Some(_), Some(_)) => Err(Error::BothEnvVars),
        (Some(path), None) => Ok(path.clone()),
        (None, Some(path)) => Ok(path.clone()),
        (None, None) => match downloaded {
            Some(path) => Ok(path),
            None => match found {
                Some(path) => Ok(path),
                None => Err(Error::NoElectrsExecutableFound),
            },
        },
    }
}

/// Returns the daemon executable: the one named by `ELECTRS_EXEC` or by
/// `ELECTRS_EXE` (an error if both are set), else the downloaded one, else
/// the `electrs` found on the search path, which is looked at only then.
pub fn exe_path(compat: Compat, env: &Environment, out_dir: &str) -> (r: Result<String, Error>)
    ensures
        exists|found: Option<Seq<char>>|
            outcome_text(r) == exe_choice(
                env@,
                downloaded_exe_text(compat, env@, out_dir@),
                found,
            ),
        !needs_lookup(env@, downloaded_exe_text(compat, env@, out_dir@)) ==> outcome_text(r)
            == exe_choice(env@, downloaded_exe_text(compat, env@, out_dir@), None),
{
    let downloaded = downloaded_exe_path(compat, env, out_dir);
    let found = if env.electrs_exec.is_none() && env.electrs_exe.is_none()
        && downloaded.is_none() {
        find_in_path(EXE_NAME)
    } else {
        None
    };
    let ghost witness = opt_text(found);
    let r = choose_exe(env, downloaded, found);
    assert(outcome_text(r) == exe_choice(
        env@,
        downloaded_exe_text(compat, env@, out_dir@),
        witness,
    ));
    r
}

} // verus!
