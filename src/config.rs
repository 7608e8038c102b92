//! Process configuration, decided from the values of its variables.
use vstd::prelude::*;

verus! {

/// File name within the gist when none is configured.
pub const DEFAULT_GIST_FILENAME: &'static str = "top-tracks.md";

pub struct Config {
    pub last_fm_username: String,
    pub destination_folder: String,
    pub gist_id: String,
    pub github_token: String,
    pub gist_filename: String,
}

pub open spec fn missing_text(var: Seq<char>) -> Seq<char> {
    "Missing env var: "@ + var
}

/// The error for the first required variable, in order, that is unset.
pub open spec fn first_missing(
    has_username: bool,
    has_destination: bool,
    has_gist_id: bool,
    has_token: bool,
) -> Option<Seq<char>> {
    if !has_username {
        Some(missing_text("LAST_FM_USERNAME"@))
    } else if !has_destination {
        Some(missing_text("DESTINATION_FOLDER"@))
    } else if !has_gist_id {
        Some(missing_text("GIST_ID"@))
    } else if !has_token {
        Some(missing_text("GITHUB_TOKEN"@))
    } else {
        None
    }
}

fn missing(var: &str) -> (r: String)
    ensures
        r@ == missing_text(var@),
{
    let mut r = String::from_str("Missing env var: ");
    r.append(var);
    r
}

impl Config {
    /// Builds the configuration from the values of `LAST_FM_USERNAME`,
    /// `DESTINATION_FOLDER`, `GIST_ID`, `GITHUB_TOKEN` and `GIST_FILENAME`
    /// (`None` where unset). The first required value that is missing, in
    /// that order, is named in the error; the file name defaults to
    /// `top-tracks.md`.
    pub fn from_vars(
        last_fm_username: Option<String>,
        destination_folder: Option<String>,
        gist_id: Option<String>,
        github_token: Option<String>,
        gist_filename: Option<String>,
    ) -> (r: Result<Config, String>)
        ensures
            r is Ok <==> first_missing(
                last_fm_username is Some,
                destination_folder is Some,
                gist_id is Some,
                github_token is Some,
            ) is None,
            r matches Err(e) ==> Some(e@) == first_missing(
                last_fm_username is Some,
                destination_folder is Some,
                gist_id is Some,
                github_token is Some,
            ),
            r matches Ok(c) ==> {
                &&& Some(c.last_fm_username) == last_fm_username
                &&& Some(c.destination_folder) == destination_folder
                &&& Some(c.gist_id) == gist_id
                &&& Some(c.github_token) == github_token
                &&& c.gist_filename@ == match gist_filename {
                    Some(f) => f@,
                    None => DEFAULT_GIST_FILENAME@,
                }
            },
    {
        let last_fm_username = match last_fm_username {
            Some(v) => v,
            None => return Err(missing("LAST_FM_USERNAME")),
        };
        let destination_folder = match destination_folder {
            Some(v) => v,
            None => return Err(missing("DESTINATION_FOLDER")),
        };
        let gist_id = match gist_id {
            Some(v) => v,
            None => return Err(missing("GIST_ID")),
        };
        let github_token = match github_token {
            Some(v) => v,
            None => return Err(missing("GITHUB_TOKEN")),
        };
        let gist_filename = match gist_filename {
            Some(v) => v,
            None => String::from_str(DEFAULT_GIST_FILENAME),
        };
        Ok(Config { last_fm_username, destination_folder, gist_id, github_token, gist_filename })
    }
}

} // verus!
