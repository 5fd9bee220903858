//! Where the agent keeps its secrets.

use vstd::prelude::*;

verus! {

pub const DEFAULT_DB_FILE_NAME: &'static str = "mfa-agent.kdbx";

/// The path of the database file: the default file name in the home
/// directory, or in the current directory where no home directory is known.
pub fn get_db_file_path(home_dir: Option<&str>) -> (path: String)
    ensures
        path@ == match home_dir {
            Some(d) => d@,
            None => "."@,
        } + "/"@ + DEFAULT_DB_FILE_NAME@,
{
    // TODO use the config for the db path?
    let mut path = match home_dir {
        Some(d) => String::from_str(d),
        None => String::from_str("."),
    };
    path.append("/");
    path.append(DEFAULT_DB_FILE_NAME);
    path
}

/// The TOTP secrets of the database; there are none yet.
pub fn get_totp_secrets() -> (res: Result<Vec<String>, String>)
    ensures
        res matches Ok(v) && v@.len() == 0,
{
    Ok(Vec::new())
}

} // verus!
