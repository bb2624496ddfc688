//! Where files go.
use vstd::prelude::*;

verus! {

pub open spec fn no_downloads_dir_message() -> Seq<char> {
    "Could not find downloads directory"@
}

/// The user's downloads directory: the system's downloads directory where
/// there is one, else `Downloads` in the home directory, else an error.
pub fn downloads_dir(
    system_downloads: Option<String>,
    home_downloads: Option<String>,
) -> (r: Result<String, String>)
    ensures
        match system_downloads {
            Some(d) => r == Ok::<String, String>(d),
            None => match home_downloads {
                Some(h) => r == Ok::<String, String>(h),
                None => r matches Err(e) && e@ == no_downloads_dir_message(),
            },
        },
{
    match system_downloads {
        Some(d) => Ok(d),
        None => match home_downloads {
            Some(h) => Ok(h),
            None => Err("Could not find downloads directory".to_owned()),
        },
    }
}

/// The error when no downloads directory is found.
pub proof fn law_no_downloads_dir_message()
    ensures
        no_downloads_dir_message() == "Could not find downloads directory"@,
{
}

} // verus!
