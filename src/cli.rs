//! The command line: which files to run and where the configuration lies.
use crate::text::{chars_of, push_text};
use vstd::prelude::*;

verus! {

/// The file name of the configuration in the data directory.
pub const CONFIG_FILE_NAME: &'static str = "config.toml";

/// The command line's options.
pub struct DftCli {
    /// Files whose statements are run before the program exits.
    pub file: Vec<String>,
    /// Where the configuration lies, if given.
    pub config: Option<String>,
}

/// `name` placed in directory `dir`: a separator goes between them unless
/// `dir` is empty or already ends with one.
pub open spec fn path_in(dir: Seq<char>, name: Seq<char>) -> Seq<char> {
    if dir.len() == 0 {
        name
    } else if dir.last() == '/' {
        dir + name
    } else {
        dir.push('/') + name
    }
}

/// The configuration's path: the one given, else `config.toml` in `data_dir`.
pub fn get_config_path(cli_config_arg: Option<&String>, data_dir: &String) -> (r: String)
    ensures
        r@ == match cli_config_arg {
            Some(c) => c@,
            None => path_in(data_dir@, "config.toml"@),
        },
{
    match cli_config_arg {
        Some(c) => c.clone(),
        None => {
            let mut path = data_dir.clone();
            proof {
                reveal_strlit("config.toml");
            }
            let dir = chars_of(data_dir.as_str());
            let n = dir.len();
            if n > 0 && dir[n - 1] != '/' {
                push_text(&mut path, "/");
                proof {
                    reveal_strlit("/");
                }
            }
            push_text(&mut path, CONFIG_FILE_NAME);
            assert(path@ =~= path_in(data_dir@, "config.toml"@));
            path
        },
    }
}

impl DftCli {
    /// The configuration's path: the one given, else `config.toml` in
    /// `data_dir`.
    pub fn get_config(&self, data_dir: &String) -> (r: String)
        ensures
            r@ == match self.config {
                Some(c) => c@,
                None => path_in(data_dir@, "config.toml"@),
            },
    {
        get_config_path(self.config.as_ref(), data_dir)
    }
}

/// Checks a file argument, given whether the path exists and whether it is a
/// file: the path if it is a file, else why not.
pub fn parse_valid_file(file: &str, exists: bool, is_file: bool) -> (r: Result<String, String>)
    ensures
        exists && is_file ==> (r matches Ok(p) && p@ == file@),
        !exists ==> (r matches Err(m) && m@ == "File does not exist: '"@ + file@ + "'"@),
        exists && !is_file ==> (r matches Err(m) && m@ == "Exists but is not a file: '"@ + file@
            + "'"@),
{
    if !exists {
        let mut m = String::new();
        push_text(&mut m, "File does not exist: '");
        push_text(&mut m, file);
        push_text(&mut m, "'");
        Err(m)
    } else if !is_file {
        let mut m = String::new();
        push_text(&mut m, "Exists but is not a file: '");
        push_text(&mut m, file);
        push_text(&mut m, "'");
        Err(m)
    } else {
        let mut p = String::new();
        push_text(&mut p, file);
        Ok(p)
    }
}

} // verus!
