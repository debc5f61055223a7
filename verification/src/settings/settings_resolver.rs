//! What the loader needs to know of a settings type and of a set of
//! command-line arguments, and how an argument's name becomes a settings path.

use vstd::prelude::*;
use vstd::string::*;

verus! {

/// A settings type that knows where its files are.
pub trait SettingsType {
    /// The directory of the log files.
    fn get_log_dir_path(&self) -> String;

    /// The path of the configuration file.
    fn get_config_file_path(&self) -> String;
}

/// A set of command-line arguments that may name a configuration file.
pub trait ClapArgsType {
    /// The path of the configuration file, where one was given.
    fn get_config_file_path(&self) -> Option<String>;
}

/// The position `i` holds the first underscore of the name.
pub open spec fn is_first_underscore(name: Seq<char>, i: int) -> bool {
    &&& 0 <= i < name.len()
    &&& name[i] == '_'
    &&& forall|j: int| 0 <= j < i ==> #[trigger] name[j] != '_'
}

/// The settings path of an argument's name: the name with its first
/// underscore, which parts the section from the key, turned into a dot.
pub open spec fn settings_path(name: Seq<char>, path: Seq<char>) -> bool {
    if exists|i: int| is_first_underscore(name, i) {
        exists|i: int| #[trigger] is_first_underscore(name, i) && path == name.update(i, '.')
    } else {
        path == name
    }
}

/// Turns an argument's name, such as `startup_log_dir`, into the path of the
/// setting that it overrides, `startup.log_dir`.
pub fn override_path(name: &str) -> (r: String)
    ensures
        settings_path(name@, r@),
{
    let n = name.unicode_len();
    let mut i: usize = 0;
    while i < n
        invariant
            i <= n,
            n == name@.len(),
            forall|j: int| 0 <= j < i ==> #[trigger] name@[j] != '_',
        decreases n - i,
    {
        if name.get_char(i) == '_' {
            let mut path = String::from_str(name.substring_char(0, i));
            path.append(".");
            path.append(name.substring_char(i + 1, n));
            proof {
                reveal_strlit(".");
                assert("."@ =~= seq!['.']);
                assert(is_first_underscore(name@, i as int));
                assert(path@ =~= name@.update(i as int, '.'));
            }
            return path;
        }
        i = i + 1;
    }
    proof {
        assert forall|k: int| !is_first_underscore(name@, k) by {}
    }
    String::from_str(name)
}

/// The path of the configuration file: the one given on the command line,
/// or else the default one.
pub fn config_file_path(given: Option<String>, default_path: String) -> (r: String)
    ensures
        r@ == match given {
            Some(path) => path@,
            None => default_path@,
        },
{
    match given {
        Some(path) => path,
        None => default_path,
    }
}

} // verus!
