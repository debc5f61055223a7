//! The parts of an rsync command line that are worked out from the settings.

use vstd::prelude::*;
use vstd::string::*;

verus! {

/// The paths, each but the last followed by the separator.
pub open spec fn joined(paths: Seq<String>, separator: Seq<char>) -> Seq<char>
    decreases paths.len(),
{
    if paths.len() == 0 {
        Seq::empty()
    } else if paths.len() == 1 {
        paths[0]@
    } else {
        joined(paths.drop_last(), separator) + separator + paths.last()@
    }
}

/// The options that leave the given paths out of a sync.
pub open spec fn exclude_text(paths: Seq<String>) -> Seq<char> {
    "--exclude '"@ + joined(paths, "' --exclude '"@) + "'"@
}

/// Builds the options that leave the given paths out of a sync: one
/// `--exclude` for each, the path in single quotes.
pub fn exclude_str(paths: Vec<String>) -> (r: String)
    ensures
        r@ == exclude_text(paths@),
{
    let mut text = String::from_str("--exclude '");
    let ghost head = text@;
    let mut i: usize = 0;
    while i < paths.len()
        invariant
            i <= paths.len(),
            head == "--exclude '"@,
            text@ == head + joined(paths@.take(i as int), "' --exclude '"@),
        decreases paths.len() - i,
    {
        let ghost before = paths@.take(i as int);
        let ghost after = paths@.take(i + 1);
        assert(after.drop_last() =~= before);
        assert(after.last() == paths@[i as int]);
        if i > 0 {
            text.append("' --exclude '");
        }
        text.append(paths[i].as_str());
        assert(text@ =~= head + joined(after, "' --exclude '"@));
        i = i + 1;
    }
    assert(paths@.take(i as int) =~= paths@);
    text.append("'");
    text
}

/// The character as it stands in the name of a directory: a separator of
/// path parts, a blank or a colon becomes an underscore.
pub open spec fn dir_char(c: char) -> char {
    if c == '\\' || c == '/' || c == ' ' || c == ':' {
        '_'
    } else {
        c
    }
}

/// The name of the directory that holds what is synced from `source_path`:
/// the path with every separator, blank and colon turned into an underscore.
pub fn storage_dir_name(source_path: &str) -> (r: String)
    ensures
        r@ == source_path@.map_values(|c: char| dir_char(c)),
{
    let n = source_path.unicode_len();
    let mut name = String::from_str("");
    proof {
        reveal_strlit("");
    }
    let mut i: usize = 0;
    while i < n
        invariant
            i <= n,
            n == source_path@.len(),
            name@ == source_path@.take(i as int).map_values(|c: char| dir_char(c)),
        decreases n - i,
    {
        let c = source_path.get_char(i);
        let piece = if c == '\\' || c == '/' || c == ' ' || c == ':' {
            "_"
        } else {
            source_path.substring_char(i, i + 1)
        };
        proof {
            reveal_strlit("_");
            assert(piece@ =~= seq![dir_char(c)]);
        }
        name.append(piece);
        assert(name@ =~= source_path@.take(i + 1).map_values(|c: char| dir_char(c)));
        i = i + 1;
    }
    assert(source_path@.take(i as int) =~= source_path@);
    name
}

} // verus!
