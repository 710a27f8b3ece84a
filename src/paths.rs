use vstd::prelude::*;
use crate::text::{ends_with, has_suffix};

verus! {

/// `.lua`, the extension of every scenario script.
pub open spec fn lua_extension() -> Seq<char> {
    seq!['.', 'l', 'u', 'a']
}

/// The path of the scenario named `identifier` inside the store at `root`.
pub open spec fn scenario_path(root: Seq<char>, identifier: Seq<char>) -> Seq<char> {
    root + seq!['/'] + identifier + lua_extension()
}

/// The configuration file under the root directory.
pub open spec fn config_path(root: Seq<char>) -> Seq<char> {
    root + seq!['/', 'c', 'o', 'n', 'f', 'i', 'g', '.', 't', 'o', 'm', 'l']
}

/// The scenario store under the root directory.
pub open spec fn scenarios_path(root: Seq<char>) -> Seq<char> {
    root + seq!['/', 's', 'c', 'e', 'n', 'a', 'r', 'i', 'o', 's']
}

/// Where the script of a scenario is downloaded from.
pub open spec fn download_url(identifier: Seq<char>) -> Seq<char> {
    "https://raw.githubusercontent.com/daid/EmptyEpsilon/master/scripts/"@ + identifier
        + lua_extension()
}

/// Name of the per-user root directory, under the home directory.
pub const ROOT_DIR_NAME: &'static str = ".ee-scenario-manager";

/// Joins the store root, the identifier and the scenario extension.
pub fn path_for(root: &str, identifier: &str) -> (r: String)
    ensures
        r@ == scenario_path(root@, identifier@),
{
    let mut r = String::from_str(root);
    r.append("/");
    r.append(identifier);
    r.append(".lua");
    proof {
        reveal_strlit("/");
        reveal_strlit(".lua");
        assert(r@ =~= scenario_path(root@, identifier@));
    }
    r
}

/// Path of the configuration file under the root directory.
pub fn get_config_path(root: &str) -> (r: String)
    ensures
        r@ == config_path(root@),
{
    let mut r = String::from_str(root);
    r.append("/config.toml");
    proof {
        reveal_strlit("/config.toml");
        assert(r@ =~= config_path(root@));
    }
    r
}

/// Path of the scenario store under the root directory.
pub fn get_scenarios_path(root: &str) -> (r: String)
    ensures
        r@ == scenarios_path(root@),
{
    let mut r = String::from_str(root);
    r.append("/scenarios");
    proof {
        reveal_strlit("/scenarios");
        assert(r@ =~= scenarios_path(root@));
    }
    r
}

/// The URL that the script of `identifier` is downloaded from; the identifier
/// is put in as it is.
pub fn construct_url(identifier: &String) -> (r: String)
    ensures
        r@ == download_url(identifier@),
{
    let mut r = String::from_str("https://raw.githubusercontent.com/daid/EmptyEpsilon/master/scripts/");
    r.append(identifier.as_str());
    r.append(".lua");
    proof {
        reveal_strlit(".lua");
        assert(r@ =~= download_url(identifier@));
    }
    r
}

/// Whether a directory entry is skipped when the game directory is walked:
/// the Lua scripts are.
pub fn is_hidden(file_name: &str) -> (r: bool)
    ensures
        r == ends_with(file_name@, lua_extension()),
{
    proof {
        reveal_strlit(".lua");
        assert(".lua"@ =~= lua_extension());
    }
    has_suffix(file_name, ".lua")
}

/// Within one store, distinct identifiers never map to the same path.
pub proof fn lemma_path_for_injective(root: Seq<char>, a: Seq<char>, b: Seq<char>)
    requires
        scenario_path(root, a) == scenario_path(root, b),
    ensures
        a == b,
{
    let p = scenario_path(root, a);
    let start: int = root.len() as int + 1;
    assert(p.len() == start + a.len() + 4);
    assert(scenario_path(root, b).len() == start + b.len() + 4);
    assert(a.len() == b.len());
    assert(p.subrange(start, start + a.len()) =~= a);
    assert(scenario_path(root, b).subrange(start, start + b.len()) =~= b);
}

/// The name a download is staged under: the last segment of the URL's path,
/// or `tmp.bin` when there is none or it is empty.
pub open spec fn staged_name(last_segment: Option<Seq<char>>) -> Seq<char> {
    match last_segment {
        Some(s) => if s.len() > 0 {
            s
        } else {
            "tmp.bin"@
        },
        None => "tmp.bin"@,
    }
}

/// Chooses the file name that a downloaded script is staged under.
pub fn staged_file_name(last_segment: Option<&str>) -> (r: String)
    ensures
        r@ == staged_name(
            match last_segment {
                Some(s) => Some(s@),
                None => None,
            },
        ),
{
    match last_segment {
        Some(s) => {
            if s.unicode_len() > 0 {
                String::from_str(s)
            } else {
                String::from_str("tmp.bin")
            }
        },
        None => String::from_str("tmp.bin"),
    }
}

/// Whether a staged script may be moved into the store: only when nothing is
/// there yet, or the user agreed to overwrite it.
pub fn install_allowed(destination_exists: bool, overwrite_confirmed: bool) -> (r: bool)
    ensures
        r == (!destination_exists || overwrite_confirmed),
{
    !destination_exists || overwrite_confirmed
}

} // verus!
