//! Configuration read from `KEY=value` text.

use vstd::prelude::*;
use vstd::string::*;

use crate::error::Error;
use crate::text::same_text;

verus! {

/// Entries as key and value views.
pub open spec fn entries_view(env: Vec<(String, String)>) -> Seq<(Seq<char>, Seq<char>)> {
    env@.map_values(|e: (String, String)| (e.0@, e.1@))
}

/// No key occurs twice.
pub open spec fn unique_keys(entries: Seq<(Seq<char>, Seq<char>)>) -> bool {
    forall|i: int, j: int| 0 <= i < j < entries.len() ==> entries[i].0 != entries[j].0
}

/// The value of the first entry with key `key`.
pub open spec fn lookup(entries: Seq<(Seq<char>, Seq<char>)>, key: Seq<char>) -> Option<Seq<char>>
    decreases entries.len(),
{
    if entries.len() == 0 {
        None
    } else if entries[0].0 == key {
        Some(entries[0].1)
    } else {
        lookup(entries.drop_first(), key)
    }
}

/// The entries that parsing `source` as dotenv text yields, in increasing key
/// order; `None` when the text does not parse.
pub uninterp spec fn dotenv_entries(source: Seq<char>) -> Option<Seq<(Seq<char>, Seq<char>)>>;

/// Relies on `dotenv_parser::parse_dotenv`: whether it parses, and what, depends
/// on the text alone, and its entries come out of a `BTreeMap`, so no key twice.
/// The map is handed on as a list of entries: vstd gives `String` keys no
/// order model, so lookups in a map keyed by `String` could not be proved.
#[verifier::external_body]
fn parse_dotenv_entries(source: &str) -> (r: Result<Vec<(String, String)>, String>)
    ensures
        r is Ok <==> dotenv_entries(source@) is Some,
        r is Ok ==> entries_view(r->Ok_0) == dotenv_entries(source@)->Some_0,
        r is Ok ==> unique_keys(entries_view(r->Ok_0)),
{
    dotenv_parser::parse_dotenv(source).map(|m| m.into_iter().collect()).map_err(|e| e.to_string())
}

/// Parses the dotenv text `content` read from `file_path` into its entries;
/// text that does not parse is reported against the file.
pub fn env_entries_from_text(file_path: &str, content: &str) -> (r: Result<Vec<(String, String)>, Error>)
    ensures
        r is Ok <==> dotenv_entries(content@) is Some,
        r is Ok ==> entries_view(r->Ok_0) == dotenv_entries(content@)->Some_0 && unique_keys(entries_view(r->Ok_0)),
        r is Err ==> r->Err_0 is ParseEnvFailedNoSuchFile && r->Err_0->ParseEnvFailedNoSuchFile_0@ == file_path@,
{
    match parse_dotenv_entries(content) {
        Ok(entries) => Ok(entries),
        Err(cause) => Err(Error::ParseEnvFailedNoSuchFile(String::from_str(file_path), cause)),
    }
}

/// The value that `env` gives `key`; a missing key is an error naming it.
pub fn find_key_from_parser(key: &str, env: &Vec<(String, String)>) -> (r: Result<String, Error>)
    ensures
        match lookup(entries_view(*env), key@) {
            Some(v) => r is Ok && r->Ok_0@ == v,
            None => r is Err && r->Err_0 is ParseEnvFailedNoSuchKey && r->Err_0->ParseEnvFailedNoSuchKey_0@ == key@,
        },
{
    let ghost ev = entries_view(*env);
    let mut i: usize = 0;
    assert(ev.skip(0) =~= ev);
    while i < env.len()
        invariant
            ev == entries_view(*env),
            i <= env@.len(),
            lookup(ev, key@) == lookup(ev.skip(i as int), key@),
        decreases env@.len() - i,
    {
        assert(ev.skip(i as int)[0] == ev[i as int]);
        assert(ev.skip(i as int).drop_first() =~= ev.skip(i + 1));
        if same_text(env[i].0.as_str(), key) {
            return Ok(env[i].1.clone());
        }
        i = i + 1;
    }
    assert(ev.skip(i as int).len() == 0);
    Err(Error::ParseEnvFailedNoSuchKey(String::from_str(key)))
}

} // verus!
