//! Where the client keeps what it downloaded, per server.

use vstd::prelude::*;
use crate::home::{home_directory, HomeDir};

verus! {

/// The directory of the files kept for the server named `emby_name`, under
/// the home directory `home`.
pub open spec fn cache_dir_path(home: Seq<char>, emby_name: Seq<char>) -> Seq<char> {
    home + "/.local/share/tsukimi/"@ + emby_name
}

/// The file name under which the latest additions to the library `id` are kept.
pub open spec fn latest_file_name(id: Seq<char>) -> Seq<char> {
    "latest_"@ + id + ".json"@
}

/// The directory of the files kept for the server named `emby_name`.
pub fn cache_dir(home: &str, emby_name: &str) -> (dir: String)
    ensures
        dir@ == cache_dir_path(home@, emby_name@),
{
    let mut dir = home.to_owned();
    dir.append("/.local/share/tsukimi/");
    dir.append(emby_name);
    dir
}

/// The directory of the files kept for the server named `emby_name`, under
/// the current user's home directory; `None` when the home directory is
/// unknown.
pub fn server_cache_dir(emby_name: &str) -> (dir: Option<String>)
    ensures
        dir matches Some(d) ==> exists|home: HomeDir|
            home.path().len() > 0 && d@ == #[trigger] cache_dir_path(home.path(), emby_name@),
{
    match home_directory() {
        Some(home) => {
            let d = cache_dir(home.as_str(), emby_name);
            assert(d@ == cache_dir_path(home.path(), emby_name@));
            Some(d)
        },
        None => None,
    }
}

/// The file name under which the user's libraries are kept.
pub fn views_cache_file() -> (name: String)
    ensures
        name@ == "views.json"@,
{
    "views.json".to_owned()
}

/// The file name under which the latest additions to the library `id` are kept.
pub fn latest_cache_file(id: &str) -> (name: String)
    ensures
        name@ == latest_file_name(id@),
{
    let mut name = "latest_".to_owned();
    name.append(id);
    name.append(".json");
    name
}

/// The latest additions of distinct libraries are kept in distinct files,
/// and none of them in the file of the libraries.
pub proof fn lemma_latest_files_distinct(id1: Seq<char>, id2: Seq<char>)
    ensures
        latest_file_name(id1) == latest_file_name(id2) ==> id1 == id2,
        latest_file_name(id1) != "views.json"@,
{
    reveal_strlit("latest_");
    reveal_strlit("views.json");
    let p = "latest_"@;
    let s = ".json"@;
    if latest_file_name(id1) == latest_file_name(id2) {
        let n1 = latest_file_name(id1);
        let n2 = latest_file_name(id2);
        assert(n1.len() == p.len() + id1.len() + s.len());
        assert(n2.len() == p.len() + id2.len() + s.len());
        assert(id1 =~= n1.subrange(p.len() as int, (p.len() + id1.len()) as int));
        assert(id2 =~= n2.subrange(p.len() as int, (p.len() + id2.len()) as int));
    }
    assert(latest_file_name(id1)[0] == 'l');
}

/// A server's cache directory is the home directory, then
/// `/.local/share/tsukimi/`, then the server's name; under one home
/// directory, distinct servers get distinct directories.
pub proof fn law_cache_dir_layout(home: Seq<char>, name1: Seq<char>, name2: Seq<char>)
    ensures
        cache_dir_path(home, name1).take(home.len() as int) == home,
        cache_dir_path(home, name1).skip(home.len() as int) == "/.local/share/tsukimi/"@ + name1,
        cache_dir_path(home, name1) == cache_dir_path(home, name2) ==> name1 == name2,
{
    let mid = "/.local/share/tsukimi/"@;
    let d1 = cache_dir_path(home, name1);
    let d2 = cache_dir_path(home, name2);
    assert(d1 =~= home + (mid + name1));
    assert(d1.take(home.len() as int) =~= home);
    assert(d1.skip(home.len() as int) =~= mid + name1);
    if d1 == d2 {
        let k = home.len() + mid.len();
        assert(name1 =~= d1.skip(k as int));
        assert(name2 =~= d2.skip(k as int));
    }
}

} // verus!
