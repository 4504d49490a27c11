use vstd::prelude::*;

verus! {

/// The file the store lives in, under the user's data directory.
pub fn get_db_path(data_dir: &str) -> (r: String)
    ensures
        r@ == data_dir@ + "/.gomi.db"@,
{
    let mut r = String::from_str(data_dir);
    r.append("/.gomi.db");
    r
}

} // verus!
