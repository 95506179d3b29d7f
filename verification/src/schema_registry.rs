//! The schema registry's export file: where a dump of the registry is
//! written.
use vstd::prelude::*;
use crate::text::{decimal_text, u64_to_text};

verus! {

/// The name of the export file written at `secs` seconds after the Unix
/// epoch.
pub open spec fn export_file_name_text(secs: u64) -> Seq<char> {
    "export_"@ + decimal_text(secs as nat) + ".json"@
}

/// `name` inside the directory `dir`: a separator goes between them unless
/// `dir` is empty or already ends with one.
pub open spec fn path_join(dir: Seq<char>, name: Seq<char>) -> Seq<char> {
    if dir.len() == 0 {
        name
    } else if dir.last() == '/' {
        dir + name
    } else {
        dir + seq!['/'] + name
    }
}

/// The name of the export file written at `secs` seconds after the Unix
/// epoch.
pub fn export_file_name(secs: u64) -> (name: String)
    ensures
        name@ == export_file_name_text(secs),
{
    let mut name = "export_".to_owned();
    name.append(u64_to_text(secs).as_str());
    name.append(".json");
    name
}

/// The path of the export file in `export_dir` for an export made `secs`
/// seconds after the Unix epoch.
pub fn export_path(export_dir: &str, secs: u64) -> (path: String)
    ensures
        path@ == path_join(export_dir@, export_file_name_text(secs)),
{
    let name = export_file_name(secs);
    let dir = export_dir.to_owned();
    let n = dir.as_str().unicode_len();
    if n == 0 {
        return name;
    }
    let last = dir.as_str().get_char(n - 1);
    let mut path = dir;
    if last != '/' {
        proof {
            reveal_strlit("/");
        }
        path.append("/");
    }
    path.append(name.as_str());
    path
}

/// The export file lies directly inside the export directory: an empty
/// directory gives the bare name; a directory that ends with `/` is followed
/// by the name; any other directory, relative or absolute, by one `/` and
/// the name. The name is `export_`, the decimal seconds, `.json`.
pub proof fn lemma_export_path_in_directory(dir: Seq<char>, name: Seq<char>, secs: u64)
    ensures
        dir.len() == 0 ==> path_join(dir, name) == name,
        dir.len() > 0 && dir.last() == '/' ==> path_join(dir, name) == dir + name,
        dir.len() > 0 && dir.last() != '/' ==> path_join(dir, name) == dir + seq!['/'] + name,
        export_file_name_text(secs) == "export_"@ + decimal_text(secs as nat) + ".json"@,
{
}

/// The path is made of the directory, one separator and the file name: for
/// a directory that is not empty, the path begins with the directory, ends
/// with the name, and has `/` right before the name; no character is added
/// beyond the one separator that a directory not ending with `/` needs.
pub proof fn lemma_export_path_parts(dir: Seq<char>, name: Seq<char>)
    ensures
        path_join(dir, name).len() >= name.len(),
        path_join(dir, name).skip(path_join(dir, name).len() - name.len()) == name,
        dir.len() > 0 ==> path_join(dir, name).take(dir.len() as int) == dir,
        dir.len() > 0 ==> path_join(dir, name)[path_join(dir, name).len() - name.len() - 1] == '/',
        dir.len() > 0 ==> path_join(dir, name).len() == dir.len() + name.len() + (if dir.last()
            == '/' {
            0int
        } else {
            1int
        }),
{
    let p = path_join(dir, name);
    if dir.len() > 0 {
        assert(p.skip(p.len() - name.len()) =~= name);
        assert(p.take(dir.len() as int) =~= dir);
    } else {
        assert(p.skip(0) =~= name);
    }
}

} // verus!
