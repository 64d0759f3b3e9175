//! Paths as text: what joining a directory and a bare file name gives.

use vstd::prelude::*;

verus! {

/// Whether `s` begins with `p`.
pub open spec fn starts_with(s: Seq<char>, p: Seq<char>) -> bool {
    p.len() <= s.len() && s.subrange(0, p.len() as int) == p
}

/// Whether `name` is a bare file name: not empty, not `.` or `..`, with no
/// path separator and no drive mark.
pub open spec fn is_plain_file_name(name: Seq<char>) -> bool {
    &&& name.len() > 0
    &&& name != "."@
    &&& name != ".."@
    &&& forall|i: int|
        0 <= i < name.len() ==> #[trigger] name[i] != '/' && name[i] != '\\' && name[i] != ':'
}

/// Whether `dir` is a Windows verbatim path (it begins with `\\?\`).
pub open spec fn is_verbatim(dir: Seq<char>) -> bool {
    starts_with(dir, "\\\\?\\"@)
}

/// Whether `res` is `dir` followed by `name`, with at most one path
/// separator between them.
pub open spec fn joined(res: Seq<char>, dir: Seq<char>, name: Seq<char>) -> bool {
    ||| res == dir + name
    ||| res == dir + seq!['/'] + name
    ||| res == dir + seq!['\\'] + name
}

/// `std::path::Path::join` of the directory `dir` and `name`, as text
/// (`to_string_lossy`, which changes nothing of a path built from two
/// `&str`). For a bare file name and a directory that is not a verbatim
/// path, `PathBuf::push` appends the name, after the platform's separator
/// where `dir` is not empty and does not already end with a separator (or
/// is a bare Windows drive such as `C:`). Which separator that is depends on
/// the platform. What a verbatim directory, whose join Windows normalizes,
/// or a name that is not bare gives is left unsaid.
#[verifier::external_body]
pub(crate) fn join_path(dir: &str, name: &str) -> (res: String)
    ensures
        is_plain_file_name(name@) && !is_verbatim(dir@) ==> joined(res@, dir@, name@),
{
    std::path::Path::new(dir).join(name).to_string_lossy().into_owned()
}

} // verus!
