//! Paths as text: the name of a file, its extension, and the paths that
//! are derived from a source file's path.

use crate::text::{
    chars_of, is_str, last_index_of, lemma_last_index_of, lowered, push_str, rfind_char, slice_of,
    string_of, to_ascii_lower,
};
use vstd::prelude::*;

verus! {

/// The last component of a path: what follows its last `/`.
pub open spec fn file_name_of(path: Seq<char>) -> Seq<char> {
    match last_index_of(path, '/') {
        Some(slash) => path.skip(slash + 1),
        None => path,
    }
}

/// Where the extension of a file name starts: behind its last `.`,
/// unless the name is `..` or has its only `.` in front.
pub open spec fn extension_start(name: Seq<char>) -> Option<int> {
    if name == ".."@ {
        None
    } else {
        match last_index_of(name, '.') {
            Some(dot) => if dot == 0 {
                None
            } else {
                Some(dot + 1)
            },
            None => None,
        }
    }
}

/// The extension of a path: that of its file name.
pub open spec fn extension_of(path: Seq<char>) -> Option<Seq<char>> {
    match extension_start(file_name_of(path)) {
        Some(start) => Some(file_name_of(path).skip(start)),
        None => None,
    }
}

fn file_name_start(path: &Vec<char>) -> (start: usize)
    ensures
        start <= path.len(),
        path@.skip(start as int) == file_name_of(path@),
{
    match rfind_char(path, '/') {
        Some(slash) => slash + 1,
        None => {
            assert(path@.skip(0) =~= path@);
            0
        },
    }
}

/// The position in `path` at which its extension starts.
fn extension_position(path: &Vec<char>) -> (r: Option<usize>)
    ensures
        match r {
            Some(at) => at <= path.len() && extension_of(path@) == Some(path@.skip(at as int)),
            None => extension_of(path@) is None,
        },
{
    let start = file_name_start(path);
    let name = slice_of(path, start, path.len());
    assert(name@ =~= file_name_of(path@));
    if is_str(&name, "..") {
        return None;
    }
    proof {
        lemma_last_index_of(name@, '.');
    }
    match rfind_char(&name, '.') {
        Some(dot) => {
            if dot == 0 {
                None
            } else {
                assert(name@.skip(dot + 1) =~= path@.skip(start + dot + 1));
                Some(start + dot + 1)
            }
        },
        None => None,
    }
}

/// The extension of a path, where it has one.
pub fn extension(path: &str) -> (r: Option<String>)
    ensures
        r.deep_view() == extension_of(path@),
{
    let text = chars_of(path);
    match extension_position(&text) {
        Some(at) => Some(string_of(&slice_of(&text, at, text.len()))),
        None => None,
    }
}

/// Whether a file can be healed as a whole: its extension, in whatever
/// case, is one of `js`, `mjs`, `cjs` and `jsx`.
pub open spec fn is_healable(path: Seq<char>) -> bool {
    match extension_of(path) {
        Some(ext) => {
            let e = lowered(ext);
            e == "js"@ || e == "mjs"@ || e == "cjs"@ || e == "jsx"@
        },
        None => false,
    }
}

/// Whether a file can be healed as a whole.
pub fn is_self_heal_supported_source(file: &str) -> (r: bool)
    ensures
        r == is_healable(file@),
{
    let text = chars_of(file);
    match extension_position(&text) {
        Some(at) => {
            let ext = to_ascii_lower(&slice_of(&text, at, text.len()));
            is_str(&ext, "js") || is_str(&ext, "mjs") || is_str(&ext, "cjs") || is_str(&ext, "jsx")
        },
        None => false,
    }
}

/// The sibling path at which the first version of a healed file is kept.
pub open spec fn backup_path(file: Seq<char>) -> Seq<char> {
    file + ".klumo.bak"@
}

/// The path at which the first version of a healed file is kept.
pub fn backup_path_for(file: &str) -> (r: String)
    ensures
        r@ == backup_path(file@),
{
    let mut out = chars_of(file);
    push_str(&mut out, ".klumo.bak");
    string_of(&out)
}

/// Whether the file must be copied to its backup path before a repair
/// is written over it: only where no backup is there yet, so that the
/// backup always holds the first version.
pub fn backup_is_due(backup_exists: bool) -> (r: bool)
    ensures
        r == !backup_exists,
{
    !backup_exists
}

/// The path of the bundle for a source file: the path with `bundle.js`
/// for its extension.  A path without a file name stays as it is.
pub open spec fn bundle_output(file: Seq<char>) -> Seq<char> {
    let name = file_name_of(file);
    if name.len() == 0 || name == ".."@ {
        file
    } else {
        match extension_of(file) {
            Some(ext) => file.take(file.len() - ext.len()) + "bundle.js"@,
            None => file + ".bundle.js"@,
        }
    }
}

fn lacks_file_name(path: &Vec<char>) -> (r: bool)
    ensures
        r == (file_name_of(path@).len() == 0 || file_name_of(path@) == ".."@),
{
    let start = file_name_start(path);
    let name = slice_of(path, start, path.len());
    assert(name@ =~= file_name_of(path@));
    name.len() == 0 || is_str(&name, "..")
}

/// The path of the bundle for a source file.
pub fn default_bundle_output(file: &str) -> (r: String)
    ensures
        r@ == bundle_output(file@),
{
    let text = chars_of(file);
    if lacks_file_name(&text) {
        return string_of(&text);
    }
    match extension_position(&text) {
        Some(at) => {
            let mut out = slice_of(&text, 0, at);
            assert(file@.skip(at as int).len() == file@.len() - at);
            push_str(&mut out, "bundle.js");
            string_of(&out)
        },
        None => {
            let mut out = text;
            push_str(&mut out, ".bundle.js");
            string_of(&out)
        },
    }
}

} // verus!
