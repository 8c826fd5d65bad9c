//! The fixed names of the target editor, and recognition of its executable
//! from a module path read out of a running process.

use vstd::prelude::*;

verus! {

/// File name of the target editor's executable.
pub fn target_executable() -> (r: &'static str)
    ensures
        r@ == target_name(),
{
    "notepad.exe"
}

/// The executable's file name, as characters.
pub open spec fn target_name() -> Seq<char> {
    "notepad.exe"@
}

/// Window class of the input control inside the editor's top-level window.
pub fn control_class() -> (r: &'static str)
    ensures
        r@ == control_class_name(),
{
    "Edit"
}

/// The control's window class, as characters.
pub open spec fn control_class_name() -> Seq<char> {
    "Edit"@
}

/// A path separator code unit: `\` or `/`.
pub open spec fn is_separator(u: u16) -> bool {
    u == 0x5C || u == 0x2F
}

/// Index just past the last separator in `path[..end]`, or 0 if there is none.
pub open spec fn name_start(path: Seq<u16>, end: int) -> int
    decreases end,
{
    if end <= 0 {
        0
    } else if is_separator(path[end - 1]) {
        end
    } else {
        name_start(path, end - 1)
    }
}

/// The final component of a path: the code units after its last separator.
pub open spec fn file_name_of(path: Seq<u16>) -> Seq<u16> {
    path.subrange(name_start(path, path.len() as int), path.len() as int)
}

/// ASCII lower-casing of a code point; others are unchanged.
pub open spec fn ascii_fold(v: u32) -> u32 {
    if 0x41 <= v <= 0x5A {
        (v + 0x20) as u32
    } else {
        v
    }
}

/// Equality of code units and characters, ignoring ASCII case.
pub open spec fn eq_ignore_ascii_case(a: Seq<u16>, b: Seq<char>) -> bool {
    &&& a.len() == b.len()
    &&& forall|i: int| 0 <= i < a.len() ==> ascii_fold(#[trigger] a[i] as u32) == ascii_fold(
        b[i] as u32,
    )
}

/// A module path names the target executable.
pub open spec fn is_target_path_spec(path: Seq<u16>) -> bool {
    eq_ignore_ascii_case(file_name_of(path), target_name())
}

fn fold_unit(v: u32) -> (r: u32)
    ensures
        r == ascii_fold(v),
{
    if 0x41 <= v && v <= 0x5A {
        v + 0x20
    } else {
        v
    }
}

/// Index where the file name of `path` starts.
pub fn file_name_start(path: &Vec<u16>) -> (r: usize)
    ensures
        r == name_start(path@, path@.len() as int),
        r <= path@.len(),
{
    let mut end: usize = path.len();
    while end > 0
        invariant
            end <= path@.len(),
            name_start(path@, path@.len() as int) == name_start(path@, end as int),
        decreases end,
    {
        if path[end - 1] == 0x5C || path[end - 1] == 0x2F {
            return end;
        }
        end = end - 1;
    }
    0
}

proof fn lemma_name_start_bounds(path: Seq<u16>, end: int)
    requires
        0 <= end,
    ensures
        0 <= name_start(path, end) <= end,
    decreases end,
{
    if end > 0 && !is_separator(path[end - 1]) {
        lemma_name_start_bounds(path, end - 1);
    }
}

/// Whether a module path's file name is the target executable's, ignoring
/// ASCII case.
pub fn is_target_path(path: &Vec<u16>) -> (r: bool)
    ensures
        r == is_target_path_spec(path@),
{
    let name = target_executable();
    let start = file_name_start(path);
    proof {
        lemma_name_start_bounds(path@, path@.len() as int);
    }
    let ghost file = file_name_of(path@);
    let n = name.unicode_len();
    let len = path.len();
    if len - start != n {
        return false;
    }
    let mut i: usize = 0;
    while i < n
        invariant
            i <= n,
            n == name@.len(),
            name@ == target_name(),
            start + n == len,
            len == path@.len(),
            file == path@.subrange(start as int, path@.len() as int),
            file == file_name_of(path@),
            forall|j: int| 0 <= j < i ==> ascii_fold(#[trigger] file[j] as u32) == ascii_fold(
                target_name()[j] as u32,
            ),
        decreases n - i,
    {
        let c = name.get_char(i);
        if fold_unit(path[start + i] as u32) != fold_unit(c as u32) {
            assert(file[i as int] == path@[start + i]);
            assert(c == target_name()[i as int]);
            assert(!eq_ignore_ascii_case(file, target_name()));
            return false;
        }
        i = i + 1;
    }
    true
}

} // verus!
