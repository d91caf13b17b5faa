//! Device-node selection: which entries of the device directory name a
//! queryable device.
//!
//! The caller lists the directory and hands the entry names in; every entry
//! whose name starts with the fixed prefix `razer` is turned into a full
//! device-node path under `/dev/`, in the order given.  Reading the
//! directory itself is I/O and stays with the caller.

use vstd::prelude::*;

verus! {

/// An entry names a device when it starts with the five characters `razer`.
pub open spec fn has_device_prefix(name: Seq<char>) -> bool {
    name.len() >= 5 && name[0] == 'r' && name[1] == 'a' && name[2] == 'z' && name[3] == 'e'
        && name[4] == 'r'
}

/// The device-node path of a directory entry: its name under `/dev/`.
pub open spec fn device_path(name: Seq<char>) -> Seq<char> {
    "/dev/"@ + name
}

/// The device-node paths of the prefixed entries, in the order given.
pub open spec fn device_paths_of(names: Seq<Seq<char>>) -> Seq<Seq<char>>
    decreases names.len(),
{
    if names.len() == 0 {
        Seq::empty()
    } else {
        let rest = device_paths_of(names.drop_last());
        if has_device_prefix(names.last()) {
            rest.push(device_path(names.last()))
        } else {
            rest
        }
    }
}

/// Checks whether a directory entry names a device.
fn is_device_name(name: &str) -> (r: bool)
    ensures
        r == has_device_prefix(name@),
{
    if name.unicode_len() < 5 {
        return false;
    }
    name.get_char(0) == 'r' && name.get_char(1) == 'a' && name.get_char(2) == 'z' && name.get_char(
        3,
    ) == 'e' && name.get_char(4) == 'r'
}

/// Returns the list of device-node paths among the given directory entry
/// names: each entry starting with `razer`, as a full path under `/dev/`,
/// in the order given.  Non-matching entries are ignored silently.
pub fn file_names(names: &Vec<String>) -> (paths: Vec<String>)
    ensures
        paths.deep_view() == device_paths_of(names.deep_view()),
{
    let mut paths: Vec<String> = Vec::new();
    let mut k: usize = 0;
    while k < names.len()
        invariant
            k <= names@.len(),
            paths.deep_view() == device_paths_of(names.deep_view().take(k as int)),
        decreases names@.len() - k,
    {
        let name: &String = &names[k];
        if is_device_name(name.as_str()) {
            let path = String::from_str("/dev/").concat(name.as_str());
            paths.push(path);
        }
        proof {
            assert(names.deep_view().take(k + 1).drop_last() =~= names.deep_view().take(k as int));
            assert(names.deep_view().take(k + 1).last() == name@);
        }
        k = k + 1;
    }
    proof {
        assert(names.deep_view().take(names.deep_view().len() as int) =~= names.deep_view());
    }
    paths
}

} // verus!
