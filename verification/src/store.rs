//! The module directory store: which paths are module files, what a module
//! file is called, and how a module is found by its name.

use vstd::prelude::*;

verus! {

/// The extension that `Path::extension` finds in a path, if it finds one.
pub uninterp spec fn path_extension(path: Seq<char>) -> Option<Seq<char>>;

/// The file stem that `Path::file_stem` finds in a path, if it finds one.
pub uninterp spec fn path_file_stem(path: Seq<char>) -> Option<Seq<char>>;

/// Calls `Path::extension` on the path and owns the result as text.
///
/// Trusted: whether there is an extension, and which, depends on the path
/// alone as the standard library reads paths where the library is built; it
/// is named [`path_extension`] and nothing more is claimed of it.
#[verifier::external_body]
pub(crate) fn extension(path: &str) -> (found: Option<String>)
    ensures
        match found {
            Some(text) => path_extension(path@) == Some(text@),
            None => path_extension(path@) is None,
        },
{
    std::path::Path::new(path).extension().map(|part| part.to_string_lossy().into_owned())
}

/// Calls `Path::file_stem` on the path and owns the result as text.
///
/// Trusted: whether there is a file stem, and which, depends on the path
/// alone as the standard library reads paths where the library is built; it
/// is named [`path_file_stem`] and nothing more is claimed of it.
#[verifier::external_body]
pub(crate) fn file_stem(path: &str) -> (found: Option<String>)
    ensures
        match found {
            Some(text) => path_file_stem(path@) == Some(text@),
            None => path_file_stem(path@) is None,
        },
{
    std::path::Path::new(path).file_stem().map(|part| part.to_string_lossy().into_owned())
}

/// Whether a path carries the extension of module files.
pub open spec fn is_module_path(path: Seq<char>) -> bool {
    path_extension(path) == Some("kpm"@)
}

/// Whether a path is a module file of the given logical name.
pub open spec fn names_module(path: Seq<char>, name: Seq<char>) -> bool {
    path_file_stem(path) == Some(name) && is_module_path(path)
}

/// Whether a directory entry counts as a module file: it has the module
/// extension and a logical name that is not empty.
pub open spec fn is_module_file(path: Seq<char>) -> bool {
    is_module_path(path) && (path_file_stem(path) matches Some(name) && name.len() > 0)
}

/// Whether an operation on a module can be derived from the path: it has a
/// file stem to serve as the logical name.
pub open spec fn has_name(path: Seq<char>) -> bool {
    path_file_stem(path) is Some
}

/// A module file: where it lies and the logical name by which the helper
/// knows the module.
#[derive(Debug, Clone, PartialEq, Eq)]
pub struct ModuleFile {
    pub path: String,
    pub name: String,
}

/// The mathematical counterpart of [`ModuleFile`].
pub struct ModuleFileView {
    pub path: Seq<char>,
    pub name: Seq<char>,
}

impl View for ModuleFile {
    type V = ModuleFileView;

    open spec fn view(&self) -> ModuleFileView {
        ModuleFileView { path: self.path@, name: self.name@ }
    }
}

impl DeepView for ModuleFile {
    type V = ModuleFileView;

    open spec fn deep_view(&self) -> ModuleFileView {
        self@
    }
}

/// The module file that a path with a file stem stands for.
pub open spec fn named_file(path: Seq<char>) -> ModuleFileView {
    ModuleFileView { path, name: path_file_stem(path).unwrap() }
}

/// The module files among the entries of a directory, in the order of the
/// listing.
pub open spec fn module_files(entries: Seq<Seq<char>>) -> Seq<ModuleFileView> {
    entries.filter(|path: Seq<char>| is_module_file(path)).map_values(
        |path: Seq<char>| named_file(path),
    )
}

/// The paths with a file stem among those given, each with its logical name,
/// in the order given.
pub open spec fn named_files(paths: Seq<Seq<char>>) -> Seq<ModuleFileView> {
    paths.filter(|path: Seq<char>| has_name(path)).map_values(|path: Seq<char>| named_file(path))
}

/// The paths with the module extension among those given, in the order given.
pub open spec fn module_paths(paths: Seq<Seq<char>>) -> Seq<Seq<char>> {
    paths.filter(|path: Seq<char>| is_module_path(path))
}

/// The first entry that is a module file of the given name, if there is one.
pub open spec fn find_module(name: Seq<char>, entries: Seq<Seq<char>>) -> Option<Seq<char>>
    decreases entries.len(),
{
    if entries.len() == 0 {
        None
    } else if names_module(entries[0], name) {
        Some(entries[0])
    } else {
        find_module(name, entries.drop_first())
    }
}

/// Tells whether a path carries the extension of module files.
pub fn has_module_extension(path: &str) -> (yes: bool)
    ensures
        yes == is_module_path(path@),
{
    match extension(path) {
        Some(text) => text == "kpm".to_owned(),
        None => false,
    }
}

/// The logical name of the module that a path stands for: its file stem.
pub fn module_name(path: &str) -> (name: Option<String>)
    ensures
        match name {
            Some(text) => path_file_stem(path@) == Some(text@),
            None => path_file_stem(path@) is None,
        },
{
    file_stem(path)
}

/// Looks through the entries of the module directory for the module file of
/// the given name and returns the first. That there is none is an ordinary
/// answer.
pub fn find_kpm_file(name: &str, entries: &Vec<String>) -> (found: Option<String>)
    ensures
        match found {
            Some(path) => find_module(name@, entries.deep_view()) == Some(path@),
            None => find_module(name@, entries.deep_view()) is None,
        },
{
    let wanted = name.to_owned();
    let ghost all = entries.deep_view();
    let mut i: usize = 0;
    assert(all.skip(0) == all);
    while i < entries.len()
        invariant
            i <= entries.len(),
            all == entries.deep_view(),
            wanted@ == name@,
            find_module(name@, all) == find_module(name@, all.skip(i as int)),
        decreases entries.len() - i,
    {
        let path = &entries[i];
        assert(all.skip(i as int)[0] == path@);
        assert(all.skip(i as int).drop_first() == all.skip(i + 1));
        let matches_name = match file_stem(path.as_str()) {
            Some(stem) => stem == wanted,
            None => false,
        };
        if matches_name && has_module_extension(path.as_str()) {
            return Some(path.clone());
        }
        i += 1;
    }
    assert(all.skip(i as int).len() == 0);
    None
}

/// Picks the module files out of a directory listing, each with its logical
/// name, in the order of the listing. Entries without the module extension
/// or with an empty name are passed over.
pub fn enumerate_module_files(entries: &Vec<String>) -> (files: Vec<ModuleFile>)
    ensures
        files.deep_view() == module_files(entries.deep_view()),
{
    let ghost all = entries.deep_view();
    let ghost wanted = |path: Seq<char>| is_module_file(path);
    let mut files: Vec<ModuleFile> = Vec::new();
    let mut i: usize = 0;
    proof {
        reveal(Seq::filter);
        assert(all.take(0).filter(wanted) =~= Seq::<Seq<char>>::empty());
        assert(files.deep_view() =~= module_files(all.take(0)));
    }
    while i < entries.len()
        invariant
            i <= entries.len(),
            all == entries.deep_view(),
            wanted == |path: Seq<char>| is_module_file(path),
            files.deep_view() == module_files(all.take(i as int)),
        decreases entries.len() - i,
    {
        let path = &entries[i];
        let ghost before = files.deep_view();
        proof {
            reveal(Seq::filter);
            assert(all.take(i + 1).drop_last() == all.take(i as int));
            assert(all.take(i + 1).last() == path@);
        }
        if has_module_extension(path.as_str()) {
            match file_stem(path.as_str()) {
                Some(name) => {
                    if name.as_str().unicode_len() > 0 {
                        files.push(ModuleFile { path: path.clone(), name });
                        assert(files.deep_view() =~= before.push(named_file(path@)));
                        assert(module_files(all.take(i + 1)) =~= module_files(
                            all.take(i as int),
                        ).push(named_file(path@)));
                    }
                },
                None => {},
            }
        }
        assert(files.deep_view() == module_files(all.take(i + 1)));
        i += 1;
    }
    assert(all.take(i as int) == all);
    files
}

} // verus!
