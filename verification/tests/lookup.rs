use bw::errors::BWErrors;
use bw::lookup::{
    has_gemfile, lookup_gemfile_in_ancestors, lookup_step, DirListing, LookupStep, GEMFILE,
};
use std::path::{Path, PathBuf};

fn strings(items: &[&str]) -> Vec<String> {
    items.iter().map(|item| String::from(*item)).collect()
}

fn entries(names: &[&str]) -> DirListing {
    DirListing::Entries(strings(names))
}

/// A directory tree held in memory: each readable directory with the names of
/// its entries. A directory that is not listed cannot be read.
struct Tree {
    dirs: Vec<(PathBuf, Vec<String>)>,
}

impl Tree {
    fn new(dirs: &[(&str, &[&str])]) -> Tree {
        Tree {
            dirs: dirs
                .iter()
                .map(|(dir, names)| (PathBuf::from(dir), strings(names)))
                .collect(),
        }
    }

    fn list(&self, dir: &Path) -> DirListing {
        match self.dirs.iter().find(|(known, _)| known.as_os_str() == dir.as_os_str()) {
            Some((_, names)) => DirListing::Entries(names.clone()),
            None => DirListing::Unreadable,
        }
    }
}

/// Climbs from `path` as a caller with a real file system does: one listing
/// per directory, then the step the library decides on.
fn lookup_gemfile_in_directory(tree: &Tree, path: PathBuf) -> Result<PathBuf, BWErrors> {
    let mut dir = path.as_path();
    loop {
        match lookup_step(&tree.list(dir), dir.parent().is_some()) {
            LookupStep::Found => return Ok(dir.to_path_buf()),
            LookupStep::Failed(e) => return Err(e),
            LookupStep::Ascend => match dir.parent() {
                Some(parent) => dir = parent,
                None => unreachable!(),
            },
        }
    }
}

/// The listings from `path` up to the directory without a parent.
fn listings_above(tree: &Tree, path: &str) -> Vec<DirListing> {
    Path::new(path).ancestors().map(|dir| tree.list(dir)).collect()
}

fn project_tree() -> Tree {
    Tree::new(&[
        ("/", &["home", "etc"]),
        (".", &["test", "src"]),
        ("./test", &["root"]),
        ("./test/root", &["Gemfile", "nested"]),
        ("./test/root/nested", &["directory"]),
        ("./test/root/nested/directory", &["deep"]),
        ("./test/root/nested/directory/deep", &["inside"]),
        ("./test/root/nested/directory/deep/inside", &[]),
    ])
}

#[test]
fn test_root_fs_returns_err() {
    let res = lookup_gemfile_in_directory(&project_tree(), PathBuf::from("/"));
    let err = res.unwrap_err();
    assert_eq!(err, BWErrors::FsRoot)
}

#[test]
fn test_unreadable_dir_returns_err() {
    let res = lookup_gemfile_in_directory(&project_tree(), PathBuf::from("/non/existent/dir"));
    let err = res.unwrap_err();
    assert_eq!(err, BWErrors::FsNotFound)
}

#[test]
fn test_find_in_current_directory() {
    let res = lookup_gemfile_in_directory(&project_tree(), PathBuf::from("./test/root"));
    let found = res.unwrap();
    assert_eq!(found.as_path(), Path::new("./test/root"))
}

#[test]
fn test_find_by_walking_parent_directories() {
    let res = lookup_gemfile_in_directory(
        &project_tree(),
        PathBuf::from("./test/root/nested/directory/deep/inside"),
    );
    let found = res.unwrap();
    assert_eq!(found.as_path(), Path::new("./test/root"))
}

#[test]
fn gathered_listings_give_the_same_results_as_the_climb() {
    let tree = project_tree();
    assert_eq!(
        lookup_gemfile_in_ancestors(&listings_above(&tree, "/")),
        Err(BWErrors::FsRoot)
    );
    assert_eq!(
        lookup_gemfile_in_ancestors(&listings_above(&tree, "/non/existent/dir")),
        Err(BWErrors::FsNotFound)
    );
    assert_eq!(
        lookup_gemfile_in_ancestors(&listings_above(&tree, "./test/root")),
        Ok(0)
    );
    assert_eq!(
        lookup_gemfile_in_ancestors(&listings_above(
            &tree,
            "./test/root/nested/directory/deep/inside"
        )),
        Ok(4)
    );
}

#[test]
fn gemfile_name_is_matched_exactly() {
    assert_eq!(GEMFILE, "Gemfile");
    assert!(has_gemfile(&strings(&["Gemfile"])));
    assert!(has_gemfile(&strings(&["a", "Gemfile", "b"])));
    assert!(has_gemfile(&strings(&["a", "b", "Gemfile"])));
    assert!(has_gemfile(&strings(&["Gemfile", "Gemfile"])));
    assert!(!has_gemfile(&Vec::new()));
    assert!(!has_gemfile(&strings(&["gemfile"])));
    assert!(!has_gemfile(&strings(&["GEMFILE"])));
    assert!(!has_gemfile(&strings(&["Gemfile.lock"])));
    assert!(!has_gemfile(&strings(&["Gemfil"])));
    assert!(!has_gemfile(&strings(&[" Gemfile"])));
    assert!(!has_gemfile(&strings(&["", "Rakefile", "Gemfile.rb"])));
}

#[test]
fn each_listing_decides_the_step() {
    for has_parent in [false, true] {
        assert_eq!(
            lookup_step(&DirListing::Unreadable, has_parent),
            LookupStep::Failed(BWErrors::FsNotFound)
        );
        assert_eq!(
            lookup_step(&entries(&["lib", "Gemfile"]), has_parent),
            LookupStep::Found
        );
    }
    assert_eq!(lookup_step(&entries(&["lib"]), true), LookupStep::Ascend);
    assert_eq!(lookup_step(&entries(&[]), true), LookupStep::Ascend);
    assert_eq!(
        lookup_step(&entries(&["lib"]), false),
        LookupStep::Failed(BWErrors::FsRoot)
    );
    assert_eq!(
        lookup_step(&entries(&[]), false),
        LookupStep::Failed(BWErrors::FsRoot)
    );
}

#[test]
fn gemfile_in_the_start_directory_is_found_there() {
    assert_eq!(lookup_gemfile_in_ancestors(&vec![entries(&["Gemfile"])]), Ok(0));
    assert_eq!(
        lookup_gemfile_in_ancestors(&vec![
            entries(&["Gemfile"]),
            DirListing::Unreadable,
            entries(&["Gemfile"]),
        ]),
        Ok(0)
    );
}

#[test]
fn nearest_directory_with_a_gemfile_wins() {
    let chain = vec![
        entries(&["inside"]),
        entries(&[]),
        entries(&["Gemfile", "deep"]),
        entries(&["Gemfile"]),
        entries(&["home"]),
    ];
    assert_eq!(lookup_gemfile_in_ancestors(&chain), Ok(2));
}

#[test]
fn gemfile_in_the_topmost_directory_is_found() {
    let chain = vec![entries(&["a"]), entries(&["b"]), entries(&["Gemfile"])];
    assert_eq!(lookup_gemfile_in_ancestors(&chain), Ok(2));
}

#[test]
fn topmost_directory_without_gemfile_ends_the_search() {
    assert_eq!(
        lookup_gemfile_in_ancestors(&vec![entries(&["home", "etc"])]),
        Err(BWErrors::FsRoot)
    );
    assert_eq!(
        lookup_gemfile_in_ancestors(&vec![entries(&["a"]), entries(&[]), entries(&["etc"])]),
        Err(BWErrors::FsRoot)
    );
    assert_eq!(lookup_gemfile_in_ancestors(&Vec::new()), Err(BWErrors::FsRoot));
}

#[test]
fn unreadable_directory_ends_the_search() {
    assert_eq!(
        lookup_gemfile_in_ancestors(&vec![DirListing::Unreadable]),
        Err(BWErrors::FsNotFound)
    );
    assert_eq!(
        lookup_gemfile_in_ancestors(&vec![DirListing::Unreadable, entries(&["Gemfile"])]),
        Err(BWErrors::FsNotFound)
    );
    assert_eq!(
        lookup_gemfile_in_ancestors(&vec![
            entries(&["a"]),
            DirListing::Unreadable,
            entries(&["Gemfile"]),
        ]),
        Err(BWErrors::FsNotFound)
    );
    assert_eq!(
        lookup_gemfile_in_ancestors(&vec![entries(&["a"]), entries(&["b"]), DirListing::Unreadable]),
        Err(BWErrors::FsNotFound)
    );
}

#[test]
fn relative_start_climbs_to_the_empty_path() {
    let tree = project_tree();
    let res = lookup_gemfile_in_directory(&tree, PathBuf::from("./test"));
    assert_eq!(res, Err(BWErrors::FsNotFound));
    let everywhere = Tree::new(&[("", &["x"]), (".", &["y"])]);
    assert_eq!(
        lookup_gemfile_in_directory(&everywhere, PathBuf::from(".")),
        Err(BWErrors::FsRoot)
    );
}
