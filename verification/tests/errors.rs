use bw::errors::BWErrors;

#[test]
fn each_error_has_its_text() {
    assert_eq!(BWErrors::FsRoot.message(), "Reached FS Root");
    assert_eq!(BWErrors::FsNotFound.message(), "Unable to read directory");
}

#[test]
fn the_two_errors_differ() {
    assert_ne!(BWErrors::FsRoot, BWErrors::FsNotFound);
    assert_ne!(BWErrors::FsRoot.message(), BWErrors::FsNotFound.message());
    assert_eq!(BWErrors::FsRoot, BWErrors::FsRoot.clone());
}
