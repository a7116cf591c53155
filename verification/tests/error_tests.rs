use git_commitizen::error::ErrorKind;

#[test]
fn every_failure_has_its_line() {
    assert_eq!(ErrorKind::RepositoryAccess.message(), "Could not open the repository");
    assert_eq!(ErrorKind::IndexWrite.message(), "Could not write the staging index");
    assert_eq!(
        ErrorKind::NothingToCommit.message(),
        "Nothing to commit, working directory clean"
    );
    assert_eq!(ErrorKind::IdentityMissing.message(), "Author name or email is not configured");
    assert_eq!(ErrorKind::NoParentCommit.message(), "Failed to find HEAD target");
    assert_eq!(ErrorKind::CommitCreation.message(), "Could not create the commit");
    assert_eq!(ErrorKind::Validation.message(), "Input is not valid");
    assert_eq!(ErrorKind::EditorInvocation.message(), "Could not write the body in the editor");
}
