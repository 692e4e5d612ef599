use validate_branchname::HeadState;
use validate_branchname::exit_code;
use validate_branchname::locate;
use validate_branchname::resolve_head;
use validate_branchname::validate_branchname;
use validate_branchname::CheckError;

/// Creates a repository with one commit and returns its first commit id.
fn init_repo_with_commit(path: &std::path::Path) -> git2::Oid {
    let repo = git2::Repository::init(path).unwrap();
    let sig = git2::Signature::now("tester", "tester@invalid.invalid").unwrap();
    let tree_id = {
        let mut index = repo.index().unwrap();
        index.write_tree().unwrap()
    };
    let tree = repo.find_tree(tree_id).unwrap();
    repo.commit(Some("HEAD"), &sig, &sig, "initial", &tree, &[]).unwrap()
}

fn checkout_branch(path: &std::path::Path, name: &str) {
    let repo = git2::Repository::open(path).unwrap();
    let head_id = repo.head().unwrap().target().unwrap();
    let commit = repo.find_commit(head_id).unwrap();
    repo.branch(name, &commit, true).unwrap();
    repo.set_head(&format!("refs/heads/{name}")).unwrap();
}

#[test]
fn locate_succeeds_anywhere_inside_the_repository_tree() {
    let td = tempfile::tempdir().unwrap();
    init_repo_with_commit(td.path());
    assert!(locate(td.path().to_str().unwrap()).is_ok());

    let sub = tempfile::Builder::new().tempdir_in(td.path()).unwrap();
    let handle = locate(sub.path().to_str().unwrap());
    assert!(handle.is_ok());
}

#[test]
fn locate_fails_outside_any_repository_tree() {
    let td = tempfile::tempdir().unwrap();
    let r = locate(td.path().to_str().unwrap());
    assert!(r.is_err());
    assert!(!r.err().unwrap().msg.is_empty());
}

#[test]
fn head_on_a_branch_resolves_to_its_short_name() {
    let td = tempfile::tempdir().unwrap();
    init_repo_with_commit(td.path());
    checkout_branch(td.path(), "feature/x");

    let handle = locate(td.path().to_str().unwrap()).unwrap();
    let state = resolve_head(&handle).unwrap();
    match &state {
        HeadState::NamedBranch(name) => assert_eq!(name, "feature/x"),
        HeadState::Detached(_) => panic!("expected a named branch"),
    }
    assert_eq!(state.display(), "feature/x");
}

#[test]
fn detached_head_resolves_to_the_shortened_commit_id() {
    let td = tempfile::tempdir().unwrap();
    let commit_id = init_repo_with_commit(td.path());
    {
        let repo = git2::Repository::open(td.path()).unwrap();
        repo.set_head_detached(commit_id).unwrap();
    }

    let handle = locate(td.path().to_str().unwrap()).unwrap();
    let state = resolve_head(&handle).unwrap();
    let full = commit_id.to_string();
    match &state {
        HeadState::Detached(id) => assert_eq!(id, &full),
        HeadState::NamedBranch(_) => panic!("expected a detached state"),
    }
    assert_eq!(state.display(), format!("DETACHED@{}", &full[..7]));
}

#[test]
fn unborn_repository_is_a_resolution_error() {
    let td = tempfile::tempdir().unwrap();
    git2::Repository::init(td.path()).unwrap();
    let handle = locate(td.path().to_str().unwrap()).unwrap();
    assert!(resolve_head(&handle).is_err());
}

#[test]
fn release_branch_matches_release_pattern_and_exits_zero() {
    let td = tempfile::tempdir().unwrap();
    init_repo_with_commit(td.path());
    checkout_branch(td.path(), "release-1.0");
    let path = td.path().to_str().unwrap();

    let matched = validate_branchname("^release-", path);
    assert_eq!(exit_code(&matched), 0);

    let unmatched = validate_branchname("^hotfix-", path);
    assert_eq!(exit_code(&unmatched), 1);
}

#[test]
fn detached_head_matches_the_detached_tag_pattern() {
    let td = tempfile::tempdir().unwrap();
    let commit_id = init_repo_with_commit(td.path());
    {
        let repo = git2::Repository::open(td.path()).unwrap();
        repo.set_head_detached(commit_id).unwrap();
    }
    let r = validate_branchname("^DETACHED@", td.path().to_str().unwrap());
    assert_eq!(exit_code(&r), 0);
}

#[test]
fn missing_repository_exits_one_with_a_diagnostic() {
    let td = tempfile::tempdir().unwrap();
    let r = validate_branchname("^release-", td.path().to_str().unwrap());
    assert_eq!(exit_code(&r), 1);
    match r {
        Err(CheckError::NotFound(_)) => {}
        _ => panic!("expected the locator's failure to propagate"),
    }
}

#[test]
fn malformed_pattern_exits_one_naming_the_pattern() {
    let td = tempfile::tempdir().unwrap();
    init_repo_with_commit(td.path());
    let r = validate_branchname("(", td.path().to_str().unwrap());
    assert_eq!(exit_code(&r), 1);
    match &r {
        Err(e @ CheckError::Pattern(_)) => {
            assert!(e.message().starts_with("Invalid regex pattern: "));
        }
        _ => panic!("expected a pattern error"),
    }
}

#[test]
fn repeated_invocations_yield_identical_outcomes() {
    let td = tempfile::tempdir().unwrap();
    init_repo_with_commit(td.path());
    checkout_branch(td.path(), "release-1.0");
    let path = td.path().to_str().unwrap();

    let first = validate_branchname("^release-", path);
    let second = validate_branchname("^release-", path);
    assert_eq!(first.as_ref().ok(), second.as_ref().ok());
    assert_eq!(exit_code(&first), exit_code(&second));

    let bad_first = validate_branchname("(", path);
    let bad_second = validate_branchname("(", path);
    assert_eq!(exit_code(&bad_first), exit_code(&bad_second));
    match (&bad_first, &bad_second) {
        (Err(e1), Err(e2)) => assert_eq!(e1.message(), e2.message()),
        _ => panic!("a malformed pattern must fail both times"),
    }
}
