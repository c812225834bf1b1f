use zerofs::machine::Machine;
use zerofs::nbd_directory::{
    ensure_nbd_directory, nbd_directory_error_message, root_credentials, DirectoryAttributes,
    EnsureNbdDirectory, NbdDirectoryAction, NbdDirectoryError, NbdDirectoryEvent,
};

type Action = NbdDirectoryAction<&'static str>;

#[test]
fn the_superuser_is_in_group_zero() {
    let creds = root_credentials();
    assert_eq!((creds.uid, creds.gid), (0, 0));
    assert_eq!(creds.groups, [0; 16]);
    assert_eq!(creds.groups_count, 1);
}

#[test]
fn the_directory_is_looked_up_in_the_root() {
    let (ensure, action): (_, Action) = ensure_nbd_directory();
    assert_eq!(ensure, EnsureNbdDirectory::LookingUp);
    assert_eq!(
        action,
        NbdDirectoryAction::Lookup {
            creds: root_credentials(),
            parent: 0,
            name: b".nbd".to_vec(),
        }
    );
}

#[test]
fn an_existing_directory_is_not_created() {
    let (ensure, action): (_, Option<Action>) =
        EnsureNbdDirectory::LookingUp.step(NbdDirectoryEvent::LookedUp(Ok(())));
    assert_eq!(ensure, EnsureNbdDirectory::Finished);
    assert_eq!(action, Some(NbdDirectoryAction::Finish(Ok(()))));
}

#[test]
fn a_missing_directory_is_created() {
    let (ensure, action): (_, Option<Action>) =
        EnsureNbdDirectory::LookingUp.step(NbdDirectoryEvent::LookedUp(Err("not found")));
    assert_eq!(
        action,
        Some(NbdDirectoryAction::MakeDirectory {
            creds: root_credentials(),
            parent: 0,
            name: b".nbd".to_vec(),
            attributes: DirectoryAttributes {
                mode: 0o755,
                uid: 0,
                gid: 0
            },
        })
    );
    let (ensure, action): (_, Option<Action>) = ensure.step(NbdDirectoryEvent::Created(Ok(())));
    assert_eq!(ensure, EnsureNbdDirectory::Finished);
    assert_eq!(action, Some(NbdDirectoryAction::Finish(Ok(()))));
}

#[test]
fn a_directory_that_cannot_be_created_is_an_error() {
    let (_, action): (_, Option<Action>) =
        EnsureNbdDirectory::Creating.step(NbdDirectoryEvent::Created(Err("read-only")));
    assert_eq!(
        action,
        Some(NbdDirectoryAction::Finish(Err(NbdDirectoryError {
            cause: "read-only"
        })))
    );
    assert_eq!(
        nbd_directory_error_message("NoSpace"),
        "Failed to create .nbd directory: NoSpace"
    );
}

#[test]
fn unexpected_answers_change_nothing() {
    let (ensure, action): (_, Option<Action>) =
        EnsureNbdDirectory::LookingUp.step(NbdDirectoryEvent::Created(Ok(())));
    assert_eq!(ensure, EnsureNbdDirectory::LookingUp);
    assert_eq!(action, None);
}
