//! Making sure that the directory of NBD devices exists.

use vstd::prelude::*;
use vstd::string::*;

use crate::machine::{trace, trace_goes_on_event_by_event, Machine};

verus! {

/// The inode of the root directory.
pub const ROOT_INODE: u64 = 0;

/// Permissions of the directory: all for its owner, reading and searching for
/// everyone else.
pub const NBD_DIRECTORY_MODE: u32 = 0o755;

/// On whose behalf the file system is used.
#[derive(Debug, PartialEq, Eq)]
pub struct Credentials {
    pub uid: u32,
    pub gid: u32,
    pub groups: [u32; 16],
    pub groups_count: usize,
}

/// [`Credentials`] with the groups as a sequence.
pub struct CredentialsView {
    pub uid: u32,
    pub gid: u32,
    pub groups: Seq<u32>,
    pub groups_count: usize,
}

impl View for Credentials {
    type V = CredentialsView;

    open spec fn view(&self) -> CredentialsView {
        CredentialsView {
            uid: self.uid,
            gid: self.gid,
            groups: self.groups@,
            groups_count: self.groups_count,
        }
    }
}

/// The attributes that are set on a new directory. What is not named here keeps
/// the file system's own default.
#[derive(Clone, Copy, Debug, PartialEq, Eq, Structural)]
pub struct DirectoryAttributes {
    pub mode: u32,
    pub uid: u32,
    pub gid: u32,
}

/// The superuser, in the group 0 alone.
pub open spec fn superuser() -> CredentialsView {
    CredentialsView { uid: 0, gid: 0, groups: Seq::new(16, |i: int| 0u32), groups_count: 1 }
}

/// The credentials of the superuser.
pub fn root_credentials() -> (creds: Credentials)
    ensures
        creds@ == superuser(),
        creds.uid == 0,
        creds.gid == 0,
        creds.groups_count == 1,
        creds.groups@.len() == 16,
        forall|i: int| 0 <= i < 16 ==> #[trigger] creds.groups@[i] == 0,
{
    let groups: [u32; 16] = [0; 16];
    assert(groups@ =~= Seq::new(16, |i: int| 0u32));
    Credentials { uid: 0, gid: 0, groups, groups_count: 1 }
}

/// The name of the directory, `.nbd`.
pub open spec fn nbd_name() -> Seq<u8> {
    seq![0x2e, 0x6e, 0x62, 0x64]
}

fn nbd_directory_name() -> (name: Vec<u8>)
    ensures
        name@ == nbd_name(),
{
    let name: Vec<u8> = vec![0x2e, 0x6e, 0x62, 0x64];
    assert(name@ =~= nbd_name());
    name
}

/// The steps that make sure that the directory exists.
#[derive(Debug, PartialEq, Eq)]
pub enum EnsureNbdDirectory {
    LookingUp,
    Creating,
    Finished,
}

/// How a step went.
#[derive(Debug, PartialEq, Eq)]
pub enum NbdDirectoryEvent<E> {
    LookedUp(Result<(), E>),
    Created(Result<(), E>),
}

/// The directory could not be created.
#[derive(Debug, PartialEq, Eq)]
pub struct NbdDirectoryError<E> {
    pub cause: E,
}

/// What to do next.
#[derive(Debug, PartialEq, Eq)]
pub enum NbdDirectoryAction<E> {
    Lookup { creds: Credentials, parent: u64, name: Vec<u8> },
    MakeDirectory {
        creds: Credentials,
        parent: u64,
        name: Vec<u8>,
        attributes: DirectoryAttributes,
    },
    Finish(Result<(), NbdDirectoryError<E>>),
}

/// An [`NbdDirectoryAction`] with sequences in place of arrays and vectors.
pub enum NbdDirectoryActionView<E> {
    Lookup { creds: CredentialsView, parent: u64, name: Seq<u8> },
    MakeDirectory {
        creds: CredentialsView,
        parent: u64,
        name: Seq<u8>,
        attributes: DirectoryAttributes,
    },
    Finish(Result<(), NbdDirectoryError<E>>),
}

impl<E> View for NbdDirectoryAction<E> {
    type V = NbdDirectoryActionView<E>;

    open spec fn view(&self) -> NbdDirectoryActionView<E> {
        match *self {
            NbdDirectoryAction::Lookup { creds, parent, name } => NbdDirectoryActionView::Lookup {
                creds: creds@,
                parent,
                name: name@,
            },
            NbdDirectoryAction::MakeDirectory { creds, parent, name, attributes } => {
                NbdDirectoryActionView::MakeDirectory {
                    creds: creds@,
                    parent,
                    name: name@,
                    attributes,
                }
            },
            NbdDirectoryAction::Finish(outcome) => NbdDirectoryActionView::Finish(outcome),
        }
    }
}

impl<E> Machine<NbdDirectoryEvent<E>, NbdDirectoryAction<E>> for EnsureNbdDirectory {
    open spec fn next(self, event: NbdDirectoryEvent<E>) -> (
        Self,
        Option<NbdDirectoryActionView<E>>,
    ) {
        match (self, event) {
            (EnsureNbdDirectory::LookingUp, NbdDirectoryEvent::LookedUp(Ok(_))) => (
                EnsureNbdDirectory::Finished,
                Some(NbdDirectoryActionView::Finish(Ok(()))),
            ),
            (EnsureNbdDirectory::LookingUp, NbdDirectoryEvent::LookedUp(Err(_))) => (
                EnsureNbdDirectory::Creating,
                Some(
                    NbdDirectoryActionView::MakeDirectory {
                        creds: superuser(),
                        parent: 0,
                        name: nbd_name(),
                        attributes: DirectoryAttributes { mode: 0o755, uid: 0, gid: 0 },
                    },
                ),
            ),
            (EnsureNbdDirectory::Creating, NbdDirectoryEvent::Created(created)) => (
                EnsureNbdDirectory::Finished,
                Some(
                    NbdDirectoryActionView::Finish(
                        match created {
                            Ok(_) => Ok(()),
                            Err(cause) => Err(NbdDirectoryError { cause }),
                        },
                    ),
                ),
            ),
            _ => (self, None),
        }
    }

    fn step(self, event: NbdDirectoryEvent<E>) -> (out: (Self, Option<NbdDirectoryAction<E>>)) {
        match (self, event) {
            (EnsureNbdDirectory::LookingUp, NbdDirectoryEvent::LookedUp(found)) => match found {
                Ok(_) => (EnsureNbdDirectory::Finished, Some(NbdDirectoryAction::Finish(Ok(())))),
                Err(_) => {
                    let creds = root_credentials();
                    let name = nbd_directory_name();
                    let attributes = DirectoryAttributes { mode: NBD_DIRECTORY_MODE, uid: 0, gid: 0 };
                    let parent: u64 = ROOT_INODE;
                    (
                        EnsureNbdDirectory::Creating,
                        Some(NbdDirectoryAction::MakeDirectory { creds, parent, name, attributes }),
                    )
                },
            },
            (EnsureNbdDirectory::Creating, NbdDirectoryEvent::Created(created)) => {
                let outcome = match created {
                    Ok(_) => Ok(()),
                    Err(cause) => Err(NbdDirectoryError { cause }),
                };
                (EnsureNbdDirectory::Finished, Some(NbdDirectoryAction::Finish(outcome)))
            },
            (unmoved, _) => (unmoved, None),
        }
    }
}

/// Begins to make sure that the directory exists: it is looked up in the root
/// directory.
pub fn ensure_nbd_directory<E>() -> (out: (EnsureNbdDirectory, NbdDirectoryAction<E>))
    ensures
        out.0 is LookingUp,
        out.1@ == (NbdDirectoryActionView::<E>::Lookup {
            creds: superuser(),
            parent: 0,
            name: nbd_name(),
        }),
        out.1 matches NbdDirectoryAction::Lookup { creds, parent, name } && {
            &&& creds.uid == 0 && creds.gid == 0 && creds.groups_count == 1
            &&& creds.groups@ =~= Seq::new(16, |i: int| 0u32)
            &&& parent == 0
            &&& name@ =~= seq![0x2eu8, 0x6e, 0x62, 0x64]
        },
{
    let parent: u64 = ROOT_INODE;
    (
        EnsureNbdDirectory::LookingUp,
        NbdDirectoryAction::Lookup { creds: root_credentials(), parent, name: nbd_directory_name() },
    )
}

/// The message for a directory that could not be created, from the text of its
/// cause.
pub fn nbd_directory_error_message(cause: &str) -> (message: String)
    ensures
        message@ == "Failed to create .nbd directory: "@ + cause@,
{
    let mut message = String::from_str("Failed to create .nbd directory: ");
    message.append(cause);
    message
}

/// A directory that exists is left alone: the steps end at once, without an error
/// and without an attempt to create it.
pub proof fn existing_nbd_directory_is_left_alone<E>()
    ensures
        Machine::<_, NbdDirectoryAction<E>>::next(
            EnsureNbdDirectory::LookingUp,
            NbdDirectoryEvent::<E>::LookedUp(Ok(())),
        ) == (
            EnsureNbdDirectory::Finished,
            Some(NbdDirectoryActionView::<E>::Finish(Ok(()))),
        ),
{
}

/// However the look-up fails, one attempt is made to create the directory, and
/// its outcome is the outcome of the whole.
pub proof fn missing_nbd_directory_is_created_once<E>(why: E, created: Result<(), E>)
    ensures
        ({
            let (state, action) = Machine::<_, NbdDirectoryAction<E>>::next(
                EnsureNbdDirectory::LookingUp,
                NbdDirectoryEvent::LookedUp(Err(why)),
            );
            let (end, outcome) = Machine::<_, NbdDirectoryAction<E>>::next(
                state,
                NbdDirectoryEvent::Created(created),
            );
            &&& action == Some(
                NbdDirectoryActionView::<E>::MakeDirectory {
                    creds: superuser(),
                    parent: 0,
                    name: nbd_name(),
                    attributes: DirectoryAttributes { mode: 0o755, uid: 0, gid: 0 },
                },
            )
            &&& end is Finished
            &&& outcome matches Some(NbdDirectoryActionView::Finish(result)) && match created {
                Ok(_) => result is Ok,
                Err(cause) => result == Err::<(), _>(NbdDirectoryError { cause }),
            }
        }),
{
}

/// The directory is called `.nbd`.
pub proof fn nbd_directory_is_called_dot_nbd()
    ensures
        nbd_name().len() == ".nbd"@.len(),
        forall|i: int| 0 <= i < nbd_name().len() ==> #[trigger] nbd_name()[i] as char == ".nbd"@[i],
{
    reveal_strlit(".nbd");
}

/// What is seen of an action is all that it holds.
pub proof fn nbd_directory_action_shows_all_it_holds<E>(action: NbdDirectoryAction<E>)
    ensures
        match action {
            NbdDirectoryAction::Lookup { creds, parent, name } => {
                action@ == (NbdDirectoryActionView::<E>::Lookup {
                    creds: CredentialsView {
                        uid: creds.uid,
                        gid: creds.gid,
                        groups: creds.groups@,
                        groups_count: creds.groups_count,
                    },
                    parent,
                    name: name@,
                })
            },
            NbdDirectoryAction::MakeDirectory { creds, parent, name, attributes } => {
                action@ == (NbdDirectoryActionView::<E>::MakeDirectory {
                    creds: CredentialsView {
                        uid: creds.uid,
                        gid: creds.gid,
                        groups: creds.groups@,
                        groups_count: creds.groups_count,
                    },
                    parent,
                    name: name@,
                    attributes,
                })
            },
            NbdDirectoryAction::Finish(outcome) => {
                action@ == NbdDirectoryActionView::<E>::Finish(outcome)
            },
        },
{
}

/// Whatever the look-up and the creation report: a directory that was found is the
/// end; else `.nbd` is created in the root directory, for and by the superuser, with
/// mode 755, and how that went is the end.
pub proof fn nbd_directory_is_created_exactly_if_it_was_not_found<E>(
    found: Result<(), E>,
    created: Result<(), E>,
)
    ensures
        ({
            let (end, actions) = trace::<_, NbdDirectoryAction<E>, _>(
                EnsureNbdDirectory::LookingUp,
                seq![NbdDirectoryEvent::LookedUp(found), NbdDirectoryEvent::Created(created)],
            );
            &&& end is Finished
            &&& found is Ok ==> actions == seq![NbdDirectoryActionView::<E>::Finish(Ok(()))]
            &&& found is Err ==> {
                &&& actions.len() == 2
                &&& actions[0] matches NbdDirectoryActionView::MakeDirectory {
                    creds,
                    parent,
                    name,
                    attributes,
                } && {
                    &&& creds.uid == 0 && creds.gid == 0 && creds.groups_count == 1
                    &&& creds.groups =~= Seq::new(16, |i: int| 0u32)
                    &&& parent == 0
                    &&& name =~= seq![0x2eu8, 0x6e, 0x62, 0x64]
                    &&& attributes.mode == 0o755 && attributes.uid == 0 && attributes.gid == 0
                }
                &&& created is Ok ==> actions[1] == NbdDirectoryActionView::<E>::Finish(Ok(()))
                &&& created matches Err(cause) ==> actions[1] == NbdDirectoryActionView::<E>::Finish(
                    Err(NbdDirectoryError { cause }),
                )
            }
        }),
{
    let start = EnsureNbdDirectory::LookingUp;
    let first = seq![NbdDirectoryEvent::LookedUp(found)];
    let both = seq![NbdDirectoryEvent::LookedUp(found), NbdDirectoryEvent::Created(created)];
    trace_goes_on_event_by_event::<_, NbdDirectoryAction<E>, _>(
        start,
        Seq::empty(),
        NbdDirectoryEvent::LookedUp(found),
    );
    trace_goes_on_event_by_event::<_, NbdDirectoryAction<E>, _>(
        start,
        first,
        NbdDirectoryEvent::Created(created),
    );
    assert(first =~= Seq::empty().push(NbdDirectoryEvent::LookedUp(found)));
    assert(both =~= first.push(NbdDirectoryEvent::Created(created)));
}

/// An event that answers nothing that was asked changes nothing.
pub proof fn nbd_directory_waits_for_its_own_answer<E>(
    ensure: EnsureNbdDirectory,
    event: NbdDirectoryEvent<E>,
)
    requires
        !(ensure is LookingUp && event is LookedUp),
        !(ensure is Creating && event is Created),
    ensures
        Machine::<_, NbdDirectoryAction<E>>::next(ensure, event) == (
            ensure,
            None::<NbdDirectoryActionView<E>>,
        ),
{
}

} // verus!
