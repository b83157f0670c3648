use vstd::prelude::*;

use crate::error::Error;
use crate::plan::{
    add_step_seq, remove_step_seq, set_password_step_seq, show_step_seq, Step, Target,
};

verus! {

/// What the model keeps of one file on disk: whether its permissions
/// are owner-only read and write, and its bytes.
pub struct FileData {
    /// Whether the file is restricted to owner-only read and write,
    /// with no group or other access.
    pub owner_only: bool,
    /// The bytes of the file.
    pub content: Seq<u8>,
}

/// A model of everything the tool touches: the key files on disk, the
/// set of private key paths registered with the agent, whether the
/// agent runs, and how often the external agent process was started
/// and the deregistration call was made.
pub struct SystemModel {
    /// The key files on disk, by path.
    pub files: Map<Seq<char>, FileData>,
    /// The private key paths registered with the agent.
    pub registered: Set<Seq<char>>,
    /// Whether the agent is running.
    pub agent_running: bool,
    /// How many times the external agent process was started.
    pub agent_starts: nat,
    /// How many times the deregistration call was made.
    pub dereg_calls: nat,
}

/// Ensure-agent on the model: afterwards the agent runs, and the
/// external agent process was started exactly when it was not running
/// before.
pub open spec fn ensure_agent(m: SystemModel) -> SystemModel {
    SystemModel {
        agent_running: true,
        agent_starts: m.agent_starts + (if m.agent_running {
            0nat
        } else {
            1nat
        }),
        ..m
    }
}

/// The non-clobbering move of edited bytes into the file at `path`:
/// refused with `AlreadyExists` when a file is already there, and the
/// file is created, not yet restricted, otherwise.
pub open spec fn persist(m: SystemModel, path: Seq<char>, content: Seq<u8>) -> (SystemModel, Result<
    (),
    Error,
>) {
    if m.files.contains_key(path) {
        (m, Err(Error::AlreadyExists))
    } else {
        (
            SystemModel {
                files: m.files.insert(path, FileData { owner_only: false, content }),
                ..m
            },
            Ok(()),
        )
    }
}

/// Restricting the file at `path` to owner-only read and write.
pub open spec fn set_owner_only(m: SystemModel, path: Seq<char>) -> SystemModel {
    if m.files.contains_key(path) {
        SystemModel {
            files: m.files.insert(
                path,
                FileData { owner_only: true, content: m.files[path].content },
            ),
            ..m
        }
    } else {
        m
    }
}

/// Registering the key at `path` with the agent.
pub open spec fn register(m: SystemModel, path: Seq<char>) -> SystemModel {
    SystemModel { registered: m.registered.insert(path), ..m }
}

/// One deregistration call for the key at `path`: the call is counted
/// whatever happens, and the registration goes away exactly when the
/// external tool reports success.
pub open spec fn deregister(m: SystemModel, path: Seq<char>, removed: bool) -> SystemModel {
    SystemModel {
        registered: if removed {
            m.registered.remove(path)
        } else {
            m.registered
        },
        dereg_calls: m.dereg_calls + 1,
        ..m
    }
}

/// Deleting the file at `path`: a file already absent fails the run
/// with `FileNotFound`.
pub open spec fn delete(m: SystemModel, path: Seq<char>) -> (SystemModel, Result<(), Error>) {
    if m.files.contains_key(path) {
        (SystemModel { files: m.files.remove(path), ..m }, Ok(()))
    } else {
        (m, Err(Error::FileNotFound))
    }
}

/// The outcome of each external call an `add` makes, as the outside
/// world decides it: whether the editor could be launched for each of
/// the two scratch files, and the exits of the registration tool and
/// of the passphrase flow, each with its standard-error bytes.
pub struct AddOutcomes {
    /// Whether the editor launch on the private scratch file happened.
    pub private_edit_ok: bool,
    /// Whether the editor launch on the public scratch file happened.
    pub public_edit_ok: bool,
    /// Whether the registration tool exited with status zero.
    pub register_ok: bool,
    /// The registration tool's standard-error bytes.
    pub register_stderr: Vec<u8>,
    /// Whether the passphrase flow exited with status zero.
    pub password_ok: bool,
    /// The passphrase flow's standard-error bytes.
    pub password_stderr: Vec<u8>,
}

/// Whether every external call an `add` makes reports success.
pub open spec fn add_externals_ok(no_password: bool, ext: AddOutcomes) -> bool {
    &&& ext.private_edit_ok
    &&& ext.public_edit_ok
    &&& ext.register_ok
    &&& (no_password || ext.password_ok)
}

/// A whole `add` run on the model, in the order of the `add` step
/// sequence. The scratch files are provisioned and edited outside the
/// model's view of the disk; then each is moved into place without
/// overwriting, both files are restricted, the agent is ensured, the
/// key is registered, and unless `no_password` is set the passphrase
/// flow runs. The run stops at its first failing step, and earlier
/// effects are not rolled back.
pub open spec fn model_add(
    m: SystemModel,
    private_path: Seq<char>,
    public_path: Seq<char>,
    private_bytes: Seq<u8>,
    public_bytes: Seq<u8>,
    no_password: bool,
    ext: AddOutcomes,
) -> (SystemModel, Result<(), Error>) {
    if !ext.private_edit_ok || !ext.public_edit_ok {
        (m, Err(Error::EditorUnavailable))
    } else {
        let (m1, r1) = persist(m, private_path, private_bytes);
        if r1 is Err {
            (m1, r1)
        } else {
            let (m2, r2) = persist(m1, public_path, public_bytes);
            if r2 is Err {
                (m2, r2)
            } else {
                let m3 = set_owner_only(m2, private_path);
                let m4 = set_owner_only(m3, public_path);
                let m5 = ensure_agent(m4);
                if !ext.register_ok {
                    (m5, Err(Error::RegistrationError(ext.register_stderr)))
                } else {
                    let m6 = register(m5, private_path);
                    if no_password || ext.password_ok {
                        (m6, Ok(()))
                    } else {
                        (m6, Err(Error::PasswordError(ext.password_stderr)))
                    }
                }
            }
        }
    }
}

/// The outcome of the one external call a `remove` makes: the exit of
/// the deregistration tool, with its standard-error bytes.
pub struct RemoveOutcomes {
    /// Whether the deregistration tool exited with status zero.
    pub dereg_ok: bool,
    /// The deregistration tool's standard-error bytes.
    pub dereg_stderr: Vec<u8>,
}

/// A whole `remove` run on the model, in the order of the `remove`
/// step sequence: the agent is ensured, the deregistration call is
/// made, and only after it reports success are the two files deleted,
/// the private one first.
pub open spec fn model_remove(
    m: SystemModel,
    private_path: Seq<char>,
    public_path: Seq<char>,
    ext: RemoveOutcomes,
) -> (SystemModel, Result<(), Error>) {
    let m1 = ensure_agent(m);
    let m2 = deregister(m1, private_path, ext.dereg_ok);
    if !ext.dereg_ok {
        (m2, Err(Error::RegistrationError(ext.dereg_stderr)))
    } else {
        let (m3, r3) = delete(m2, private_path);
        if r3 is Err {
            (m3, r3)
        } else {
            delete(m3, public_path)
        }
    }
}

/// The world around one run, beyond `SystemModel`: what stands in the
/// two scratch files, what the derivation step produced, and what was
/// printed.
pub struct WorldModel {
    /// The files, registrations and agent state.
    pub sys: SystemModel,
    /// The bytes of the private scratch file.
    pub scratch_private: Seq<u8>,
    /// The bytes of the public scratch file.
    pub scratch_public: Seq<u8>,
    /// The bytes the derivation step produced.
    pub derived: Seq<u8>,
    /// The bytes written to standard output, once printed.
    pub printed: Option<Seq<u8>>,
}

/// Everything the outside world decides during one run: the
/// placeholder bytes provisioned into the scratch files, what the
/// user's editor leaves in them, and the outcome of every external
/// call a step can make.
pub struct Externals {
    /// The placeholder bytes provisioned into the private scratch file.
    pub placeholder_private: Seq<u8>,
    /// The placeholder bytes provisioned into the public scratch file.
    pub placeholder_public: Seq<u8>,
    /// What the editor leaves in the private scratch file.
    pub edited_private: Seq<u8>,
    /// What the editor leaves in the public scratch file.
    pub edited_public: Seq<u8>,
    /// Whether the editor launch on the private scratch file happened.
    pub private_edit_ok: bool,
    /// Whether the editor launch on the public scratch file happened.
    pub public_edit_ok: bool,
    /// Whether the registration tool exited with status zero.
    pub register_ok: bool,
    /// The registration tool's standard-error bytes.
    pub register_stderr: Vec<u8>,
    /// Whether the passphrase flow exited with status zero.
    pub password_ok: bool,
    /// The passphrase flow's standard-error bytes.
    pub password_stderr: Vec<u8>,
    /// Whether the deregistration tool exited with status zero.
    pub dereg_ok: bool,
    /// The deregistration tool's standard-error bytes.
    pub dereg_stderr: Vec<u8>,
    /// Whether the derivation tool exited with status zero.
    pub derive_ok: bool,
    /// The derivation tool's standard-output bytes.
    pub derive_stdout: Vec<u8>,
    /// The derivation tool's standard-error bytes.
    pub derive_stderr: Vec<u8>,
}

/// The `add` slice of `Externals`.
pub open spec fn add_outcomes_of(ext: Externals) -> AddOutcomes {
    AddOutcomes {
        private_edit_ok: ext.private_edit_ok,
        public_edit_ok: ext.public_edit_ok,
        register_ok: ext.register_ok,
        register_stderr: ext.register_stderr,
        password_ok: ext.password_ok,
        password_stderr: ext.password_stderr,
    }
}

/// The `remove` slice of `Externals`.
pub open spec fn remove_outcomes_of(ext: Externals) -> RemoveOutcomes {
    RemoveOutcomes { dereg_ok: ext.dereg_ok, dereg_stderr: ext.dereg_stderr }
}

/// What one step does to the world, with `private_path` and
/// `public_path` the two final paths of the run and `ext` the outside
/// world's decisions. A step on a target it cannot act on leaves the
/// world as it is.
pub open spec fn step_model(
    w: WorldModel,
    step: Step,
    private_path: Seq<char>,
    public_path: Seq<char>,
    ext: Externals,
) -> (WorldModel, Result<(), Error>) {
    match step {
        Step::CreateWithComment(t) => (
            match t {
                Target::PrivateScratch => WorldModel {
                    scratch_private: ext.placeholder_private,
                    ..w
                },
                Target::PublicScratch => WorldModel { scratch_public: ext.placeholder_public, ..w },
                _ => w,
            },
            Ok(()),
        ),
        Step::LaunchEditor(t) => match t {
            Target::PrivateScratch => if ext.private_edit_ok {
                (WorldModel { scratch_private: ext.edited_private, ..w }, Ok(()))
            } else {
                (w, Err(Error::EditorUnavailable))
            },
            Target::PublicScratch => if ext.public_edit_ok {
                (WorldModel { scratch_public: ext.edited_public, ..w }, Ok(()))
            } else {
                (w, Err(Error::EditorUnavailable))
            },
            _ => (w, Ok(())),
        },
        Step::PersistNoClobber(from, to) => {
            let content = match from {
                Target::PublicScratch => w.scratch_public,
                _ => w.scratch_private,
            };
            match to {
                Target::Private => {
                    let (sys, r) = persist(w.sys, private_path, content);
                    (WorldModel { sys, ..w }, r)
                },
                Target::Public => {
                    let (sys, r) = persist(w.sys, public_path, content);
                    (WorldModel { sys, ..w }, r)
                },
                _ => (w, Ok(())),
            }
        },
        Step::SetOwnerOnly(t) => match t {
            Target::Private => (
                WorldModel { sys: set_owner_only(w.sys, private_path), ..w },
                Ok(()),
            ),
            Target::Public => (WorldModel { sys: set_owner_only(w.sys, public_path), ..w }, Ok(())),
            _ => (w, Ok(())),
        },
        Step::EnsureAgent => (WorldModel { sys: ensure_agent(w.sys), ..w }, Ok(())),
        Step::RegisterKey => if ext.register_ok {
            (WorldModel { sys: register(w.sys, private_path), ..w }, Ok(()))
        } else {
            (w, Err(Error::RegistrationError(ext.register_stderr)))
        },
        Step::DeregisterKey => {
            let sys = deregister(w.sys, private_path, ext.dereg_ok);
            if ext.dereg_ok {
                (WorldModel { sys, ..w }, Ok(()))
            } else {
                (WorldModel { sys, ..w }, Err(Error::RegistrationError(ext.dereg_stderr)))
            }
        },
        Step::DeleteFile(t) => match t {
            Target::Private => {
                let (sys, r) = delete(w.sys, private_path);
                (WorldModel { sys, ..w }, r)
            },
            Target::Public => {
                let (sys, r) = delete(w.sys, public_path);
                (WorldModel { sys, ..w }, r)
            },
            _ => (w, Ok(())),
        },
        Step::DerivePublicKey => if ext.derive_ok {
            (WorldModel { derived: ext.derive_stdout@, ..w }, Ok(()))
        } else {
            (w, Err(Error::DerivationError(ext.derive_stderr)))
        },
        Step::PrintDerived => (WorldModel { printed: Some(w.derived), ..w }, Ok(())),
        Step::SetKeyPassword => if ext.password_ok {
            (w, Ok(()))
        } else {
            (w, Err(Error::PasswordError(ext.password_stderr)))
        },
    }
}

/// Run `steps` in order on the world: the first failing step ends the
/// run with its error, and what earlier steps did stays.
pub open spec fn run_steps(
    w: WorldModel,
    steps: Seq<Step>,
    private_path: Seq<char>,
    public_path: Seq<char>,
    ext: Externals,
) -> (WorldModel, Result<(), Error>)
    decreases steps.len(),
{
    if steps.len() == 0 {
        (w, Ok(()))
    } else {
        let (w1, r1) = step_model(w, steps[0], private_path, public_path, ext);
        if r1 is Err {
            (w1, r1)
        } else {
            run_steps(w1, steps.drop_first(), private_path, public_path, ext)
        }
    }
}

/// Running the `add` step sequence is exactly the straight-line `add`
/// semantics: the same files, registrations and agent state, and the
/// same result, with the edited scratch bytes as the new files'
/// content.
pub proof fn lemma_add_steps_match_model(
    w: WorldModel,
    private_path: Seq<char>,
    public_path: Seq<char>,
    no_password: bool,
    ext: Externals,
)
    ensures
        ({
            let (w1, r1) = run_steps(
                w,
                add_step_seq(no_password),
                private_path,
                public_path,
                ext,
            );
            let (s2, r2) = model_add(
                w.sys,
                private_path,
                public_path,
                ext.edited_private,
                ext.edited_public,
                no_password,
                add_outcomes_of(ext),
            );
            w1.sys == s2 && r1 == r2
        }),
{
    reveal_with_fuel(run_steps, 13);
}

/// Running the `remove` step sequence is exactly the straight-line
/// `remove` semantics.
pub proof fn lemma_remove_steps_match_model(
    w: WorldModel,
    private_path: Seq<char>,
    public_path: Seq<char>,
    ext: Externals,
)
    ensures
        ({
            let (w1, r1) = run_steps(w, remove_step_seq(), private_path, public_path, ext);
            let (s2, r2) = model_remove(w.sys, private_path, public_path, remove_outcomes_of(ext));
            w1.sys == s2 && r1 == r2
        }),
{
    reveal_with_fuel(run_steps, 6);
}

/// Running the `show` step sequence prints exactly the bytes the
/// derivation tool wrote to standard output, fails with
/// `DerivationError` when the tool did, and touches no file.
pub proof fn lemma_show_steps(
    w: WorldModel,
    private_path: Seq<char>,
    public_path: Seq<char>,
    ext: Externals,
)
    ensures
        ({
            let (w1, r) = run_steps(w, show_step_seq(), private_path, public_path, ext);
            &&& ext.derive_ok ==> (r == Ok::<(), Error>(()) && w1.printed == Some(
                ext.derive_stdout@,
            ))
            &&& !ext.derive_ok ==> (r == Err::<(), Error>(Error::DerivationError(ext.derive_stderr))
                && w1.printed == w.printed)
            &&& w1.sys.files == w.sys.files
        }),
{
    reveal_with_fuel(run_steps, 5);
}

/// Running the `set-password` step sequence ensures the agent, runs
/// the passphrase flow, and touches neither files nor registrations.
pub proof fn lemma_set_password_steps(
    w: WorldModel,
    private_path: Seq<char>,
    public_path: Seq<char>,
    ext: Externals,
)
    ensures
        ({
            let (w1, r) = run_steps(w, set_password_step_seq(), private_path, public_path, ext);
            &&& ext.password_ok ==> r == Ok::<(), Error>(())
            &&& !ext.password_ok ==> r == Err::<(), Error>(
                Error::PasswordError(ext.password_stderr),
            )
            &&& w1.sys.files == w.sys.files
            &&& w1.sys.registered == w.sys.registered
            &&& w1.sys.agent_running
        }),
{
    reveal_with_fuel(run_steps, 4);
}

/// `add` never overwrites: whatever the external calls do, every file
/// that existed before keeps its bytes and its permissions, and when
/// both edits happen, an `add` aimed at an existing private or public
/// path fails with `AlreadyExists`.
pub proof fn lemma_add_never_overwrites(
    m: SystemModel,
    private_path: Seq<char>,
    public_path: Seq<char>,
    private_bytes: Seq<u8>,
    public_bytes: Seq<u8>,
    no_password: bool,
    ext: AddOutcomes,
)
    ensures
        ({
            let (ma, r) = model_add(
                m,
                private_path,
                public_path,
                private_bytes,
                public_bytes,
                no_password,
                ext,
            );
            &&& forall|p: Seq<char>| (#[trigger] m.files.contains_key(p)) ==> ma.files.contains_key(
                p,
            ) && ma.files[p] == m.files[p]
            &&& (ext.private_edit_ok && ext.public_edit_ok && (m.files.contains_key(private_path)
                || m.files.contains_key(public_path))) ==> r == Err::<(), Error>(
                Error::AlreadyExists,
            )
        }),
{
}

/// Adding the same name twice: the first `add` succeeds, the second
/// fails with `AlreadyExists` and leaves the pair the first one
/// created untouched, bytes and permissions alike.
pub proof fn lemma_add_twice(
    m: SystemModel,
    private_path: Seq<char>,
    public_path: Seq<char>,
    first_private: Seq<u8>,
    first_public: Seq<u8>,
    second_private: Seq<u8>,
    second_public: Seq<u8>,
    no_password: bool,
    ext1: AddOutcomes,
    ext2: AddOutcomes,
)
    requires
        !m.files.contains_key(private_path),
        !m.files.contains_key(public_path),
        private_path != public_path,
        add_externals_ok(no_password, ext1),
        ext2.private_edit_ok,
        ext2.public_edit_ok,
    ensures
        ({
            let (m1, r1) = model_add(
                m,
                private_path,
                public_path,
                first_private,
                first_public,
                no_password,
                ext1,
            );
            let (m2, r2) = model_add(
                m1,
                private_path,
                public_path,
                second_private,
                second_public,
                no_password,
                ext2,
            );
            &&& r1 == Ok::<(), Error>(())
            &&& r2 == Err::<(), Error>(Error::AlreadyExists)
            &&& m2.files == m1.files
            &&& m1.files[private_path] == (FileData { owner_only: true, content: first_private })
            &&& m1.files[public_path] == (FileData { owner_only: true, content: first_public })
        }),
{
}

/// After a successful `add`, both key files exist with owner-only
/// permissions and hold the edited bytes, the agent runs, and the
/// private key is registered with it.
pub proof fn lemma_add_success(
    m: SystemModel,
    private_path: Seq<char>,
    public_path: Seq<char>,
    private_bytes: Seq<u8>,
    public_bytes: Seq<u8>,
    no_password: bool,
    ext: AddOutcomes,
)
    requires
        !m.files.contains_key(private_path),
        !m.files.contains_key(public_path),
        private_path != public_path,
        add_externals_ok(no_password, ext),
    ensures
        ({
            let (ma, r) = model_add(
                m,
                private_path,
                public_path,
                private_bytes,
                public_bytes,
                no_password,
                ext,
            );
            &&& r == Ok::<(), Error>(())
            &&& ma.files.contains_key(private_path)
            &&& ma.files[private_path] == (FileData { owner_only: true, content: private_bytes })
            &&& ma.files.contains_key(public_path)
            &&& ma.files[public_path] == (FileData { owner_only: true, content: public_bytes })
            &&& ma.agent_running
            &&& ma.registered.contains(private_path)
        }),
{
}

/// `remove` of a name that was never added fails with `FileNotFound`
/// when the deregistration call itself reports success, and with
/// `RegistrationError` otherwise. In either case no file changes, and
/// beyond the one attempted call the agent's registrations are left as
/// they were.
pub proof fn lemma_remove_never_added(
    m: SystemModel,
    private_path: Seq<char>,
    public_path: Seq<char>,
    ext: RemoveOutcomes,
)
    requires
        !m.files.contains_key(private_path),
        !m.registered.contains(private_path),
    ensures
        ({
            let (mr, r) = model_remove(m, private_path, public_path, ext);
            &&& ext.dereg_ok ==> r == Err::<(), Error>(Error::FileNotFound)
            &&& !ext.dereg_ok ==> r == Err::<(), Error>(Error::RegistrationError(ext.dereg_stderr))
            &&& mr.files == m.files
            &&& mr.registered == m.registered
            &&& mr.dereg_calls == m.dereg_calls + 1
        }),
{
    assert(m.registered.remove(private_path) =~= m.registered);
}

/// After a successful `add`, one `remove` makes exactly one
/// deregistration call, deletes both files, and leaves the name
/// unregistered; a repeated `remove` then fails with `FileNotFound`
/// and changes no file.
pub proof fn lemma_add_then_remove(
    m: SystemModel,
    private_path: Seq<char>,
    public_path: Seq<char>,
    private_bytes: Seq<u8>,
    public_bytes: Seq<u8>,
    no_password: bool,
    ext: AddOutcomes,
    rext1: RemoveOutcomes,
    rext2: RemoveOutcomes,
)
    requires
        !m.files.contains_key(private_path),
        !m.files.contains_key(public_path),
        private_path != public_path,
        add_externals_ok(no_password, ext),
        rext1.dereg_ok,
        rext2.dereg_ok,
    ensures
        ({
            let (m1, r1) = model_add(
                m,
                private_path,
                public_path,
                private_bytes,
                public_bytes,
                no_password,
                ext,
            );
            let (m2, r2) = model_remove(m1, private_path, public_path, rext1);
            let (m3, r3) = model_remove(m2, private_path, public_path, rext2);
            &&& r1 == Ok::<(), Error>(())
            &&& r2 == Ok::<(), Error>(())
            &&& !m2.files.contains_key(private_path)
            &&& !m2.files.contains_key(public_path)
            &&& !m2.registered.contains(private_path)
            &&& m2.dereg_calls == m1.dereg_calls + 1
            &&& r3 == Err::<(), Error>(Error::FileNotFound)
            &&& m3.files == m2.files
        }),
{
}

} // verus!
