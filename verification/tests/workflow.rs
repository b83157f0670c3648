use keyport::agent::{ensure_agent_running, AgentAction, AgentHandle};
use keyport::cli::Interface;
use keyport::error::Error;
use keyport::outcome::{
    comment_content, interpret_delete, interpret_derivation, interpret_editor_launch,
    interpret_password, interpret_persist, interpret_registration,
};
use keyport::plan::{plan_command, Command, Plan, Session, Step, Target};
use std::collections::HashMap;

#[derive(Clone, PartialEq, Debug)]
struct SimFile {
    owner_only: bool,
    content: Vec<u8>,
}

/// A stand-in for the world outside the library: key files, the agent's
/// registrations, and what the stub editor and stub derivation tool do.
struct Sim {
    files: HashMap<String, SimFile>,
    registered: Vec<String>,
    agent: AgentHandle,
    agent_starts: usize,
    dereg_calls: usize,
    scratch_private: Vec<u8>,
    scratch_public: Vec<u8>,
    derived: Vec<u8>,
    printed: Option<Vec<u8>>,
    editor_private: Vec<u8>,
    editor_public: Vec<u8>,
}

fn new_sim() -> Sim {
    Sim {
        files: HashMap::new(),
        registered: Vec::new(),
        agent: AgentHandle::probe(None, false),
        agent_starts: 0,
        dereg_calls: 0,
        scratch_private: Vec::new(),
        scratch_public: Vec::new(),
        derived: Vec::new(),
        printed: None,
        editor_private: b"private key material".to_vec(),
        editor_public: b"ssh-ed25519 AAAA... comment".to_vec(),
    }
}

fn target_path(plan: &Plan, t: Target) -> String {
    match t {
        Target::Private => plan.private_path.clone(),
        Target::Public => plan.public_path.clone(),
        Target::PrivateScratch => String::from("scratch.private"),
        Target::PublicScratch => String::from("scratch.public"),
    }
}

fn derive_stub(content: &[u8]) -> Result<Vec<u8>, Vec<u8>> {
    if content.starts_with(b"# ") || content.is_empty() {
        Err(b"invalid format".to_vec())
    } else {
        let mut out = b"derived:".to_vec();
        out.extend_from_slice(content);
        Ok(out)
    }
}

fn run_step(sim: &mut Sim, plan: &Plan, step: Step) -> Result<(), Error> {
    match step {
        Step::CreateWithComment(t) => {
            match t {
                Target::PrivateScratch => {
                    sim.scratch_private =
                        comment_content("Paste your private key here").into_bytes();
                }
                Target::PublicScratch => {
                    sim.scratch_public = comment_content("Paste your public key here").into_bytes();
                }
                _ => {}
            }
            Ok(())
        }
        Step::LaunchEditor(t) => {
            interpret_editor_launch(true)?;
            match t {
                Target::PrivateScratch => sim.scratch_private = sim.editor_private.clone(),
                Target::PublicScratch => sim.scratch_public = sim.editor_public.clone(),
                _ => {}
            }
            Ok(())
        }
        Step::PersistNoClobber(from, to) => {
            let content = match from {
                Target::PrivateScratch => sim.scratch_private.clone(),
                _ => sim.scratch_public.clone(),
            };
            let path = target_path(plan, to);
            let existed = sim.files.contains_key(&path);
            interpret_persist(existed)?;
            sim.files.insert(
                path,
                SimFile {
                    owner_only: false,
                    content,
                },
            );
            Ok(())
        }
        Step::SetOwnerOnly(t) => {
            let path = target_path(plan, t);
            if let Some(f) = sim.files.get_mut(&path) {
                f.owner_only = true;
            }
            Ok(())
        }
        Step::EnsureAgent => {
            if ensure_agent_running(&mut sim.agent) == AgentAction::StartAgent {
                sim.agent_starts += 1;
            }
            Ok(())
        }
        Step::RegisterKey => {
            interpret_registration(true, Vec::new())?;
            sim.registered.push(plan.private_path.clone());
            Ok(())
        }
        Step::DeregisterKey => {
            sim.dereg_calls += 1;
            sim.registered.retain(|p| p != &plan.private_path);
            interpret_registration(true, Vec::new())
        }
        Step::DeleteFile(t) => {
            let path = target_path(plan, t);
            let existed = sim.files.remove(&path).is_some();
            interpret_delete(existed)
        }
        Step::DerivePublicKey => match sim.files.get(&plan.private_path) {
            Some(f) => match derive_stub(&f.content) {
                Ok(bytes) => {
                    sim.derived = interpret_derivation(true, bytes, Vec::new())?;
                    Ok(())
                }
                Err(stderr) => interpret_derivation(false, Vec::new(), stderr).map(|_| ()),
            },
            None => {
                interpret_derivation(false, Vec::new(), b"no such file".to_vec()).map(|_| ())
            }
        },
        Step::PrintDerived => {
            sim.printed = Some(sim.derived.clone());
            Ok(())
        }
        Step::SetKeyPassword => interpret_password(true, Vec::new()),
    }
}

fn run_command(sim: &mut Sim, cmd: &Command, resolved: &str) -> Result<(), Error> {
    let plan = plan_command(cmd, resolved);
    let mut session = Session::new(plan.steps.clone());
    let mut outcome = Ok(());
    while let Some(step) = session.next_step() {
        match run_step(sim, &plan, step) {
            Ok(()) => session.record(true),
            Err(e) => {
                session.record(false);
                outcome = Err(e);
            }
        }
    }
    if outcome.is_ok() {
        assert!(session.completed());
    } else {
        assert!(session.aborted());
    }
    outcome
}

fn add_cmd(file: &str) -> Command {
    Command::Add {
        file: String::from(file),
        editor: None,
        no_password: false,
    }
}

const PRIVATE: &str = "/home/u/.ssh/id_test";
const PUBLIC: &str = "/home/u/.ssh/id_test.pub";

#[test]
fn add_provisions_pair_with_owner_only_modes() {
    let mut sim = new_sim();
    let r = run_command(&mut sim, &add_cmd("id_test"), PRIVATE);
    assert_eq!(r, Ok(()));
    let private = sim.files.get(PRIVATE).expect("private key file");
    let public = sim.files.get(PUBLIC).expect("public key file");
    assert!(private.owner_only);
    assert!(public.owner_only);
    assert_eq!(private.content, b"private key material".to_vec());
    assert_eq!(public.content, b"ssh-ed25519 AAAA... comment".to_vec());
    assert_eq!(sim.registered, vec![String::from(PRIVATE)]);
    assert_eq!(sim.agent_starts, 1);
}

#[test]
fn add_twice_fails_and_leaves_first_pair_untouched() {
    let mut sim = new_sim();
    assert_eq!(run_command(&mut sim, &add_cmd("id_test"), PRIVATE), Ok(()));
    let before = sim.files.clone();
    sim.editor_private = b"other material".to_vec();
    sim.editor_public = b"other public".to_vec();
    let r = run_command(&mut sim, &add_cmd("id_test"), PRIVATE);
    assert_eq!(r, Err(Error::AlreadyExists));
    assert_eq!(sim.files, before);
}

#[test]
fn add_where_name_collides_with_its_public_path() {
    // A private key named with a `pub` extension resolves to the same
    // path as its public file; the second non-clobbering move refuses.
    let mut sim = new_sim();
    let r = run_command(&mut sim, &add_cmd("id.pub"), "/home/u/.ssh/id.pub");
    assert_eq!(r, Err(Error::AlreadyExists));
}

#[test]
fn remove_of_never_added_name_is_file_not_found() {
    let mut sim = new_sim();
    let cmd = Command::Remove {
        file: String::from("id_test"),
    };
    let r = run_command(&mut sim, &cmd, PRIVATE);
    assert_eq!(r, Err(Error::FileNotFound));
    assert_eq!(sim.dereg_calls, 1);
    assert!(sim.files.is_empty());
    assert!(sim.registered.is_empty());
}

#[test]
fn show_prints_exactly_the_derived_bytes() {
    let mut sim = new_sim();
    assert_eq!(run_command(&mut sim, &add_cmd("id_test"), PRIVATE), Ok(()));
    let cmd = Command::Show {
        file: String::from("id_test"),
    };
    assert_eq!(run_command(&mut sim, &cmd, PRIVATE), Ok(()));
    assert_eq!(sim.printed, Some(b"derived:private key material".to_vec()));
}

#[test]
fn show_of_malformed_key_is_derivation_error() {
    let mut sim = new_sim();
    sim.files.insert(
        String::from(PRIVATE),
        SimFile {
            owner_only: true,
            content: comment_content("Paste your private key here").into_bytes(),
        },
    );
    let cmd = Command::Show {
        file: String::from("id_test"),
    };
    let r = run_command(&mut sim, &cmd, PRIVATE);
    assert_eq!(r, Err(Error::DerivationError(b"invalid format".to_vec())));
    assert_eq!(sim.printed, None);
}

#[test]
fn add_then_remove_deletes_pair_and_deregisters_once() {
    let mut sim = new_sim();
    assert_eq!(run_command(&mut sim, &add_cmd("id_test"), PRIVATE), Ok(()));
    let cmd = Command::Remove {
        file: String::from("id_test"),
    };
    assert_eq!(run_command(&mut sim, &cmd, PRIVATE), Ok(()));
    assert!(!sim.files.contains_key(PRIVATE));
    assert!(!sim.files.contains_key(PUBLIC));
    assert!(sim.registered.is_empty());
    assert_eq!(sim.dereg_calls, 1);
    let again = run_command(&mut sim, &cmd, PRIVATE);
    assert_eq!(again, Err(Error::FileNotFound));
    assert_eq!(sim.dereg_calls, 2);
}

#[test]
fn set_password_ensures_agent_first() {
    let mut sim = new_sim();
    let cmd = Command::SetPassword {
        file: String::from("id_test"),
    };
    assert_eq!(run_command(&mut sim, &cmd, PRIVATE), Ok(()));
    assert_eq!(sim.agent_starts, 1);
}

#[test]
fn failed_step_aborts_the_rest_of_the_run() {
    let cmd = add_cmd("id_test");
    let plan = plan_command(&cmd, PRIVATE);
    let mut session = Session::new(plan.steps.clone());
    assert!(session.next_step().is_some());
    session.record(true);
    assert!(session.next_step().is_some());
    session.record(false);
    assert_eq!(session.next_step(), None);
    assert_eq!(session.next_step(), None);
    assert!(session.aborted());
    assert!(!session.completed());
}

#[test]
fn add_steps_in_order_with_password_flow() {
    let cmd = add_cmd("id_test");
    let steps = cmd.steps();
    let expected = vec![
        Step::CreateWithComment(Target::PrivateScratch),
        Step::LaunchEditor(Target::PrivateScratch),
        Step::CreateWithComment(Target::PublicScratch),
        Step::LaunchEditor(Target::PublicScratch),
        Step::PersistNoClobber(Target::PrivateScratch, Target::Private),
        Step::PersistNoClobber(Target::PublicScratch, Target::Public),
        Step::SetOwnerOnly(Target::Private),
        Step::SetOwnerOnly(Target::Public),
        Step::EnsureAgent,
        Step::RegisterKey,
        Step::SetKeyPassword,
    ];
    assert_eq!(steps, expected);
}

#[test]
fn add_steps_skip_password_when_flagged() {
    let cmd = Command::Add {
        file: String::from("id_test"),
        editor: None,
        no_password: true,
    };
    let steps = cmd.steps();
    assert_eq!(steps.len(), 10);
    assert!(!steps.contains(&Step::SetKeyPassword));
}

#[test]
fn remove_show_set_password_step_sequences() {
    let remove = Command::Remove {
        file: String::from("k"),
    };
    assert_eq!(
        remove.steps(),
        vec![
            Step::EnsureAgent,
            Step::DeregisterKey,
            Step::DeleteFile(Target::Private),
            Step::DeleteFile(Target::Public),
        ]
    );
    let show = Command::Show {
        file: String::from("k"),
    };
    assert_eq!(
        show.steps(),
        vec![Step::EnsureAgent, Step::DerivePublicKey, Step::PrintDerived]
    );
    let set = Command::SetPassword {
        file: String::from("k"),
    };
    assert_eq!(set.steps(), vec![Step::EnsureAgent, Step::SetKeyPassword]);
}

#[test]
fn interface_plan_resolves_bare_name_and_lays_out_steps() {
    let iface = Interface {
        command: Command::Show {
            file: String::from("id_test"),
        },
    };
    let plan = iface
        .plan(false, Some(String::from("/home/u")))
        .expect("plan");
    assert_eq!(plan.private_path, String::from(PRIVATE));
    assert_eq!(plan.public_path, String::from(PUBLIC));
    assert_eq!(
        plan.steps,
        vec![Step::EnsureAgent, Step::DerivePublicKey, Step::PrintDerived]
    );
}

#[test]
fn interface_plan_without_home_is_configuration_error() {
    let iface = Interface {
        command: Command::Remove {
            file: String::from("id_test"),
        },
    };
    match iface.plan(false, None) {
        Err(e) => assert_eq!(e, Error::ConfigurationError),
        Ok(_) => panic!("planning succeeded without a home directory"),
    }
}
