//! Validation rules at their boundaries, resolution of documents into
//! sessions, and the one-shot nature of that resolution.

use splat::create::{CreationError, Field};
use splat::details::{DetailBase, Select, Shape};
use splat::job::{JobBase, JobConfiguration};
use splat::modifiers::{ModifiersBase, ModifiersConfiguration, Output};
use splat::session::{from_path, read_configuration, Session, SessionBase, SessionConfiguration};

fn no_modifiers() -> ModifiersConfiguration {
    ModifiersBase { wrapper: None, stdout: None, stderr: None }
}

fn document(
    select: Select,
    steps: u64,
    parallel: u64,
    values: Vec<Option<u64>>,
) -> SessionConfiguration {
    let jobs: Vec<JobConfiguration> = values
        .into_iter()
        .enumerate()
        .map(|(i, value)| JobBase {
            cmd: format!("echo {i}"),
            value,
            modifiers: no_modifiers(),
        })
        .collect();
    SessionBase {
        details: DetailBase {
            name: "test session".to_string(),
            logging: false,
            modifiers: no_modifiers(),
            shape: Shape { select, steps, parallel },
        },
        jobs,
    }
}

/// A resolved session re-wrapped as a configuration document, every resolved
/// field explicitly present.
fn rewrap(s: &Session) -> SessionConfiguration {
    SessionBase {
        details: DetailBase {
            name: s.details.name.clone(),
            logging: s.details.logging,
            modifiers: ModifiersBase {
                wrapper: s.details.modifiers.wrapper.clone(),
                stdout: Some(s.details.modifiers.stdout.clone()),
                stderr: Some(s.details.modifiers.stderr.clone()),
            },
            shape: s.details.shape,
        },
        jobs: s
            .jobs
            .iter()
            .map(|j| JobBase {
                cmd: j.cmd.clone(),
                value: Some(j.value),
                modifiers: ModifiersBase {
                    wrapper: j.modifiers.wrapper.clone(),
                    stdout: Some(j.modifiers.stdout.clone()),
                    stderr: Some(j.modifiers.stderr.clone()),
                },
            })
            .collect(),
    }
}

#[test]
fn shape_validation_boundaries() {
    let ok = Shape { select: Select::Linear, steps: 10, parallel: 10 };
    assert!(ok.validate().is_ok());
    let zero_steps = Shape { select: Select::Linear, steps: 0, parallel: 1 };
    assert_eq!(zero_steps.validate().unwrap_err(), CreationError::InvalidShape);
    let zero_parallel = Shape { select: Select::Linear, steps: 10, parallel: 0 };
    assert_eq!(zero_parallel.validate().unwrap_err(), CreationError::InvalidShape);
    let too_parallel = Shape { select: Select::Linear, steps: 10, parallel: 11 };
    assert_eq!(too_parallel.validate().unwrap_err(), CreationError::InvalidShape);
}

#[test]
fn random_weight_boundary() {
    let at_limit = document(Select::Random, 10, 2, vec![Some(60), Some(40)]);
    assert!(read_configuration(at_limit).is_ok());
    let over_limit = document(Select::Random, 10, 2, vec![Some(60), Some(41)]);
    assert_eq!(
        read_configuration(over_limit).unwrap_err(),
        CreationError::WeightOrStepBoundViolated
    );
}

#[test]
fn linear_step_boundary() {
    let at_limit = document(Select::Linear, 12, 1, vec![Some(4), Some(8)]);
    assert!(read_configuration(at_limit).is_ok());
    let over_limit = document(Select::Linear, 10, 1, vec![Some(4), Some(8)]);
    assert_eq!(
        read_configuration(over_limit).unwrap_err(),
        CreationError::WeightOrStepBoundViolated
    );
}

#[test]
fn interleave_step_boundary() {
    let at_limit = document(Select::Interleave, 6, 2, vec![Some(2), Some(4)]);
    assert!(read_configuration(at_limit).is_ok());
    let over_limit = document(Select::Interleave, 5, 2, vec![Some(2), Some(4)]);
    assert_eq!(
        read_configuration(over_limit).unwrap_err(),
        CreationError::WeightOrStepBoundViolated
    );
}

#[test]
fn empty_jobs_rejected() {
    let doc = document(Select::Linear, 10, 1, vec![]);
    assert_eq!(read_configuration(doc).unwrap_err(), CreationError::EmptyJobs);
}

#[test]
fn non_ascii_fields_rejected() {
    let mut doc = document(Select::Linear, 10, 1, vec![Some(4)]);
    doc.details.name = "caf\u{e9}".to_string();
    assert_eq!(
        read_configuration(doc).unwrap_err(),
        CreationError::NotAscii(Field::Name)
    );

    let mut doc = document(Select::Linear, 10, 1, vec![Some(4)]);
    doc.details.modifiers.wrapper = Some("\u{e9}chelon".to_string());
    assert_eq!(
        read_configuration(doc).unwrap_err(),
        CreationError::NotAscii(Field::Wrapper)
    );

    let mut doc = document(Select::Linear, 10, 1, vec![Some(4)]);
    doc.jobs[0].modifiers.stderr = Some(Output::File("/tmp/caf\u{e9}".to_string()));
    assert_eq!(
        read_configuration(doc).unwrap_err(),
        CreationError::NotAscii(Field::Stderr)
    );
}

#[test]
fn validation_returns_document_unchanged() {
    let doc = document(Select::Interleave, 6, 2, vec![Some(2), Some(1)]);
    let validated = read_configuration(doc.clone()).unwrap();
    assert_eq!(validated, doc);
}

#[test]
fn missing_value_fails_resolution() {
    for select in [Select::Random, Select::Linear, Select::Interleave] {
        let doc = document(select, 10, 2, vec![Some(2), None]);
        assert_eq!(from_path(doc).unwrap_err(), CreationError::MissingValue);
    }
}

#[test]
fn stdout_inherited_only_when_unset() {
    let mut doc = document(Select::Linear, 10, 1, vec![Some(4), Some(4)]);
    doc.details.modifiers.stdout = Some(Output::File("/tmp/out".to_string()));
    doc.jobs[1].modifiers.stdout = Some(Output::File("/tmp/x".to_string()));
    let session = from_path(doc).unwrap();
    // unset at the job: the session-level default is copied in
    assert_eq!(
        session.jobs[0].modifiers.stdout,
        Output::File("/tmp/out".to_string())
    );
    // set at the job: the override stands
    assert_eq!(
        session.jobs[1].modifiers.stdout,
        Output::File("/tmp/x".to_string())
    );
    // a field nobody set resolves to no capture
    assert_eq!(session.jobs[0].modifiers.stderr, Output::NoCapture);
}

#[test]
fn wrapper_inherited_only_when_unset() {
    let mut doc = document(Select::Linear, 10, 1, vec![Some(4), Some(4)]);
    doc.details.modifiers.wrapper = Some("time".to_string());
    doc.jobs[1].modifiers.wrapper = Some("strace".to_string());
    let session = from_path(doc).unwrap();
    assert_eq!(session.jobs[0].modifiers.wrapper, Some("time".to_string()));
    assert_eq!(session.jobs[1].modifiers.wrapper, Some("strace".to_string()));
}

#[test]
fn resolution_idempotent_on_resolved_input() {
    let mut doc = document(Select::Interleave, 8, 2, vec![Some(2), Some(1)]);
    doc.details.modifiers.wrapper = Some("time".to_string());
    doc.details.modifiers.stdout = Some(Output::File("/tmp/out".to_string()));
    doc.jobs[0].modifiers.stderr = Some(Output::Piped);
    let once = from_path(doc).unwrap();
    let twice = from_path(rewrap(&once)).unwrap();
    assert_eq!(twice, once);
}

#[test]
fn select_names_map_to_strategies() {
    assert_eq!(Select::from_name(&"Random".to_string()), Some(Select::Random));
    assert_eq!(Select::from_name(&"Linear".to_string()), Some(Select::Linear));
    assert_eq!(
        Select::from_name(&"Interleave".to_string()),
        Some(Select::Interleave)
    );
    assert_eq!(Select::from_name(&"Sporadic".to_string()), None);
    assert_eq!(Select::default(), Select::Linear);
}

#[test]
fn output_names_map_to_routings() {
    assert_eq!(Output::from_name(&"terminal".to_string()), Some(Output::Piped));
    assert_eq!(Output::from_name(&"none".to_string()), Some(Output::NoCapture));
    assert_eq!(Output::from_name(&"file".to_string()), None);
    assert_eq!(
        Output::with_path(&"file".to_string(), "/tmp/a".to_string()),
        Some(Output::File("/tmp/a".to_string()))
    );
    assert_eq!(
        Output::with_path(&"both".to_string(), "/tmp/a".to_string()),
        Some(Output::Both("/tmp/a".to_string()))
    );
    assert_eq!(Output::with_path(&"terminal".to_string(), "/tmp/a".to_string()), None);
}
