use vsv::commands::enable_disable::{
    do_disable, do_enable, outcome_color, outcome_text, ControlError, ControlRun, Next, Probed,
    Settled,
};
use vsv::commands::external::{
    do_external, exit_code, exit_color, external_outcome, ExternalCall, ExternalError,
    NO_EXIT_CODE,
};
use vsv::commands::LineColor;
use vsv::config::{Config, ProgramMode};
use vsv::error::ServiceError;
use vsv::service::{Mutation, Probe, Service, ENABLED_TARGET, EXCLUDED_DIR};

fn config(mode: ProgramMode, operands: &[&str]) -> Config {
    Config {
        proc_path: "/proc".to_string(),
        sv_prog: "sv".to_string(),
        pstree_prog: "pstree".to_string(),
        colorize: false,
        svdir: "/var/service".to_string(),
        tree: false,
        log: false,
        verbose: 0,
        operands: operands.iter().map(|o| o.to_string()).collect(),
        mode,
    }
}

fn probe(valid: bool, link: Option<&str>) -> Probe {
    Probe {
        entries: if valid { vec!["supervise".to_string()] } else { Vec::new() },
        status: None,
        link_target: link.map(|l| l.to_string()),
    }
}

/// Runs to the end over a disk that is given as one probe per service and
/// one answer of the filesystem per change; gives the outcomes, the changes
/// asked for, and the result.
fn run(
    first: Next,
    disk: &[(bool, Option<&str>)],
    answers: &[Option<&str>],
) -> (Vec<(String, Result<(), ServiceError>)>, Vec<(String, Mutation)>, Result<(), ControlError>) {
    let mut outcomes = Vec::new();
    let mut changes = Vec::new();
    let mut next = first;
    let mut at = 0;
    let mut answer = 0;
    loop {
        match next {
            Next::Finish(result) => return (outcomes, changes, result),
            Next::Probe { service, run } => {
                let name = service.name.clone();
                let (valid, link) = disk[at];
                at += 1;
                let settled = match run.probed(service, &probe(valid, link)) {
                    Probed::Settled(settled) => settled,
                    Probed::Change { service, change, run } => {
                        changes.push((service.path.clone(), change));
                        let failure = answers[answer].map(|a| a.to_string());
                        answer += 1;
                        run.changed(failure)
                    }
                };
                outcomes.push((name, settled.outcome));
                next = settled.next;
            }
        }
    }
}

#[test]
fn no_operands_is_an_error_at_once() {
    assert_eq!(
        do_enable(&config(ProgramMode::Enable, &[])),
        Next::Finish(Err(ControlError::NoServices))
    );
    assert_eq!(
        do_disable(&config(ProgramMode::Disable, &[])),
        Next::Finish(Err(ControlError::NoServices))
    );
    assert_eq!(ControlError::NoServices.message(), "at least one (1) service required");
    assert_eq!(ControlError::Failed.message(), "failed to modify service(s)");
}

#[test]
fn the_first_step_probes_the_first_operand() {
    let next = do_enable(&config(ProgramMode::Enable, &["web", "db"]));
    assert_eq!(
        next,
        Next::Probe {
            service: Service::new("web", "/var/service/web"),
            run: ControlRun {
                enable: true,
                svdir: "/var/service".to_string(),
                rest: vec!["db".to_string()],
                had_error: false,
            },
        }
    );
}

#[test]
fn enabling_three_services_that_all_work() {
    let first = do_enable(&config(ProgramMode::Enable, &["web", "db", "cron"]));
    let disk = [(true, None), (true, Some(ENABLED_TARGET)), (true, Some(EXCLUDED_DIR))];
    let (outcomes, changes, result) = run(first, &disk, &[None, None]);
    assert_eq!(result, Ok(()));
    assert_eq!(
        outcomes,
        vec![("web".to_string(), Ok(())), ("db".to_string(), Ok(())), ("cron".to_string(), Ok(()))]
    );
    assert_eq!(
        changes,
        vec![
            ("/var/service/web".to_string(), Mutation::Link(ENABLED_TARGET.to_string())),
            ("/var/service/cron".to_string(), Mutation::Link(ENABLED_TARGET.to_string())),
        ]
    );
}

#[test]
fn one_failure_fails_the_run_but_not_the_others() {
    let first = do_enable(&config(ProgramMode::Enable, &["web", "nope", "db", "cron"]));
    let disk = [(true, None), (false, None), (true, None), (true, None)];
    let (outcomes, changes, result) =
        run(first, &disk, &[None, Some("Permission denied (os error 13)"), None]);
    assert_eq!(result, Err(ControlError::Failed));
    assert_eq!(
        outcomes,
        vec![
            ("web".to_string(), Ok(())),
            ("nope".to_string(), Err(ServiceError::InvalidService)),
            (
                "db".to_string(),
                Err(ServiceError::MutationFailed("Permission denied (os error 13)".to_string()))
            ),
            ("cron".to_string(), Ok(())),
        ]
    );
    assert_eq!(changes.len(), 3);
    assert!(changes.iter().all(|(path, _)| path != "/var/service/nope"));
}

#[test]
fn a_failure_of_the_last_service_fails_the_run() {
    let first = do_disable(&config(ProgramMode::Disable, &["web", "db"]));
    let disk = [(true, Some(ENABLED_TARGET)), (false, Some(ENABLED_TARGET))];
    let (outcomes, changes, result) = run(first, &disk, &[None]);
    assert_eq!(result, Err(ControlError::Failed));
    assert_eq!(outcomes[0], ("web".to_string(), Ok(())));
    assert_eq!(outcomes[1], ("db".to_string(), Err(ServiceError::InvalidService)));
    assert_eq!(changes, vec![("/var/service/web".to_string(), Mutation::Unlink)]);
}

#[test]
fn disabling_what_is_disabled_asks_for_no_change() {
    let first = do_disable(&config(ProgramMode::Disable, &["web", "db"]));
    let disk = [(true, None), (true, Some(EXCLUDED_DIR))];
    let (outcomes, changes, result) = run(first, &disk, &[]);
    assert_eq!(result, Ok(()));
    assert_eq!(outcomes.len(), 2);
    assert!(changes.is_empty());
}

#[test]
fn do_enable_enables_whatever_the_mode_is() {
    for mode in [
        ProgramMode::Enable,
        ProgramMode::Disable,
        ProgramMode::Status,
        ProgramMode::External,
    ] {
        // a disabled service is linked
        let first = do_enable(&config(mode, &["web"]));
        let (outcomes, changes, result) = run(first, &[(true, None)], &[None]);
        assert_eq!(result, Ok(()));
        assert_eq!(outcomes, vec![("web".to_string(), Ok(()))]);
        assert_eq!(
            changes,
            vec![("/var/service/web".to_string(), Mutation::Link(ENABLED_TARGET.to_string()))]
        );
        // an enabled service is never unlinked
        let first = do_enable(&config(mode, &["web"]));
        let (_, changes, result) = run(first, &[(true, Some(ENABLED_TARGET))], &[]);
        assert_eq!(result, Ok(()));
        assert!(changes.is_empty());
    }
}

#[test]
fn do_disable_disables_whatever_the_mode_is() {
    for mode in [
        ProgramMode::Enable,
        ProgramMode::Disable,
        ProgramMode::Status,
        ProgramMode::External,
    ] {
        let first = do_disable(&config(mode, &["web"]));
        let (_, changes, result) = run(first, &[(true, Some(ENABLED_TARGET))], &[None]);
        assert_eq!(result, Ok(()));
        assert_eq!(changes, vec![("/var/service/web".to_string(), Mutation::Unlink)]);
        // a disabled service is never linked
        let first = do_disable(&config(mode, &["web"]));
        let (_, changes, result) = run(first, &[(true, None)], &[]);
        assert_eq!(result, Ok(()));
        assert!(changes.is_empty());
    }
}

#[test]
fn no_operands_is_the_same_error_in_every_mode() {
    for mode in [ProgramMode::Status, ProgramMode::External] {
        assert_eq!(do_enable(&config(mode, &[])), Next::Finish(Err(ControlError::NoServices)));
        assert_eq!(do_disable(&config(mode, &[])), Next::Finish(Err(ControlError::NoServices)));
    }
}

#[test]
fn an_operand_that_is_a_path_is_taken_as_it_is() {
    let next = do_enable(&config(ProgramMode::Enable, &["/etc/sv/web"]));
    match next {
        Next::Probe { service, run } => {
            assert_eq!(service.path, "/etc/sv/web");
            assert_eq!(service.name, "/etc/sv/web");
            assert!(run.rest.is_empty());
        }
        other => panic!("unexpected step: {:?}", other),
    }
}

#[test]
fn a_settled_service_shows_done_or_the_failure() {
    assert_eq!(outcome_text(&Ok(())), "done");
    assert_eq!(outcome_text(&Err(ServiceError::InvalidService)), "failed! service not valid");
    assert_eq!(
        outcome_text(&Err(ServiceError::MutationFailed("No such file".to_string()))),
        "failed! No such file"
    );
}

#[test]
fn failures_are_red_and_successes_green() {
    assert_eq!(outcome_color(&Ok(())), LineColor::Green);
    assert_eq!(outcome_color(&Err(ServiceError::InvalidService)), LineColor::Red);
    assert_eq!(outcome_color(&Err(ServiceError::MutationFailed("x".to_string()))), LineColor::Red);
    assert_eq!(exit_color(Some(0)), LineColor::Green);
    assert_eq!(exit_color(Some(1)), LineColor::Red);
    assert_eq!(exit_color(Some(-7)), LineColor::Red);
    assert_eq!(exit_color(None), LineColor::Red);
}

#[test]
fn changed_settles_with_what_the_filesystem_said() {
    let run = ControlRun {
        enable: true,
        svdir: "/sv".to_string(),
        rest: Vec::new(),
        had_error: false,
    };
    assert_eq!(
        run.changed(Some("busy".to_string())),
        Settled {
            outcome: Err(ServiceError::MutationFailed("busy".to_string())),
            next: Next::Finish(Err(ControlError::Failed)),
        }
    );
    let run = ControlRun {
        enable: true,
        svdir: "/sv".to_string(),
        rest: Vec::new(),
        had_error: true,
    };
    assert_eq!(
        run.changed(None),
        Settled { outcome: Ok(()), next: Next::Finish(Err(ControlError::Failed)) }
    );
}

#[test]
fn an_unknown_subcommand_goes_to_the_control_program() {
    let cfg = config(ProgramMode::External, &["restart", "web", "db"]);
    assert_eq!(
        do_external(&cfg),
        Ok(ExternalCall {
            program: "sv".to_string(),
            args: vec!["restart".to_string(), "web".to_string(), "db".to_string()],
            args_line: "restart web db".to_string(),
        })
    );
}

#[test]
fn a_subcommand_without_argument_is_refused() {
    let cfg = config(ProgramMode::External, &["restart"]);
    let e = do_external(&cfg).unwrap_err();
    assert_eq!(
        e,
        ExternalError::ArgumentExpected {
            program: "sv".to_string(),
            command: "restart".to_string()
        }
    );
    assert_eq!(e.message(), "argument expected for 'sv restart'");
}

#[test]
fn only_exit_code_zero_is_success() {
    assert_eq!(exit_code(Some(0)), 0);
    assert_eq!(exit_code(Some(3)), 3);
    assert_eq!(exit_code(None), -1);
    assert_eq!(NO_EXIT_CODE, -1);
    assert_eq!(external_outcome("sv", Some(0)), Ok(()));
    for code in [Some(1), Some(-1), Some(255), None] {
        let e = external_outcome("sv", code).unwrap_err();
        assert_eq!(e, ExternalError::CallFailed { program: "sv".to_string() });
        assert_eq!(e.message(), "call to sv failed");
    }
}
