use vsv::error::ServiceError;
use vsv::process::{ProcEntry, ProcessInfo};
use vsv::config::{Config, ProgramMode};
use vsv::scan::{
    discover, log_service_of, passes_filter, report, scan, targets, DirEntry, Observation,
    ServiceReport, LOG_ENTRY, PLACEHOLDER,
};
use vsv::service::{Probe, Service, ENABLED_TARGET, EXCLUDED_DIR};
use vsv::status::{RunState, StatusSnapshot, Want};

fn record(state: u8, pid: u32, want: Want) -> Vec<u8> {
    StatusSnapshot {
        seconds: 5_000,
        nanoseconds: 0,
        pid,
        paused: false,
        want,
        term_flag: false,
        run_flag: state,
    }
    .encode()
}

fn seen(name: &str, valid: bool, status: Option<Vec<u8>>, link: Option<&str>) -> Observation {
    Observation {
        service: Service::locate("/var/service", name),
        probe: Probe {
            entries: if valid {
                vec!["run".to_string(), "supervise".to_string()]
            } else {
                vec!["run".to_string()]
            },
            status,
            link_target: link.map(|l| l.to_string()),
        },
        process: None,
    }
}

fn with_process(mut o: Observation, cmdline: &[u8], modified: u64) -> Observation {
    o.process = Some(ProcEntry { cmdline: cmdline.to_vec(), modified });
    o
}

fn names(reports: &[ServiceReport]) -> Vec<&str> {
    reports.iter().map(|r| r.name.as_str()).collect()
}

#[test]
fn discover_keeps_the_directories() {
    let entries = vec![
        DirEntry { name: "web".to_string(), is_dir: true },
        DirEntry { name: "README".to_string(), is_dir: false },
        DirEntry { name: "db".to_string(), is_dir: true },
        DirEntry { name: "notes.txt".to_string(), is_dir: false },
    ];
    assert_eq!(
        discover("/var/service", &entries),
        vec![Service::new("web", "/var/service/web"), Service::new("db", "/var/service/db")]
    );
    assert_eq!(discover("/var/service", &Vec::new()), Vec::<Service>::new());
}

#[test]
fn web_runs_but_its_process_is_gone() {
    let o = seen("web", true, Some(record(1, 1234, Want::Up)), Some(ENABLED_TARGET));
    let r = report(&o);
    assert_eq!(r.name, "web");
    assert!(r.valid);
    assert_eq!(r.state(), RunState::Run);
    assert_eq!(r.pid(), Some(1234));
    assert_eq!(r.snapshot.unwrap().want, Want::Up);
    assert_eq!(r.command_text(), "---");
    assert_eq!(r.process, None);
    assert_eq!(r.error, Some(ServiceError::ProcessNotFound));

    let result = scan(&vec![o]);
    assert_eq!(result.reports.len(), 1);
    assert_eq!(result.reports[0], r);
    assert!(result.had_errors);
}

#[test]
fn a_running_service_shows_its_command() {
    let o = with_process(
        seen("web", true, Some(record(1, 1234, Want::Up)), Some(ENABLED_TARGET)),
        b"nginx\0-g\0daemon off;\0",
        4_900,
    );
    let r = report(&o);
    assert_eq!(r.command_text(), "nginx");
    assert_eq!(
        r.process,
        Some(ProcessInfo { pid: 1234, command: b"nginx".to_vec(), start_time: 4_900 })
    );
    assert_eq!(r.error, None);
    assert!(r.enabled);
    assert_eq!(r.uptime(5_060), Some(60));
    assert_eq!(r.uptime(4_999), None);
}

#[test]
fn a_command_that_is_no_text_is_shown_with_replacements() {
    let o = with_process(
        seen("odd", true, Some(record(1, 7, Want::Up)), None),
        b"ng\xffinx\0",
        1,
    );
    assert_eq!(report(&o).command_text(), "ng\u{fffd}inx");
}

#[test]
fn a_down_service_has_no_process_and_no_error() {
    let o = with_process(seen("db", true, Some(record(0, 0, Want::Down)), None), b"stale\0", 1);
    let r = report(&o);
    assert_eq!(r.state(), RunState::Down);
    assert_eq!(r.pid(), None);
    assert_eq!(r.process, None);
    assert_eq!(r.command_text(), PLACEHOLDER);
    assert_eq!(r.error, None);
    assert!(!r.enabled);
}

#[test]
fn an_invalid_directory_is_flagged_and_left_alone() {
    let o = with_process(
        seen("tmp", false, Some(record(1, 9, Want::Up)), Some(ENABLED_TARGET)),
        b"x\0",
        1,
    );
    let r = report(&o);
    assert!(!r.valid);
    assert_eq!(r.snapshot, None);
    assert_eq!(r.state(), RunState::Unknown);
    assert_eq!(r.pid(), None);
    assert_eq!(r.process, None);
    assert_eq!(r.uptime(9_000), None);
    assert_eq!(r.error, Some(ServiceError::InvalidService));
}

#[test]
fn a_malformed_record_degrades_to_unknown() {
    for status in [None, Some(vec![0u8; 3]), Some(vec![0u8; 21])] {
        let r = report(&seen("web", true, status, None));
        assert!(r.valid);
        assert_eq!(r.state(), RunState::Unknown);
        assert_eq!(r.error, Some(ServiceError::MalformedRecord));
    }
}

#[test]
fn reports_come_sorted_by_name() {
    let all = vec![
        seen("web", true, Some(record(1, 0, Want::Up)), None),
        seen("db", true, Some(record(0, 0, Want::Down)), None),
        seen("zeta", true, Some(record(2, 0, Want::Down)), None),
        seen("cron", true, Some(record(0, 0, Want::Down)), None),
        seen("Web", true, Some(record(0, 0, Want::Down)), None),
        seen("web-log", true, Some(record(0, 0, Want::Down)), None),
    ];
    let result = scan(&all);
    assert_eq!(names(&result.reports), vec!["Web", "cron", "db", "web", "web-log", "zeta"]);
    let mut expected: Vec<ServiceReport> = all.iter().map(report).collect();
    expected.sort_by(|a, b| a.name.cmp(&b.name));
    assert_eq!(result.reports, expected);
    assert!(!result.had_errors);
}

#[test]
fn the_order_does_not_depend_on_the_order_of_arrival() {
    let a = seen("a", true, Some(record(1, 0, Want::Up)), None);
    let b = seen("b", false, None, None);
    let c = seen("c", true, Some(record(0, 0, Want::Down)), None);
    let one = scan(&vec![a.clone(), b.clone(), c.clone()]);
    let two = scan(&vec![c.clone(), a.clone(), b.clone()]);
    let three = scan(&vec![b, c, a]);
    assert_eq!(one, two);
    assert_eq!(one, three);
    assert_eq!(names(&one.reports), vec!["a", "b", "c"]);
}

#[test]
fn reports_of_one_name_keep_their_order() {
    let first = seen("web", true, Some(record(1, 0, Want::Up)), None);
    let second = seen("web", true, Some(record(0, 0, Want::Down)), None);
    let result = scan(&vec![first, second]);
    assert_eq!(result.reports[0].state(), RunState::Run);
    assert_eq!(result.reports[1].state(), RunState::Down);
}

#[test]
fn four_directories_two_of_them_invalid() {
    let all = vec![
        seen("web", true, Some(record(1, 0, Want::Up)), None),
        seen("lost+found", false, None, None),
        seen("db", true, Some(record(0, 0, Want::Down)), None),
        seen("tmp", false, Some(record(1, 0, Want::Up)), None),
    ];
    let result = scan(&all);
    assert_eq!(result.reports.len(), 4);
    assert_eq!(result.reports.iter().filter(|r| !r.valid).count(), 2);
    assert!(result.had_errors);
    let by_name = |n: &str| result.reports.iter().find(|r| r.name == n).unwrap();
    assert_eq!(by_name("web").state(), RunState::Run);
    assert_eq!(by_name("db").state(), RunState::Down);
    assert!(by_name("web").valid && by_name("db").valid);
    assert_eq!(by_name("web").error, None);
    assert_eq!(by_name("tmp").error, Some(ServiceError::InvalidService));
    assert_eq!(by_name("lost+found").error, Some(ServiceError::InvalidService));
}

#[test]
fn a_malformed_record_leaves_the_other_services_as_they_are() {
    let web = seen("web", true, Some(record(1, 0, Want::Up)), Some(ENABLED_TARGET));
    let db = seen("db", true, Some(record(0, 0, Want::Down)), None);
    let alone = scan(&vec![web.clone(), db.clone()]);
    for broken in [Some(vec![0u8; 19]), Some(vec![0u8; 21]), None] {
        let bad = seen("cron", true, broken, None);
        let result = scan(&vec![web.clone(), bad, db.clone()]);
        assert_eq!(result.reports.len(), 3);
        assert!(result.had_errors);
        assert_eq!(result.reports[0].error, Some(ServiceError::MalformedRecord));
        assert_eq!(result.reports[1], alone.reports[0]);
        assert_eq!(result.reports[2], alone.reports[1]);
    }
    assert!(!alone.had_errors);
}

#[test]
fn a_disabled_service_reports_disabled_in_every_state() {
    let web = Service::new("web", "/var/service/web");
    for state in [0u8, 1, 2, 77] {
        for before in [Some(ENABLED_TARGET), Some("/other"), None, Some(EXCLUDED_DIR)] {
            let mut o = seen("web", true, Some(record(state, 0, Want::Up)), before);
            let change = web.disable(&o.probe).unwrap();
            o.probe.link_target = match change {
                vsv::service::Mutation::Keep => o.probe.link_target.clone(),
                vsv::service::Mutation::Link(t) => Some(t),
                vsv::service::Mutation::Unlink => None,
            };
            let r = report(&o);
            assert!(!r.enabled);
            assert_eq!(r.state(), StatusSnapshot { run_flag: state, ..r.snapshot.unwrap() }.state());
        }
    }
}

#[test]
fn enabled_and_state_are_independent() {
    let down_enabled = report(&seen("a", true, Some(record(0, 0, Want::Down)), Some(ENABLED_TARGET)));
    assert_eq!(down_enabled.state(), RunState::Down);
    assert!(down_enabled.enabled);
    let run_disabled = report(&seen("b", true, Some(record(1, 0, Want::Up)), None));
    assert_eq!(run_disabled.state(), RunState::Run);
    assert!(!run_disabled.enabled);
}

#[test]
fn an_empty_scan_has_no_errors() {
    let result = scan(&Vec::new());
    assert!(result.reports.is_empty());
    assert!(!result.had_errors);
}

fn status_config(operands: &[&str], log: bool) -> Config {
    Config {
        proc_path: "/proc".to_string(),
        sv_prog: "sv".to_string(),
        pstree_prog: "pstree".to_string(),
        colorize: false,
        svdir: "/var/service".to_string(),
        tree: false,
        log,
        verbose: 0,
        operands: operands.iter().map(|o| o.to_string()).collect(),
        mode: ProgramMode::Status,
    }
}

fn root_entries() -> Vec<DirEntry> {
    vec![
        DirEntry { name: "nginx".to_string(), is_dir: true },
        DirEntry { name: "README".to_string(), is_dir: false },
        DirEntry { name: "sshd".to_string(), is_dir: true },
        DirEntry { name: "nginx-old".to_string(), is_dir: true },
        DirEntry { name: "nginx.conf".to_string(), is_dir: false },
    ]
}

fn target_names(cfg: &Config) -> Vec<String> {
    targets(cfg, &root_entries()).into_iter().map(|s| s.name).collect()
}

#[test]
fn without_options_the_targets_are_the_directories() {
    let cfg = status_config(&[], false);
    assert_eq!(targets(&cfg, &root_entries()), discover("/var/service", &root_entries()));
    assert_eq!(target_names(&cfg), vec!["nginx", "sshd", "nginx-old"]);
}

#[test]
fn operands_filter_the_services_by_name() {
    assert_eq!(target_names(&status_config(&["nginx"], false)), vec!["nginx", "nginx-old"]);
    assert_eq!(target_names(&status_config(&["ssh"], false)), vec!["sshd"]);
    assert_eq!(target_names(&status_config(&["old", "ssh"], false)), vec!["sshd", "nginx-old"]);
    assert_eq!(target_names(&status_config(&["none"], false)), Vec::<String>::new());
    assert_eq!(target_names(&status_config(&["conf"], false)), Vec::<String>::new());
    assert!(passes_filter("web", &Vec::new()));
    assert!(passes_filter("web", &vec!["x".to_string(), "e".to_string()]));
    assert!(!passes_filter("web", &vec!["x".to_string(), "Web".to_string()]));
}

#[test]
fn log_services_follow_their_services() {
    assert_eq!(LOG_ENTRY, "log");
    let nginx = vsv::service::Service::new("nginx", "/var/service/nginx");
    assert_eq!(
        log_service_of(&nginx),
        vsv::service::Service::new("nginx/log", "/var/service/nginx/log")
    );
    assert_eq!(
        target_names(&status_config(&[], true)),
        vec!["nginx", "nginx/log", "sshd", "sshd/log", "nginx-old", "nginx-old/log"]
    );
    assert_eq!(target_names(&status_config(&["ssh"], true)), vec!["sshd", "sshd/log"]);
    let all = targets(&status_config(&["ssh"], true), &root_entries());
    assert_eq!(all[1].path, "/var/service/sshd/log");
}
