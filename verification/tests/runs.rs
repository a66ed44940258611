use std::sync::Arc;

use monitor_bootstrap::error::ErrorKind;
use monitor_bootstrap::error::Outcome;
use monitor_bootstrap::error::StartupError;
use monitor_bootstrap::orchestrator::Action;
use monitor_bootstrap::orchestrator::Event;
use monitor_bootstrap::orchestrator::Orchestrator;
use monitor_bootstrap::run::Script;

type World = Script<String, u32, String>;
type Step = Action<String, u32, String>;
type Answer = Event<String, u32, String>;

fn answer(world: &World, action: &Step) -> Option<Answer> {
    match action {
        Action::SetUpLogger => Some(match &world.logger {
            Ok(()) => Event::LoggerInstalled,
            Err(cause) => Event::LoggerFailed(cause.clone()),
        }),
        Action::ReportWarning(_) => Some(Event::WarningReported),
        Action::ReadConfig => Some(match &world.read {
            Ok(text) => Event::ConfigRead(text.clone()),
            Err(cause) => Event::ConfigReadFailed(cause.clone()),
        }),
        Action::ParseConfig(_) => Some(match &world.parse {
            Ok(config) => Event::ConfigParsed(config.clone()),
            Err(cause) => Event::ConfigParseFailed(cause.clone()),
        }),
        Action::OpenTransport => Some(match &world.open {
            Ok(session) => Event::TransportOpened(*session),
            Err(cause) => Event::TransportFailed(cause.clone()),
        }),
        Action::Launch { .. } => Some(match &world.monitor {
            Ok(()) => Event::MonitoringFinished,
            Err(cause) => Event::MonitoringFailed(cause.clone()),
        }),
        Action::Exit(_) => None,
    }
}

fn drive(world: &World) -> Vec<Step> {
    let (mut machine, first): (Orchestrator<String, u32, String>, Step) = Orchestrator::begin();
    let mut performed = Vec::new();
    let mut action = first;
    loop {
        let event = answer(world, &action);
        performed.push(action);
        match event {
            None => break,
            Some(event) => action = machine.step(event).expect("the answer fits the action"),
        }
        assert!(performed.len() <= 7);
    }
    assert!(machine.is_finished());
    performed
}

fn world(logger: bool, read: bool, parse: bool, open: bool, monitor: bool) -> World {
    Script {
        logger: if logger { Ok(()) } else { Err("no log".to_string()) },
        read: if read { Ok("text".to_string()) } else { Err("no file".to_string()) },
        parse: if parse { Ok("config".to_string()) } else { Err("no sense".to_string()) },
        open: if open { Ok(9) } else { Err("no bus".to_string()) },
        monitor: if monitor { Ok(()) } else { Err("no luck".to_string()) },
    }
}

fn failed(kind: ErrorKind, cause: &str) -> Outcome<String> {
    Outcome::Failed(StartupError { kind, cause: cause.to_string() })
}

fn expected_outcome(read: bool, parse: bool, open: bool, monitor: bool) -> Outcome<String> {
    if !read {
        failed(ErrorKind::ConfigRead, "no file")
    } else if !parse {
        failed(ErrorKind::ConfigParse, "no sense")
    } else if !open {
        failed(ErrorKind::TransportOpen, "no bus")
    } else if !monitor {
        failed(ErrorKind::MonitoringSubsystem, "no luck")
    } else {
        Outcome::Success
    }
}

fn each_world(mut visit: impl FnMut(bool, bool, bool, bool, bool)) {
    for bits in 0u8..32 {
        visit(bits & 1 != 0, bits & 2 != 0, bits & 4 != 0, bits & 8 != 0, bits & 16 != 0);
    }
}

#[test]
fn all_green_run_has_six_actions_in_order() {
    assert_eq!(
        drive(&world(true, true, true, true, true)),
        vec![
            Action::SetUpLogger,
            Action::ReadConfig,
            Action::ParseConfig("text".to_string()),
            Action::OpenTransport,
            Action::Launch { config: "config".to_string(), session: Arc::new(9), prefix: "anna" },
            Action::Exit(Outcome::Success),
        ]
    );
}

#[test]
fn worst_case_run_has_seven_actions() {
    assert_eq!(
        drive(&world(false, true, true, true, false)),
        vec![
            Action::SetUpLogger,
            Action::ReportWarning(StartupError {
                kind: ErrorKind::LoggingSetup,
                cause: "no log".to_string(),
            }),
            Action::ReadConfig,
            Action::ParseConfig("text".to_string()),
            Action::OpenTransport,
            Action::Launch { config: "config".to_string(), session: Arc::new(9), prefix: "anna" },
            Action::Exit(failed(ErrorKind::MonitoringSubsystem, "no luck")),
        ]
    );
}

#[test]
fn every_run_ends_with_the_first_failure() {
    each_world(|logger, read, parse, open, monitor| {
        let performed = drive(&world(logger, read, parse, open, monitor));
        let exits = performed.iter().filter(|a| matches!(a, Action::Exit(_))).count();
        assert_eq!(exits, 1);
        assert_eq!(
            performed.last(),
            Some(&Action::Exit(expected_outcome(read, parse, open, monitor)))
        );
    });
}

#[test]
fn logger_failure_only_adds_the_report() {
    each_world(|_, read, parse, open, monitor| {
        let calm = drive(&world(true, read, parse, open, monitor));
        let mut troubled = drive(&world(false, read, parse, open, monitor));
        let report = troubled.remove(1);
        assert_eq!(
            report,
            Action::ReportWarning(StartupError {
                kind: ErrorKind::LoggingSetup,
                cause: "no log".to_string(),
            })
        );
        assert_eq!(troubled, calm);
        match (calm.last(), troubled.last()) {
            (Some(Action::Exit(a)), Some(Action::Exit(b))) => {
                assert_eq!(a.exit_code(), b.exit_code())
            }
            _ => panic!("a run did not end with an exit"),
        }
    });
}

#[test]
fn launch_happens_once_or_never() {
    each_world(|logger, read, parse, open, monitor| {
        let performed = drive(&world(logger, read, parse, open, monitor));
        let launches: Vec<&Step> =
            performed.iter().filter(|a| matches!(a, Action::Launch { .. })).collect();
        if read && parse && open {
            assert_eq!(
                launches,
                vec![&Action::Launch { config: "config".to_string(), session: Arc::new(9), prefix: "anna" }]
            );
        } else {
            assert!(launches.is_empty());
        }
    });
}

#[test]
fn stage_is_tried_only_after_its_predecessors() {
    each_world(|logger, read, parse, open, monitor| {
        let performed = drive(&world(logger, read, parse, open, monitor));
        assert_eq!(performed[0], Action::SetUpLogger);
        assert!(performed.contains(&Action::ReadConfig));
        assert_eq!(
            performed.iter().any(|a| matches!(a, Action::ReportWarning(_))),
            !logger
        );
        assert_eq!(performed.iter().any(|a| matches!(a, Action::ParseConfig(_))), read);
        assert_eq!(performed.contains(&Action::OpenTransport), read && parse);
        assert_eq!(
            performed.iter().any(|a| matches!(a, Action::Launch { .. })),
            read && parse && open
        );
    });
}

#[test]
fn config_failure_mentions_one_context_never_both() {
    each_world(|logger, read, parse, open, monitor| {
        if read && parse {
            return;
        }
        let performed = drive(&world(logger, read, parse, open, monitor));
        match performed.last() {
            Some(Action::Exit(Outcome::Failed(error))) => {
                let context = error.kind.context();
                if read {
                    assert_eq!(context, Some("failed to parse config file"));
                    assert_eq!(error.cause, "no sense");
                } else {
                    assert_eq!(context, Some("failed to read config file"));
                    assert_eq!(error.cause, "no file");
                }
            }
            other => panic!("expected a failure, got {:?}", other),
        }
    });
}
