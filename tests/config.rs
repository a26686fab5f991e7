use detector_gateway::config::{
    validate_registered_detectors, validation_report, ConfigIssue, DetectorConfig, GatewayConfig,
    OrchestratorConfig, RouteConfig,
};

fn detector(name: &str, server: Option<&str>, input: bool, output: bool) -> DetectorConfig {
    DetectorConfig {
        name: name.to_string(),
        server: server.map(|s| s.to_string()),
        input,
        output,
        detector_params: None,
    }
}

fn route(name: &str, detectors: &[&str]) -> RouteConfig {
    RouteConfig {
        name: name.to_string(),
        detectors: detectors.iter().map(|d| d.to_string()).collect(),
        fallback_message: None,
    }
}

fn config(detectors: Vec<DetectorConfig>, routes: Vec<RouteConfig>) -> GatewayConfig {
    GatewayConfig {
        orchestrator: OrchestratorConfig {
            host: "localhost".to_string(),
            port: Some(1234),
        },
        detectors,
        routes,
    }
}

#[test]
fn test_validate_registered_detectors() {
    let gc = GatewayConfig {
        orchestrator: OrchestratorConfig {
            host: "localhost".to_string(),
            port: Some(1234),
        },
        detectors: vec![DetectorConfig {
            name: "regex".to_string(),
            server: None,
            input: false,
            output: false,
            detector_params: None,
        }],
        routes: vec![RouteConfig {
            name: "route1".to_string(),
            detectors: vec!["regex".to_string(), "not_existent_detector".to_string()],
            fallback_message: None,
        }],
    };

    let issues = validate_registered_detectors(&gc).unwrap_err();
    assert_eq!(issues.len(), 1);
    assert!(matches!(
        &issues[0],
        ConfigIssue::UnknownDetector { route, detector }
            if route == "route1" && detector == "not_existent_detector"
    ));
}

#[test]
fn test_validate_multiple_same_server_input_detectors() {
    let gc = GatewayConfig {
        orchestrator: OrchestratorConfig {
            host: "localhost".to_string(),
            port: Some(1234),
        },
        detectors: vec![
            DetectorConfig {
                name: "regex-1".to_string(),
                server: Some("server-a".to_string()),
                input: true,
                output: false,
                detector_params: None,
            },
            DetectorConfig {
                name: "regex-2".to_string(),
                server: Some("server-a".to_string()),
                input: true,
                output: false,
                detector_params: None,
            },
        ],
        routes: vec![RouteConfig {
            name: "route1".to_string(),
            detectors: vec!["regex-1".to_string(), "regex-2".to_string()],
            fallback_message: None,
        }],
    };

    let issues = validate_registered_detectors(&gc).unwrap_err();
    assert_eq!(issues.len(), 1);
    assert!(matches!(
        &issues[0],
        ConfigIssue::DuplicateInputServer { route, server }
            if route == "route1" && server == "server-a"
    ));
}

#[test]
fn test_validate_multiple_same_server_output_detectors() {
    let gc = GatewayConfig {
        orchestrator: OrchestratorConfig {
            host: "localhost".to_string(),
            port: Some(1234),
        },
        detectors: vec![
            DetectorConfig {
                name: "regex-1".to_string(),
                server: Some("server-a".to_string()),
                input: false,
                output: true,
                detector_params: None,
            },
            DetectorConfig {
                name: "regex-2".to_string(),
                server: Some("server-a".to_string()),
                input: false,
                output: true,
                detector_params: None,
            },
        ],
        routes: vec![RouteConfig {
            name: "route1".to_string(),
            detectors: vec!["regex-1".to_string(), "regex-2".to_string()],
            fallback_message: None,
        }],
    };

    let issues = validate_registered_detectors(&gc).unwrap_err();
    assert_eq!(issues.len(), 1);
    assert!(matches!(
        &issues[0],
        ConfigIssue::DuplicateOutputServer { route, server }
            if route == "route1" && server == "server-a"
    ));
}

#[test]
fn test_validate_multiple_same_server_detectors() {
    let gc = GatewayConfig {
        orchestrator: OrchestratorConfig {
            host: "localhost".to_string(),
            port: Some(1234),
        },
        detectors: vec![
            DetectorConfig {
                name: "regex-1".to_string(),
                server: Some("server-a".to_string()),
                input: true,
                output: false,
                detector_params: None,
            },
            DetectorConfig {
                name: "regex-2".to_string(),
                server: Some("server-a".to_string()),
                input: false,
                output: true,
                detector_params: None,
            },
        ],
        routes: vec![RouteConfig {
            name: "route1".to_string(),
            detectors: vec!["regex-1".to_string(), "regex-2".to_string()],
            fallback_message: None,
        }],
    };

    assert!(validate_registered_detectors(&gc).is_ok());
}

#[test]
fn default_orchestrator_is_local() {
    let o = OrchestratorConfig::default();
    assert_eq!(o.host, "localhost");
    assert_eq!(o.port, Some(8032));
}

#[test]
fn server_defaults_to_name() {
    let d = detector("regex", None, true, false).with_server_default();
    assert_eq!(d.server.as_deref(), Some("regex"));
    let e = detector("regex", Some("server-a"), true, false).with_server_default();
    assert_eq!(e.server.as_deref(), Some("server-a"));
}

#[test]
fn server_defaults_for_whole_config() {
    let gc = config(
        vec![
            detector("a", None, true, false),
            detector("b", Some("s"), false, true),
        ],
        vec![route("r", &["a", "b"])],
    )
    .with_server_defaults();
    assert_eq!(gc.detectors.len(), 2);
    assert_eq!(gc.detectors[0].server.as_deref(), Some("a"));
    assert_eq!(gc.detectors[1].server.as_deref(), Some("s"));
    assert_eq!(gc.routes[0].name, "r");
}

#[test]
fn same_server_key_through_default_clashes() {
    // "a" has no server, so its key is its name, which "b" uses as server.
    let gc = config(
        vec![
            detector("a", None, true, false),
            detector("b", Some("a"), true, false),
        ],
        vec![route("r", &["a", "b"])],
    );
    let issues = validate_registered_detectors(&gc).unwrap_err();
    assert_eq!(issues.len(), 1);
    assert!(matches!(
        &issues[0],
        ConfigIssue::DuplicateInputServer { server, .. } if server == "a"
    ));
}

#[test]
fn detectors_outside_the_route_do_not_clash() {
    let gc = config(
        vec![
            detector("a", Some("s"), true, false),
            detector("b", Some("s"), true, false),
        ],
        vec![route("r1", &["a"]), route("r2", &["b"])],
    );
    assert!(validate_registered_detectors(&gc).is_ok());
}

#[test]
fn every_issue_of_every_route_is_reported() {
    let gc = config(
        vec![
            detector("a", Some("s"), true, true),
            detector("b", Some("s"), true, true),
        ],
        vec![route("r1", &["a", "b", "missing"]), route("r2", &["gone"])],
    );
    let issues = validate_registered_detectors(&gc).unwrap_err();
    let lines: Vec<String> = issues.iter().map(|i| i.describe()).collect();
    assert!(lines.contains(&"- could not find detector 'missing' in route 'r1'".to_string()));
    assert!(lines.contains(&"- could not find detector 'gone' in route 'r2'".to_string()));
    assert!(lines.contains(
        &"- route 'r1' contains more than one input detector with server 's'".to_string()
    ));
    assert!(lines.contains(
        &"- route 'r1' contains more than one output detector with server 's'".to_string()
    ));
    assert_eq!(lines.len(), 4);
}

#[test]
fn empty_config_is_valid() {
    let gc = config(vec![], vec![]);
    assert!(validate_registered_detectors(&gc).is_ok());
}

#[test]
fn report_lists_each_issue_on_its_own_line() {
    let issues = vec![
        ConfigIssue::UnknownDetector {
            route: "r".to_string(),
            detector: "d".to_string(),
        },
        ConfigIssue::DuplicateOutputServer {
            route: "r".to_string(),
            server: "s".to_string(),
        },
    ];
    assert_eq!(
        validation_report(&issues),
        "Config validation failed:\n- could not find detector 'd' in route 'r'\n- route 'r' contains more than one output detector with server 's'"
    );
}
