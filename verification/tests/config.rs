use procband::config::Config;

#[test]
fn trims_service_name_and_command() {
    let input = "  gateway  :  npm run gateway  ";

    let config = Config::from_str(input).unwrap();

    assert_eq!(config.services[0].name, "gateway");
    assert_eq!(config.services[0].command, "npm run gateway");
}

#[test]
fn rejects_empty_service_name() {
    let input = ": npm run gateway";

    assert!(Config::from_str(input).is_err());
}

#[test]
fn rejects_empty_command() {
    let input = "gateway:";

    assert!(Config::from_str(input).is_err());
}

#[test]
fn rejects_procfile_with_no_services() {
    let input = r#"
        # only comments

        # gateway
    "#;

    assert!(Config::from_str(input).is_err());
}

#[test]
fn supports_multiple_services() {
    let input = r#"
        api: cargo run --bin api
        frontend: npm run dev
        database: docker compose up db
    "#;

    let config = Config::from_str(input).unwrap();

    assert_eq!(config.services.len(), 3);
    assert_eq!(config.services[1].name, "frontend");
}

#[test]
fn only_first_colon_separates_name_and_command() {
    let config = Config::from_str("order1: npm run start:order:1").unwrap();

    assert_eq!(config.services.len(), 1);
    assert_eq!(config.services[0].name, "order1");
    assert_eq!(config.services[0].command, "npm run start:order:1");
}

#[test]
fn skips_comments_and_blank_lines() {
    let input = "# Backend services\n\ngateway: npm run gateway\nauth: npm run auth\n\n# Data services\nusers: npm run users\n";

    let config = Config::from_str(input).unwrap();

    let names: Vec<&str> = config.services.iter().map(|s| s.name.as_str()).collect();
    assert_eq!(names, vec!["gateway", "auth", "users"]);
}

#[test]
fn handles_crlf_line_endings() {
    let config = Config::from_str("a: run a\r\nb: run b\r\n").unwrap();

    assert_eq!(config.services.len(), 2);
    assert_eq!(config.services[0].command, "run a");
    assert_eq!(config.services[1].name, "b");
    assert_eq!(config.services[1].command, "run b");
}

#[test]
fn reports_line_without_separator() {
    let err = Config::from_str("# header\n\napi cargo run\n").unwrap_err();

    assert_eq!(err, "Invalid configuration on line 3");
}

#[test]
fn reports_empty_name_with_line_number() {
    let err = Config::from_str("a: b\n  : npm run gateway").unwrap_err();

    assert_eq!(err, "Empty service name on line 2");
}

#[test]
fn reports_empty_command_with_name_and_line_number() {
    let mut input = String::new();
    for i in 0..11 {
        input.push_str(&format!("s{i}: run {i}\n"));
    }
    input.push_str("gateway:   \n");

    let err = Config::from_str(&input).unwrap_err();

    assert_eq!(err, "Empty command for service 'gateway' on line 12");
}

#[test]
fn reports_no_services_message() {
    assert_eq!(Config::from_str("").unwrap_err(), "No services found");
    assert_eq!(Config::from_str("\n \n# x\n").unwrap_err(), "No services found");
}

#[test]
fn first_rejected_line_decides_the_error() {
    let err = Config::from_str("a b\n: c\n").unwrap_err();

    assert_eq!(err, "Invalid configuration on line 1");
}

#[test]
fn trims_unicode_whitespace() {
    let config = Config::from_str("\u{3000}web\u{a0}:\u{2003}serve\u{85}").unwrap();

    assert_eq!(config.services[0].name, "web");
    assert_eq!(config.services[0].command, "serve");
}

#[test]
fn comment_and_blank_lines_anywhere_leave_services_unchanged() {
    let plain = Config::from_str("api: cargo run\nweb: npm run dev").unwrap();
    let commented = Config::from_str("# start\napi: cargo run\n\n   \n# between\nweb: npm run dev\n# end\n").unwrap();

    assert_eq!(plain.services.len(), commented.services.len());
    for (a, b) in plain.services.iter().zip(commented.services.iter()) {
        assert_eq!(a.name, b.name);
        assert_eq!(a.command, b.command);
    }
}
