use geph_tui::ctl::{
    account_lines, exit_tier, exits_order, fmt_constraint, last_lines, log_count, parse_cli,
    redeem_code_arg, redeem_lines, sessions_lines, start_plan, status_lines, switch_message,
    switch_target, AccountSnapshot, CliMode, ConnSummary, CtlCommand, ExitConstraint, ExitRow,
    ReportLine, SessionSummary, SessionsReport, StartPlan,
};
use geph_tui::locale::{is_chinese_locale, news_language, news_language_for};
use geph_tui::state::{AccountLevel, TuiPrefs};

fn args(v: &[&str]) -> Vec<String> {
    v.iter().map(|s| s.to_string()).collect()
}

fn texts(lines: &[ReportLine]) -> Vec<String> {
    lines
        .iter()
        .map(|l| match l {
            ReportLine::Text(t) => t.clone(),
            ReportLine::PlusDaysLeft { expires_unix, remaining_secs } => {
                format!("plus={} [{}s]", expires_unix, remaining_secs)
            },
            ReportLine::PlusExpiresIn { remaining_secs } => format!("expires in [{}s]", remaining_secs),
        })
        .collect()
}

#[test]
fn command_line_modes() {
    assert!(matches!(parse_cli(&args(&["geph-tui"])), CliMode::Interactive));
    assert!(matches!(parse_cli(&args(&[])), CliMode::Interactive));
    assert!(matches!(parse_cli(&args(&["geph-tui", "-h"])), CliMode::Help));
    assert!(matches!(parse_cli(&args(&["geph-tui", "--help", "--ctl"])), CliMode::Help));
    assert!(matches!(parse_cli(&args(&["geph-tui", "--ctl"])), CliMode::Control(CtlCommand::Status)));
    assert!(matches!(parse_cli(&args(&["geph-tui", "--ctl", "start"])), CliMode::Control(CtlCommand::Start)));
    assert!(matches!(parse_cli(&args(&["geph-tui", "--ctl", "stop"])), CliMode::Control(CtlCommand::Stop)));
    assert!(matches!(parse_cli(&args(&["geph-tui", "--ctl", "exit"])), CliMode::Control(CtlCommand::ExitConstraint)));
    assert!(matches!(parse_cli(&args(&["geph-tui", "--ctl", "exits"])), CliMode::Control(CtlCommand::Exits)));
    assert!(matches!(parse_cli(&args(&["geph-tui", "--ctl", "sessions"])), CliMode::Control(CtlCommand::Sessions)));
    assert!(matches!(parse_cli(&args(&["geph-tui", "--ctl", "account"])), CliMode::Control(CtlCommand::Account)));
    assert!(matches!(parse_cli(&args(&["geph-tui", "--ctl", "frob"])), CliMode::Control(CtlCommand::Unknown)));
    assert!(matches!(parse_cli(&args(&["geph-tui", "status"])), CliMode::Interactive));
}

#[test]
fn switch_arguments() {
    match parse_cli(&args(&["geph-tui", "--ctl", "switch", "jp", "--immediate"])) {
        CliMode::Control(CtlCommand::Switch { country, immediate }) => {
            assert_eq!(country.as_deref(), Some("jp"));
            assert!(immediate);
        },
        _ => panic!("expected switch"),
    }
    match parse_cli(&args(&["geph-tui", "--ctl", "switch", "--immediate"])) {
        CliMode::Control(CtlCommand::Switch { country, immediate }) => {
            assert!(country.is_none());
            assert!(immediate);
        },
        _ => panic!("expected switch"),
    }
    match parse_cli(&args(&["geph-tui", "--ctl", "switch"])) {
        CliMode::Control(CtlCommand::Switch { country, immediate }) => {
            assert!(country.is_none());
            assert!(!immediate);
        },
        _ => panic!("expected switch"),
    }
}

#[test]
fn logs_and_redeem_arguments() {
    match parse_cli(&args(&["geph-tui", "--ctl", "logs", "50"])) {
        CliMode::Control(CtlCommand::Logs { count }) => assert_eq!(count.as_deref(), Some("50")),
        _ => panic!("expected logs"),
    }
    match parse_cli(&args(&["geph-tui", "--ctl", "redeem"])) {
        CliMode::Control(CtlCommand::Redeem { code }) => assert!(code.is_none()),
        _ => panic!("expected redeem"),
    }
}

#[test]
fn switch_targets() {
    assert!(matches!(switch_target(None), Ok(ExitConstraint::Auto)));
    assert!(matches!(switch_target(Some("AuTo")), Ok(ExitConstraint::Auto)));
    match switch_target(Some("jp")) {
        Ok(ExitConstraint::Country(cc)) => assert_eq!(cc, "JP"),
        _ => panic!("expected Japan"),
    }
    match switch_target(Some("Us")) {
        Ok(ExitConstraint::Country(cc)) => assert_eq!(cc, "US"),
        _ => panic!("expected the US"),
    }
    assert!(switch_target(Some("zz")).is_err());
    assert!(switch_target(Some("")).is_err());
    assert!(switch_target(Some("autox")).is_err());
}

#[test]
fn constraints_are_written_for_people() {
    assert_eq!(fmt_constraint(&ExitConstraint::Auto), "auto");
    assert_eq!(fmt_constraint(&ExitConstraint::Country("JP".to_string())), "jp");
    assert_eq!(
        fmt_constraint(&ExitConstraint::CountryCity("US".to_string(), "nyc".to_string())),
        "us-nyc"
    );
    assert_eq!(fmt_constraint(&ExitConstraint::Direct("1.2.3.4:5".to_string())), "1.2.3.4:5");
    assert_eq!(fmt_constraint(&ExitConstraint::Hostname("ex.example".to_string())), "ex.example");
}

#[test]
fn switch_messages() {
    assert_eq!(switch_message("jp", Some(3)), "Switched to jp. Killed 3 stale sessions. No drain period.");
    assert_eq!(switch_message("auto", None), "Switched to auto. Existing TCP connections will drain.");
}

#[test]
fn start_plans() {
    let mut p = TuiPrefs::fresh();
    assert_eq!(start_plan(true, &p), StartPlan::AlreadyRunning);
    assert_eq!(start_plan(false, &p), StartPlan::NoAccount);
    p.secret = "abc".to_string();
    assert_eq!(start_plan(false, &p), StartPlan::Start { clear_cache: true });
    let q = p.with_secret_remembered();
    assert_eq!(q.last_connected_secret.as_deref(), Some("abc"));
    assert_eq!(start_plan(false, &q), StartPlan::Start { clear_cache: false });
}

#[test]
fn status_reports() {
    let mut p = TuiPrefs::fresh();
    assert_eq!(
        status_lines(&p, &None),
        vec!["running=no", "socks5_port=9909", "http_port=9910", "listen_addr=127.0.0.1"]
    );
    p.listen_all = true;
    assert_eq!(
        status_lines(
            &p,
            &Some(ConnSummary::Connected { first_exit: Some(("Japan".to_string(), "JP".to_string())) })
        ),
        vec![
            "running=yes",
            "conn=connected",
            "socks5_port=9909",
            "http_port=9910",
            "listen_addr=0.0.0.0",
            "exit=Japan (JP)"
        ]
    );
    assert_eq!(status_lines(&p, &Some(ConnSummary::Connecting))[1], "conn=connecting");
    assert_eq!(status_lines(&p, &Some(ConnSummary::Disconnected)).len(), 5);
}

#[test]
fn log_counts() {
    assert_eq!(log_count(None), Some(20));
    assert_eq!(log_count(Some("50")), Some(50));
    assert_eq!(log_count(Some("+7")), Some(7));
    assert_eq!(log_count(Some("0")), Some(0));
    assert_eq!(log_count(Some("abc")), None);
    assert_eq!(log_count(Some("-1")), None);
    assert_eq!(log_count(Some("")), None);
    assert_eq!(log_count(Some("99999999999999999999999")), None);
}

#[test]
fn last_lines_of_a_log() {
    let logs: Vec<String> = (0..5).map(|i| format!("l{}", i)).collect();
    assert_eq!(last_lines(&logs, 2), vec!["l3", "l4"]);
    assert_eq!(last_lines(&logs, 20).len(), 5);
    assert!(last_lines(&logs, 0).is_empty());
}

#[test]
fn sessions_grouped_by_country() {
    let s = |cc: &str, proto: &str, city: &str, bridge: Option<&str>| SessionSummary {
        country: cc.to_string(),
        protocol: proto.to_string(),
        city: city.to_string(),
        bridge: bridge.map(|b| b.to_string()),
    };
    let report = SessionsReport::Connected(vec![
        s("US", "sosistab3", "nyc", None),
        s("JP", "tls", "tokyo", Some("1.2.3.4:443")),
        s("US", "tls", "la", None),
    ]);
    assert_eq!(
        sessions_lines(&report),
        vec![
            "Exit JP (1 sessions):",
            "  protocol=tls city=tokyo bridge=1.2.3.4:443",
            "Exit US (2 sessions):",
            "  protocol=sosistab3 city=nyc bridge=none",
            "  protocol=tls city=la bridge=none",
        ]
    );
    assert_eq!(sessions_lines(&SessionsReport::Disconnected), vec!["Disconnected"]);
    assert_eq!(sessions_lines(&SessionsReport::Connecting), vec!["Connecting"]);
    assert!(sessions_lines(&SessionsReport::Connected(vec![])).is_empty());
}

#[test]
fn exits_listed_by_country_then_city() {
    let r = |cc: &str, city: &str, levels: &[AccountLevel]| ExitRow {
        country: cc.to_string(),
        city: city.to_string(),
        allowed_levels: levels.to_vec(),
    };
    let rows = vec![
        r("US", "nyc", &[AccountLevel::Plus]),
        r("JP", "tokyo", &[AccountLevel::Free, AccountLevel::Plus]),
        r("US", "la", &[AccountLevel::Free]),
        r("JP", "tokyo", &[]),
        r("CA", "yul", &[]),
    ];
    assert_eq!(exits_order(&rows), vec![4, 1, 3, 2, 0]);
    assert_eq!(exit_tier(&rows[0]), "plus");
    assert_eq!(exit_tier(&rows[2]), "free");
    assert_eq!(exit_tier(&rows[1]), "plus");
    assert!(exits_order(&vec![]).is_empty());
}

#[test]
fn account_reports() {
    assert_eq!(texts(&account_lines(None, 0)), vec!["user_id=<none>", "plus=not plus"]);
    let a = AccountSnapshot { user_id: 42, plus_expires_unix: Some(1000), bandwidth_mb: Some((5, 100)) };
    assert_eq!(
        texts(&account_lines(Some(a), 400)),
        vec!["user_id=42", "plus=1000 [600s]", "bw_used_mb=5", "bw_limit_mb=100"]
    );
    assert_eq!(texts(&account_lines(Some(a), 1000)), vec![
        "user_id=42",
        "plus=not plus",
        "bw_used_mb=5",
        "bw_limit_mb=100"
    ]);
    let b = AccountSnapshot { user_id: 7, plus_expires_unix: None, bandwidth_mb: None };
    assert_eq!(texts(&account_lines(Some(b), 0)), vec!["user_id=7", "plus=not plus"]);
}

#[test]
fn redeem_reports() {
    assert_eq!(redeem_code_arg(None), None);
    assert_eq!(redeem_code_arg(Some("")), None);
    assert_eq!(redeem_code_arg(Some("ABC")).as_deref(), Some("ABC"));
    assert_eq!(texts(&redeem_lines(30, None, 0)), vec!["Redeemed successfully. 30 days added."]);
    assert_eq!(
        texts(&redeem_lines(30, Some(Some(500)), 100)),
        vec!["Redeemed successfully. 30 days added.", "expires in [400s]"]
    );
    assert_eq!(
        texts(&redeem_lines(-1, Some(None), 100)),
        vec!["Redeemed successfully. -1 days added.", "Plus status: not plus"]
    );
    assert_eq!(texts(&redeem_lines(1, Some(Some(100)), 100))[1], "Plus status: not plus");
}

#[test]
fn chinese_locales() {
    assert!(is_chinese_locale(&Some("zh-CN".to_string())));
    assert!(is_chinese_locale(&Some("en-zh".to_string())));
    assert!(!is_chinese_locale(&Some("en-US".to_string())));
    assert!(!is_chinese_locale(&Some("z".to_string())));
    assert!(!is_chinese_locale(&None));
    assert_eq!(news_language_for(&Some("zh_TW".to_string())), "zh");
    assert_eq!(news_language_for(&None), "en");
    let l = news_language();
    assert!(l == "zh" || l == "en");
}

#[test]
fn switch_plans_read_back() {
    for arg in [None, Some("auto"), Some("jp"), Some("JP"), Some("gB")] {
        let (c, text) = geph_tui::ctl::switch_plan(arg).ok().unwrap();
        let (again, text2) = geph_tui::ctl::switch_plan(Some(text.as_str())).ok().unwrap();
        assert_eq!(text, text2);
        match (c, again) {
            (ExitConstraint::Auto, ExitConstraint::Auto) => {},
            (ExitConstraint::Country(a), ExitConstraint::Country(b)) => assert_eq!(a, b),
            _ => panic!("constraint did not read back"),
        }
    }
    assert_eq!(geph_tui::ctl::switch_plan(Some("jp")).ok().unwrap().1, "jp");
    assert!(geph_tui::ctl::switch_plan(Some("xx")).is_err());
}

#[test]
fn case_of_a_country_code_does_not_matter() {
    let a = switch_target(Some("jp"));
    let b = switch_target(Some("JP"));
    match (a, b) {
        (Ok(ExitConstraint::Country(x)), Ok(ExitConstraint::Country(y))) => assert_eq!(x, y),
        _ => panic!("expected Japan twice"),
    }
}

#[test]
fn accounts_and_autostart() {
    let mut p = TuiPrefs::fresh();
    assert!(!p.has_account());
    assert!(!geph_tui::refresh::autostart_wanted(&p, false));
    p.secret = "abc".to_string();
    assert!(p.has_account());
    assert!(geph_tui::refresh::autostart_wanted(&p, false));
    assert!(!geph_tui::refresh::autostart_wanted(&p, true));
}

#[test]
fn constraints_are_described_when_valid() {
    assert_eq!(geph_tui::ctl::describe_constraint(&ExitConstraint::Auto).as_deref(), Some("auto"));
    assert_eq!(
        geph_tui::ctl::describe_constraint(&ExitConstraint::Country("JP".to_string())).as_deref(),
        Some("jp")
    );
    assert_eq!(
        geph_tui::ctl::describe_constraint(&ExitConstraint::CountryCity("US".to_string(), "nyc".to_string()))
            .as_deref(),
        Some("us-nyc")
    );
    assert!(geph_tui::ctl::describe_constraint(&ExitConstraint::Country("XX".to_string())).is_none());
    assert!(geph_tui::ctl::describe_constraint(&ExitConstraint::Country("jp".to_string())).is_none());
    assert_eq!(
        geph_tui::ctl::describe_constraint(&ExitConstraint::Direct("1.2.3.4:1".to_string())).as_deref(),
        Some("1.2.3.4:1")
    );
}
