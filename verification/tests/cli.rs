use koharu_server::cli::{Arguments, Given, Refusal};
use koharu_server::config::{
    bind_failure, config_read, config_unparsed, pipeline_config, ConfigStep,
};
use koharu_server::text::decimal_text;

fn parse(words: &[&str]) -> Result<Arguments, Refusal> {
    Arguments::try_parse_from(words.iter().map(|word| word.to_string()).collect())
}

#[test]
fn cli_defaults_match_spec() {
    let arguments = parse(&["koharu-server"]).unwrap();
    assert_eq!(arguments.port, 8383);
    assert_eq!(arguments.bind, "127.0.0.1");
    assert!(!arguments.cpu);
    assert!(arguments.config.is_none());
    assert_eq!(arguments.max_queued, 16);
}

#[test]
fn cli_overrides_parse() {
    let arguments = parse(&[
        "koharu-server",
        "--port",
        "9000",
        "--bind",
        "0.0.0.0",
        "--cpu",
        "--config",
        "pipeline.toml",
        "--max-queued",
        "4",
    ])
    .unwrap();
    assert_eq!(arguments.port, 9000);
    assert_eq!(arguments.bind, "0.0.0.0");
    assert!(arguments.cpu);
    assert_eq!(arguments.config, Some("pipeline.toml".to_string()));
    assert_eq!(arguments.max_queued, 4);
}

#[test]
fn settings_may_stand_in_any_order() {
    let arguments = parse(&["k", "--max-queued", "+7", "--cpu", "--port", "1"]).unwrap();
    assert_eq!(arguments.max_queued, 7);
    assert_eq!(arguments.port, 1);
    assert!(arguments.cpu);
    assert_eq!(arguments.bind, "127.0.0.1");
    assert!(arguments.config.is_none());
}

#[test]
fn values_may_be_attached() {
    let arguments = parse(&["k", "--port=80", "--bind=::1", "--config=-odd.toml"]).unwrap();
    assert_eq!(arguments.port, 80);
    assert_eq!(arguments.bind, "::1");
    assert_eq!(arguments.config, Some("-odd.toml".to_string()));
}

#[test]
fn no_words_at_all_mean_defaults() {
    assert_eq!(parse(&[]).unwrap().port, 8383);
}

fn refused(words: &[&str]) -> String {
    let refusal = parse(words).unwrap_err();
    assert!(refusal.is_error);
    assert_eq!(refusal.exit_code(), 2);
    refusal.text
}

#[test]
fn port_out_of_range_is_refused() {
    let text = refused(&["koharu-server", "--port", "70000"]);
    assert!(text.contains("invalid value '70000' for '--port <PORT>': 70000 is not in 0..=65535"));
    assert!(refused(&["k", "--port", "65536"]).contains("65536 is not in 0..=65535"));
}

#[test]
fn values_that_break_their_rule_are_refused() {
    assert!(refused(&["k", "--port", "http"]).contains("invalid digit found in string"));
    assert!(refused(&["k", "--port", ""]).contains("'--port <PORT>'"));
    assert!(refused(&["k", "--port", "+"]).contains("invalid digit found in string"));
    assert!(refused(&["k", "--port", "99999999999999999999x"]).contains("number too large"));
    assert!(refused(&["k", "--max-queued", "many"])
        .contains("invalid value 'many' for '--max-queued <MAX_QUEUED>'"));
    assert!(refused(&["k", "--max-queued", "18446744073709551616"])
        .contains("number too large to fit in target type"));
    assert!(refused(&["k", "--config", ""])
        .contains("a value is required for '--config <PATH>' but none was supplied"));
}

#[test]
fn one_bad_value_refuses_the_line() {
    refused(&["k", "--cpu", "--bind", "::1", "--max-queued", "x", "--port", "80"]);
    refused(&["k", "--port", "80", "--config", ""]);
}

#[test]
fn numbers_may_have_a_sign_and_leading_zeros() {
    let arguments = parse(&["k", "--port", "+000080", "--max-queued", "007"]).unwrap();
    assert_eq!((arguments.port, arguments.max_queued), (80, 7));
    assert_eq!(parse(&["k", "--port=-0"]).unwrap().port, 0);
    refused(&["k", "--max-queued=-0"]);
}

#[test]
fn bind_address_may_be_any_text() {
    assert_eq!(parse(&["k", "--bind", ""]).unwrap().bind, "");
    assert_eq!(parse(&["k", "--bind", "a=b c"]).unwrap().bind, "a=b c");
}

#[test]
fn lines_that_are_no_settings_are_refused() {
    let lines: [&[&str]; 5] = [
        &["k", "--unknown"],
        &["k", "page.png"],
        &["k", "--port"],
        &["k", "--port", "1", "--port", "2"],
        &["k", "--cpu=yes"],
    ];
    for words in lines {
        let refusal = parse(words).unwrap_err();
        assert!(refusal.is_error);
        assert!(refusal.text.starts_with("error: "));
    }
}

#[test]
fn help_and_version_are_no_errors() {
    let help = parse(&["koharu-server", "--help"]).unwrap_err();
    assert!(!help.is_error);
    assert_eq!(help.exit_code(), 0);
    assert!(help.text.starts_with("Standalone HTTP service for Koharu page translation"));
    for name in ["--port <PORT>", "--bind <BIND>", "--cpu", "--config <PATH>", "--max-queued"] {
        assert!(help.text.contains(name));
    }
    let version = parse(&["koharu-server", "--version"]).unwrap_err();
    assert!(!version.is_error);
    assert_eq!(version.text, "koharu-server 0.1.0\n");
}

#[test]
fn options_are_listed_in_their_order() {
    let help = parse(&["koharu-server", "--help"]).unwrap_err().text;
    let places: Vec<usize> = [
        "--port <PORT>",
        "--bind <BIND>",
        "--cpu",
        "--config <PATH>",
        "--max-queued <MAX_QUEUED>",
    ]
    .iter()
    .map(|name| help.find(name).unwrap())
    .collect();
    assert!(places.windows(2).all(|pair| pair[0] < pair[1]));
}

#[test]
fn written_numbers_read_back() {
    for port in [0u16, 9, 10, 8383, u16::MAX] {
        let numeral = decimal_text(port as u64);
        let arguments = parse(&["k", "--port", &numeral, "--max-queued", &numeral]).unwrap();
        assert_eq!((arguments.port, arguments.max_queued), (port, port as usize));
    }
}

#[test]
fn settling_fills_in_the_defaults() {
    let given = |port, max_queued| Given { port, bind: None, cpu: true, config: None, max_queued };
    let settled = Arguments::settle(given(Some(81), Some(2))).unwrap();
    assert_eq!((settled.port, settled.max_queued, settled.cpu), (81, 2, true));
    assert_eq!(settled.bind, "127.0.0.1");
    let settled = Arguments::settle(given(None, None)).unwrap();
    assert_eq!((settled.port, settled.max_queued), (8383, 16));
    let settled = Arguments::settle(given(None, Some(u64::MAX)));
    assert_eq!(settled.is_ok(), usize::BITS == 64);
}

#[test]
fn what_is_to_be_shown_is_handed_on() {
    let refusal = Arguments::resolve(Err(("usage".to_string(), false))).unwrap_err();
    assert_eq!((refusal.text.as_str(), refusal.is_error), ("usage", false));
    let matched = (Some(1), Some("::".to_string()), true, Some("p".to_string()), Some(5));
    let arguments = Arguments::resolve(Ok(matched)).unwrap();
    assert_eq!((arguments.port, arguments.bind.as_str()), (1, "::"));
    assert_eq!((arguments.cpu, arguments.max_queued), (true, 5));
    assert_eq!(arguments.config.as_deref(), Some("p"));
}

#[test]
fn missing_config_flag_uses_defaults() {
    assert!(matches!(pipeline_config(None), ConfigStep::Defaults));
}

#[test]
fn config_file_is_read_and_parsed() {
    let step = pipeline_config(Some("pipeline.toml".to_string()));
    assert!(matches!(step, ConfigStep::Read(path) if path == "pipeline.toml"));
    let step = config_read("pipeline.toml".to_string(), Ok("a = 1".to_string()));
    assert!(matches!(
        step,
        ConfigStep::Parse(path, text) if path == "pipeline.toml" && text == "a = 1"
    ));
}

#[test]
fn startup_failures_name_what_failed() {
    let step = config_read("p.toml".to_string(), Err("gone".to_string()));
    assert!(matches!(
        step,
        ConfigStep::Fail(context, cause) if context == "failed to read p.toml" && cause == "gone"
    ));
    let step = config_unparsed("p.toml".to_string(), "line 3".to_string());
    assert!(matches!(
        step,
        ConfigStep::Fail(context, cause) if context == "failed to parse p.toml" && cause == "line 3"
    ));
    assert_eq!(bind_failure("127.0.0.1", 8383), "failed to bind 127.0.0.1:8383");
}
