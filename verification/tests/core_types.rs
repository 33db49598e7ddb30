use tuhucar::config::{default_format, default_timeout, ApiConfig, Config, OutputConfig};
use tuhucar::error::{ApiError, TuhucarError};
use tuhucar::output::format_markdown;
use tuhucar::types::{Notice, OutputFormat, Render, Response, ResponseMeta};

struct TestData {
    value: String,
}

impl Render for TestData {
    fn to_markdown(&self) -> String {
        format!("Value: {}\n", self.value)
    }
}

#[test]
fn car_not_found_converts_to_api_error() {
    let err = TuhucarError::CarNotFound {
        suggestion: "请提供更精确的车型描述".into(),
    };
    let api_err: ApiError = err.into();
    assert_eq!(api_err.code, "CAR_NOT_FOUND");
    assert!(!api_err.retryable);
    assert_eq!(api_err.suggestion.unwrap(), "请提供更精确的车型描述");
}

#[test]
fn mcp_error_5xx_is_retryable() {
    let err = TuhucarError::McpError {
        code: 502,
        message: "Bad Gateway".into(),
    };
    let api_err: ApiError = err.into();
    assert!(api_err.retryable);
    assert_eq!(api_err.upstream.unwrap().status, 502);
}

#[test]
fn mcp_error_4xx_is_not_retryable() {
    let err = TuhucarError::McpError {
        code: 400,
        message: "Bad Request".into(),
    };
    let api_err: ApiError = err.into();
    assert!(!api_err.retryable);
}

#[test]
fn network_error_is_retryable_and_keeps_its_text() {
    let api_err: ApiError = TuhucarError::Network("connection refused".into()).into();
    assert_eq!(api_err.code, "NETWORK_ERROR");
    assert_eq!(api_err.message, "Network error: connection refused");
    assert!(api_err.retryable);
    assert!(api_err.suggestion.is_none());
    assert!(api_err.upstream.is_none());
}

#[test]
fn config_missing_converts_with_suggestion() {
    let api_err: ApiError = Config::missing().into();
    assert_eq!(api_err.code, "CONFIG_MISSING");
    assert_eq!(api_err.message, "Configuration not found");
    assert_eq!(api_err.suggestion.unwrap(), "Run: tuhucar config init");
}

#[test]
fn config_parse_error_points_at_the_file() {
    let api_err: ApiError = Config::unreadable("/h/.tuhucar/config.toml", "bad key").into();
    assert_eq!(api_err.code, "CONFIG_PARSE_ERROR");
    assert_eq!(api_err.message, "/h/.tuhucar/config.toml: bad key");
    assert_eq!(
        api_err.suggestion.unwrap(),
        "Check ~/.tuhucar/config.toml for syntax errors"
    );
}

#[test]
fn invalid_args_converts_with_suggestion() {
    let err = TuhucarError::InvalidArgs {
        message: "bad".into(),
        suggestion: "Run: tuhucar --help".into(),
    };
    let api_err: ApiError = err.into();
    assert_eq!(api_err.code, "INVALID_ARGS");
    assert_eq!(api_err.message, "bad");
    assert!(!api_err.retryable);
}

#[test]
fn mcp_error_status_is_truncated_code() {
    let api_err: ApiError = TuhucarError::McpError {
        code: -1,
        message: "x".into(),
    }
    .into();
    assert!(!api_err.retryable);
    let up = api_err.upstream.unwrap();
    assert_eq!(up.status, 65535);
    assert_eq!(up.code, "MCP_ERROR");
    assert_eq!(up.message, "x");
}

#[test]
fn error_display_texts() {
    let e = TuhucarError::McpError {
        code: -1,
        message: "boom".into(),
    };
    assert_eq!(e.display_text(), "MCP error (-1): boom");
    let e = TuhucarError::CarNotFound {
        suggestion: "s".into(),
    };
    assert_eq!(e.display_text(), "Car not found");
    let e = TuhucarError::ConfigMissing {
        suggestion: "Run: tuhucar config init".into(),
    };
    assert_eq!(e.display_text(), "Config missing: Run: tuhucar config init");
    let e = TuhucarError::InvalidArgs {
        message: "m".into(),
        suggestion: "s".into(),
    };
    assert_eq!(e.display_text(), "Invalid arguments: m");
    let e = TuhucarError::ConfigParse("p".into());
    assert_eq!(e.display_text(), "Config parse error: p");
}

#[test]
fn success_response_has_data_and_no_error() {
    let resp = Response::success("hello".to_string(), None);
    assert_eq!(resp.data.as_deref(), Some("hello"));
    assert!(resp.error.is_none());
    assert!(resp.meta.is_none());
}

#[test]
fn error_response_has_error_and_no_data() {
    let api_err = ApiError {
        code: "CAR_NOT_FOUND".into(),
        message: "Not found".into(),
        retryable: false,
        suggestion: Some("Try again".into()),
        upstream: None,
    };
    let resp: Response<String> = Response::error(api_err, None);
    assert!(resp.data.is_none());
    assert_eq!(resp.error.unwrap().code, "CAR_NOT_FOUND");
}

#[test]
fn output_format_names() {
    assert_eq!(OutputFormat::from_str_opt("json"), Some(OutputFormat::Json));
    assert_eq!(OutputFormat::from_str_opt("markdown"), Some(OutputFormat::Markdown));
    assert_eq!(OutputFormat::from_str_opt("xml"), None);
    assert_eq!(OutputFormat::from_str_opt("JSON"), None);
    assert_eq!(OutputFormat::from_str_opt(""), None);
}

#[test]
fn markdown_format_renders_data() {
    let resp = Response::success(
        TestData {
            value: "hello".into(),
        },
        None,
    );
    let output = format_markdown(&resp);
    assert!(output.contains("Value: hello"));
}

#[test]
fn markdown_format_renders_error_with_suggestion() {
    let api_err = ApiError {
        code: "TEST_ERROR".into(),
        message: "Something went wrong".into(),
        retryable: false,
        suggestion: Some("Try again later".into()),
        upstream: None,
    };
    let resp: Response<TestData> = Response::error(api_err, None);
    let output = format_markdown(&resp);
    assert!(output.contains("**Error [TEST_ERROR]:** Something went wrong"));
    assert!(output.contains("> Try again later"));
}

#[test]
fn markdown_format_renders_error_without_suggestion() {
    let api_err = ApiError {
        code: "NET_ERR".into(),
        message: "Network failed".into(),
        retryable: true,
        suggestion: None,
        upstream: None,
    };
    let resp: Response<TestData> = Response::error(api_err, None);
    let output = format_markdown(&resp);
    assert!(output.contains("**Error [NET_ERR]:** Network failed"));
    assert!(!output.contains(">"));
}

#[test]
fn markdown_format_renders_update_notice() {
    let meta = ResponseMeta {
        version: "0.1.0".into(),
        notices: vec![Notice::Update {
            current: "0.1.0".into(),
            latest: "0.2.0".into(),
            message: "Update available!".into(),
        }],
    };
    let resp = Response::success(TestData { value: "ok".into() }, Some(meta));
    let output = format_markdown(&resp);
    assert!(output.contains("Value: ok"));
    assert!(output.contains("<!-- Update available! -->"));
}

#[test]
fn markdown_format_exact_text() {
    let api_err = ApiError {
        code: "E".into(),
        message: "m".into(),
        retryable: false,
        suggestion: Some("s".into()),
        upstream: None,
    };
    let meta = ResponseMeta {
        version: "1".into(),
        notices: vec![
            Notice::Update {
                current: "1".into(),
                latest: "2".into(),
                message: "a".into(),
            },
            Notice::Update {
                current: "1".into(),
                latest: "3".into(),
                message: "b".into(),
            },
        ],
    };
    let resp: Response<TestData> = Response::error(api_err, Some(meta));
    assert_eq!(
        format_markdown(&resp),
        "**Error [E]:** m\n\n> s\n\n<!-- a -->\n\n<!-- b -->\n"
    );
}

#[test]
fn default_config_has_expected_values() {
    let config = Config::default_config();
    assert_eq!(config.api.base_url, "https://api.tuhucar.com");
    assert_eq!(config.api.timeout, 30);
    assert_eq!(config.output.default_format, "markdown");
}

#[test]
fn config_defaults_and_paths() {
    assert_eq!(default_timeout(), 30);
    assert_eq!(default_format(), "markdown");
    assert_eq!(OutputConfig::default().default_format, "markdown");
    assert_eq!(Config::config_dir("/home/u"), "/home/u/.tuhucar");
    assert_eq!(Config::config_dir("/home/u/"), "/home/u/.tuhucar");
    assert_eq!(Config::config_path("/home/u"), "/home/u/.tuhucar/config.toml");
    assert_eq!(Config::config_path(""), ".tuhucar/config.toml");
    let c = Config {
        api: ApiConfig {
            base_url: "https://x".into(),
            timeout: 5,
        },
        output: OutputConfig {
            default_format: "json".into(),
        },
    };
    assert_eq!(c.api.timeout, 5);
}

#[test]
fn config_save_errors() {
    match Config::dir_not_created("denied") {
        TuhucarError::ConfigParse(m) => assert_eq!(m, "Cannot create dir: denied"),
        _ => panic!("wrong variant"),
    }
    match Config::not_saved("disk full") {
        TuhucarError::ConfigParse(m) => assert_eq!(m, "disk full"),
        _ => panic!("wrong variant"),
    }
}

#[test]
fn config_init_messages_name_the_path() {
    assert_eq!(
        Config::saved_message("/h/.tuhucar/config.toml"),
        "Configuration saved to /h/.tuhucar/config.toml"
    );
    assert_eq!(
        Config::edit_hint("/h/.tuhucar/config.toml"),
        "Edit /h/.tuhucar/config.toml to customize settings."
    );
}
