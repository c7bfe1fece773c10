use ginkou_loader::action::{ExportRequest, HostAction, LogSink};
use ginkou_loader::ipc::{IPCContext, IPCRequest, LogLevel};
use ginkou_loader::json::{JsonMember, JsonValue};
use ginkou_loader::scale::{Extent, Factor};

fn context() -> IPCContext {
    IPCContext::in_directory("/data")
}

fn member(key: &str, value: JsonValue) -> JsonMember {
    JsonMember { key: key.to_string(), value }
}

fn text(value: &str) -> JsonValue {
    JsonValue::Text(value.to_string())
}

fn unknown(raw: &str) -> IPCRequest {
    IPCRequest::Unknown(raw.to_string())
}

#[test]
fn decode_resize_reads_the_factor_exactly() {
    let request = IPCRequest::decode(r#"{"_event":"resize","conversion-factor":1.25}"#.to_string());
    assert_eq!(
        request,
        IPCRequest::SetConversionFactor {
            conversion_factor: Factor { negative: false, mantissa: 5629499534213120, exponent: -52 },
        }
    );
}

#[test]
fn decode_resize_takes_whole_numbers() {
    let whole = IPCRequest::decode(r#"{"_event":"resize","conversion-factor":2}"#.to_string());
    let fractional = IPCRequest::decode(r#"{"_event":"resize","conversion-factor":2.0}"#.to_string());
    assert_eq!(whole, fractional);
    assert_eq!(
        whole,
        IPCRequest::SetConversionFactor {
            conversion_factor: Factor { negative: false, mantissa: 1 << 52, exponent: -51 },
        }
    );
}

#[test]
fn decode_resize_keeps_negative_and_zero_factors() {
    let negative = IPCRequest::decode(r#"{"_event":"resize","conversion-factor":-1.5}"#.to_string());
    assert_eq!(
        negative,
        IPCRequest::SetConversionFactor {
            conversion_factor: Factor { negative: true, mantissa: 3 << 51, exponent: -52 },
        }
    );
    let zero = IPCRequest::decode(r#"{"_event":"resize","conversion-factor":0.0}"#.to_string());
    assert_eq!(
        zero,
        IPCRequest::SetConversionFactor {
            conversion_factor: Factor { negative: false, mantissa: 0, exponent: -1074 },
        }
    );
}

#[test]
fn decode_download_logs() {
    let request = IPCRequest::decode(r#"{"_event":"download-logs"}"#.to_string());
    assert_eq!(request, IPCRequest::DownloadLogs);
}

#[test]
fn decode_log_event_for_every_level() {
    let levels = [
        ("log", LogLevel::Log),
        ("debug", LogLevel::Debug),
        ("info", LogLevel::Info),
        ("warn", LogLevel::Warn),
        ("error", LogLevel::Error),
    ];
    for (name, level) in levels {
        let raw = format!(r#"{{"_event":"log-event","level":"{}","message":"wallet opened"}}"#, name);
        assert_eq!(
            IPCRequest::decode(raw),
            IPCRequest::LogEvent { level, message: "wallet opened".to_string() }
        );
    }
}

#[test]
fn decode_open_browser() {
    let request = IPCRequest::decode(r#"{"_event":"open-browser","url":"https://themelio.org"}"#.to_string());
    assert_eq!(request, IPCRequest::OpenBrowser { url: "https://themelio.org".to_string() });
}

#[test]
fn decode_ignores_members_that_the_request_does_not_name() {
    let request = IPCRequest::decode(
        r#"{"url":"https://themelio.org","zoom":[1,2],"_event":"open-browser","nested":{"a":null}}"#.to_string(),
    );
    assert_eq!(request, IPCRequest::OpenBrowser { url: "https://themelio.org".to_string() });
}

#[test]
fn decode_unescapes_strings() {
    let request = IPCRequest::decode(r#"{"_event":"log-event","level":"info","message":"a\n\"b\" é"}"#.to_string());
    assert_eq!(request, IPCRequest::LogEvent { level: LogLevel::Info, message: "a\n\"b\" é".to_string() });
}

#[test]
fn decode_malformed_text_is_unknown() {
    for raw in ["", "hello", "{", r#"{"_event":"download-logs""#, r#"{"_event":"download-logs"} trailing"#] {
        assert_eq!(IPCRequest::decode(raw.to_string()), unknown(raw));
    }
}

#[test]
fn decode_other_json_than_an_object_is_unknown() {
    for raw in ["null", "true", "12", r#""download-logs""#, r#"["download-logs"]"#] {
        assert_eq!(IPCRequest::decode(raw.to_string()), unknown(raw));
    }
}

#[test]
fn decode_without_a_usable_event_is_unknown() {
    for raw in [
        "{}",
        r#"{"event":"download-logs"}"#,
        r#"{"_event":7}"#,
        r#"{"_event":null}"#,
        r#"{"_event":["download-logs"]}"#,
        r#"{"_event":"shutdown"}"#,
        r#"{"_event":"Download-Logs"}"#,
        r#"{"_event":"download_logs"}"#,
        r#"{"_event":"set-conversion-factor","conversion-factor":2.0}"#,
    ] {
        assert_eq!(IPCRequest::decode(raw.to_string()), unknown(raw));
    }
}

#[test]
fn decode_with_missing_or_mistyped_members_is_unknown() {
    for raw in [
        r#"{"_event":"resize"}"#,
        r#"{"_event":"resize","conversion_factor":2.0}"#,
        r#"{"_event":"resize","conversion-factor":"2.0"}"#,
        r#"{"_event":"resize","conversion-factor":null}"#,
        r#"{"_event":"log-event","level":"info"}"#,
        r#"{"_event":"log-event","message":"m"}"#,
        r#"{"_event":"log-event","level":"trace","message":"m"}"#,
        r#"{"_event":"log-event","level":"Info","message":"m"}"#,
        r#"{"_event":"log-event","level":"info","message":3}"#,
        r#"{"_event":"open-browser"}"#,
        r#"{"_event":"open-browser","url":false}"#,
    ] {
        assert_eq!(IPCRequest::decode(raw.to_string()), unknown(raw));
    }
}

#[test]
fn from_document_without_a_document_is_unknown() {
    assert_eq!(IPCRequest::from_document("raw".to_string(), None), unknown("raw"));
}

#[test]
fn from_document_reads_the_first_member_of_a_name() {
    let members = vec![
        member("_event", text("open-browser")),
        member("url", text("first")),
        member("url", text("second")),
    ];
    assert_eq!(
        IPCRequest::from_document("raw".to_string(), Some(members)),
        IPCRequest::OpenBrowser { url: "first".to_string() }
    );
}

#[test]
fn from_document_rejects_numbers_that_are_not_finite() {
    let infinite = f64::INFINITY.to_bits();
    let not_a_number = f64::NAN.to_bits();
    for number in [Some(infinite), Some(not_a_number), None] {
        let members = vec![member("_event", text("resize")), member("conversion-factor", JsonValue::Number(number))];
        assert_eq!(IPCRequest::from_document("raw".to_string(), Some(members)), unknown("raw"));
    }
}

#[test]
fn from_document_reads_a_factor_from_its_bits() {
    let members = vec![
        member("conversion-factor", JsonValue::Number(Some(0.5f64.to_bits()))),
        member("_event", text("resize")),
    ];
    assert_eq!(
        IPCRequest::from_document("raw".to_string(), Some(members)),
        IPCRequest::SetConversionFactor {
            conversion_factor: Factor { negative: false, mantissa: 1 << 52, exponent: -53 },
        }
    );
}

#[test]
fn level_names_and_labels() {
    assert_eq!(LogLevel::from_name(&"warn".to_string()), Some(LogLevel::Warn));
    assert_eq!(LogLevel::from_name(&"WARN".to_string()), None);
    assert_eq!(LogLevel::from_name(&"".to_string()), None);
    assert_eq!(LogLevel::Log.as_label(), "Log");
    assert_eq!(LogLevel::Debug.as_label(), "Debug");
    assert_eq!(LogLevel::Info.as_label(), "Info");
    assert_eq!(LogLevel::Warn.as_label(), "Warn");
    assert_eq!(LogLevel::Error.as_label(), "Error");
}

#[test]
fn actions_for_a_conversion_factor_scale_then_lock() {
    let request = IPCRequest::SetConversionFactor {
        conversion_factor: Factor { negative: false, mantissa: 5 << 50, exponent: -52 },
    };
    assert_eq!(
        request.actions(&context()),
        vec![
            HostAction::SetInnerSize {
                width: Extent { negative: false, mantissa: 390 * (5 << 50), exponent: -52 },
                height: Extent { negative: false, mantissa: 600 * (5 << 50), exponent: -52 },
            },
            HostAction::SetResizable(false),
        ]
    );
}

#[test]
fn actions_for_download_logs_name_both_logs() {
    assert_eq!(
        IPCRequest::DownloadLogs.actions(&context()),
        vec![HostAction::ExportLogs(ExportRequest {
            start: "~/".to_string(),
            melwalletd_log: "/data/melwalletd.log".to_string(),
            ginkou_log: "/data/ginkou.log".to_string(),
        })]
    );
}

#[test]
fn actions_for_a_log_event_append_one_line() {
    let request = IPCRequest::LogEvent { level: LogLevel::Warn, message: "low balance".to_string() };
    assert_eq!(
        request.actions(&context()),
        vec![HostAction::AppendLog { sink: LogSink::Ui, line: "Warn: low balance\n".to_string() }]
    );
}

#[test]
fn actions_for_open_browser() {
    let request = IPCRequest::OpenBrowser { url: "https://themelio.org".to_string() };
    assert_eq!(request.actions(&context()), vec![HostAction::OpenUrl("https://themelio.org".to_string())]);
}

#[test]
fn actions_for_an_unknown_request_are_none() {
    assert_eq!(unknown("anything").actions(&context()), vec![]);
}

#[test]
fn handler_answers_malformed_messages_with_nothing() {
    for raw in ["", "not json", "[1,2,3]", r#"{"_event":"reboot"}"#, r#"{"_event":"resize"}"#] {
        assert_eq!(IPCRequest::handler_with_context(&context(), raw.to_string()), vec![]);
    }
}

#[test]
fn handler_appends_the_log_line_of_a_message() {
    let actions = IPCRequest::handler_with_context(
        &context(),
        r#"{"_event":"log-event","level":"error","message":"send failed: timeout"}"#.to_string(),
    );
    assert_eq!(
        actions,
        vec![HostAction::AppendLog { sink: LogSink::Ui, line: "Error: send failed: timeout\n".to_string() }]
    );
}

#[test]
fn handler_opens_the_address_of_a_message() {
    let actions = IPCRequest::handler_with_context(
        &context(),
        r#"{"_event":"open-browser","url":"https://scan.themelio.org/"}"#.to_string(),
    );
    assert_eq!(actions, vec![HostAction::OpenUrl("https://scan.themelio.org/".to_string())]);
}

#[test]
fn context_names_the_logs_of_the_data_directory() {
    let args = ginkou_loader::Args {
        dev_port: None,
        html_path: Some("/html".to_string()),
        melwalletd_path: "melwalletd".to_string(),
        data_path: "/var/lib/wallet/".to_string(),
        wallet_path: "/wallets".to_string(),
        version_string: None,
        debug_window_open: false,
    };
    let context = IPCContext::from_args(args);
    assert_eq!(context.ginkou_logs_path, "/var/lib/wallet/ginkou.log");
    assert_eq!(context.melwalletd_logs_path, "/var/lib/wallet/melwalletd.log");
}
