use player_backend::http_client::{
    after_body, after_send, query_pairs, query_value_text, status_is_success, QueryValue,
    SendOutcome,
};
use player_backend::launch::{arg_is_flag, file_arguments};
use player_backend::updates::{update_report, UpdateCheck, UpdateReport};

fn strings(items: &[&str]) -> Vec<String> {
    items.iter().map(|s| s.to_string()).collect()
}

#[test]
fn query_values_are_written_without_quotes() {
    assert_eq!(query_value_text(&QueryValue::Text("a b".to_string())), "a b");
    assert_eq!(query_value_text(&QueryValue::Number("1.5".to_string())), "1.5");
    assert_eq!(query_value_text(&QueryValue::Flag(true)), "true");
    assert_eq!(query_value_text(&QueryValue::Flag(false)), "false");
    assert_eq!(query_value_text(&QueryValue::Other("[1,2]".to_string())), "[1,2]");
}

#[test]
fn query_pairs_keep_keys_and_order() {
    let body = vec![
        ("q".to_string(), QueryValue::Text("夜曲".to_string())),
        ("page".to_string(), QueryValue::Number("2".to_string())),
        ("strict".to_string(), QueryValue::Flag(false)),
        ("filter".to_string(), QueryValue::Other("null".to_string())),
    ];
    assert_eq!(
        query_pairs(&body),
        vec![
            ("q".to_string(), "夜曲".to_string()),
            ("page".to_string(), "2".to_string()),
            ("strict".to_string(), "false".to_string()),
            ("filter".to_string(), "null".to_string()),
        ]
    );
    assert_eq!(query_pairs(&Vec::new()), Vec::<(String, String)>::new());
}

#[test]
fn success_is_two_hundred_to_two_ninety_nine() {
    assert!(!status_is_success(199));
    assert!(status_is_success(200));
    assert!(status_is_success(204));
    assert!(status_is_success(299));
    assert!(!status_is_success(300));
    assert!(!status_is_success(404));
    assert!(!status_is_success(0));
    assert!(!status_is_success(u16::MAX));
}

#[test]
fn a_response_is_read_only_after_success() {
    let ok = SendOutcome::Answered { code: 200, status: "200 OK".to_string(), response: 7u8 };
    assert_eq!(after_send(ok), Ok(7u8));
    let refused =
        SendOutcome::Answered { code: 404, status: "404 Not Found".to_string(), response: 7u8 };
    assert_eq!(after_send(refused), Err("请求失败，状态码: 404 Not Found".to_string()));
    let unsent: SendOutcome<u8> = SendOutcome::Failed("connection refused".to_string());
    assert_eq!(after_send(unsent), Err("发送请求失败: connection refused".to_string()));
}

#[test]
fn a_body_is_returned_as_it_is() {
    assert_eq!(after_body(Ok("你好".to_string())), Ok("你好".to_string()));
    assert_eq!(after_body(Ok(String::new())), Ok(String::new()));
    assert_eq!(
        after_body(Err("timed out".to_string())),
        Err("读取响应失败: timed out".to_string())
    );
}

#[test]
fn flags_start_with_a_dash() {
    assert!(arg_is_flag("-f"));
    assert!(arg_is_flag("--flag"));
    assert!(arg_is_flag("-"));
    assert!(!arg_is_flag(""));
    assert!(!arg_is_flag("a-b"));
    assert!(!arg_is_flag("–x"));
}

#[test]
fn file_arguments_skip_the_program_and_the_flags() {
    assert_eq!(
        file_arguments(&strings(&["player", "-v", "a.mp3", "--x", "file:///b.flac", "", "-"])),
        strings(&["a.mp3", "file:///b.flac", ""])
    );
    assert_eq!(file_arguments(&strings(&["a.mp3"])), Vec::<String>::new());
    assert_eq!(file_arguments(&strings(&["-a.mp3", "b.mp3"])), strings(&["b.mp3"]));
    assert_eq!(file_arguments(&Vec::new()), Vec::<String>::new());
    assert_eq!(file_arguments(&strings(&["player", "-a", "-b"])), Vec::<String>::new());
}

#[test]
fn an_offered_update_is_reported() {
    let check = UpdateCheck::Available {
        current_version: "0.1.0".to_string(),
        version: "0.2.0".to_string(),
        body: None,
        download_url: "https://example.org/u".to_string(),
    };
    assert_eq!(
        update_report(check, "0.1.0-running".to_string(), true),
        Ok(UpdateReport::Available {
            current_version: "0.1.0".to_string(),
            new_version: "0.2.0".to_string(),
            body: String::new(),
            download_url: "https://example.org/u".to_string(),
        })
    );
    let check = UpdateCheck::Available {
        current_version: "0.1.0".to_string(),
        version: "0.2.0".to_string(),
        body: Some("notes".to_string()),
        download_url: "u".to_string(),
    };
    match update_report(check, "x".to_string(), false) {
        Ok(UpdateReport::Available { body, .. }) => assert_eq!(body, "notes"),
        other => panic!("{:?}", other),
    }
}

#[test]
fn no_update_reports_the_running_version() {
    assert_eq!(
        update_report(UpdateCheck::UpToDate, "0.1.0".to_string(), false),
        Ok(UpdateReport::UpToDate { current_version: "0.1.0".to_string() })
    );
}

#[test]
fn a_failed_check_is_an_error_outside_development() {
    assert_eq!(
        update_report(UpdateCheck::Failed("bad signature".to_string()), "0.1.0".to_string(), false),
        Err("检查更新失败: bad signature".to_string())
    );
    assert_eq!(
        update_report(UpdateCheck::Failed("network down".to_string()), "0.1.0".to_string(), true),
        Err("检查更新失败: network down".to_string())
    );
    assert_eq!(
        update_report(UpdateCheck::Failed("Signature".to_string()), "0.1.0".to_string(), true),
        Err("检查更新失败: Signature".to_string())
    );
}

#[test]
fn a_signature_failure_is_simulated_in_development() {
    assert_eq!(
        update_report(
            UpdateCheck::Failed("the signature could not be decoded".to_string()),
            "0.1.0".to_string(),
            true
        ),
        Ok(UpdateReport::Simulated {
            current_version: "0.1.0".to_string(),
            new_version: "0.1.1".to_string(),
            debug_message: "开发环境中模拟更新".to_string(),
            error: "the signature could not be decoded".to_string(),
        })
    );
}
