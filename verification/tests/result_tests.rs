use leetui::api::types::{CheckResponse, Percentile, QuestionDetail, StringOrVec, flatten_string_or_vec};
use leetui::styled::{Color, StyledLine};
use leetui::ui::keys::{KeyCode, KeyPress};
use leetui::ui::result::{
    build_result_lines, build_submit_case_block, build_testcase_breakdown, percentile_suffix,
    sample_testcases, ResultAction, ResultData, ResultKind, ResultState, ResultStatus,
};

fn strings(v: &[&str]) -> Vec<String> {
    v.iter().map(|s| s.to_string()).collect()
}

fn render(lines: &[StyledLine]) -> Vec<String> {
    lines.iter().map(|l| l.content()).collect()
}

fn percentile(p: f64) -> Percentile {
    Percentile { above_zero: p > 0.0, one_decimal: format!("{p:.1}"), exact: format!("{p}") }
}

fn detail() -> QuestionDetail {
    QuestionDetail {
        question_id: "83".into(),
        frontend_question_id: "83".into(),
        title: "Remove Duplicates from Sorted List".into(),
        title_slug: "remove-duplicates-from-sorted-list".into(),
        difficulty: "Easy".into(),
        content: None,
        is_paid_only: false,
        topic_tags: vec![],
        code_snippets: None,
        example_testcase_list: None,
        sample_test_case: None,
        hints: vec![],
        status: None,
    }
}

/// A field of a decoded reply in the shape the judge sends it: a string or
/// a list of strings.
fn string_or_vec(v: &serde_json::Value, key: &str) -> Option<StringOrVec> {
    match v.get(key)? {
        serde_json::Value::String(s) => Some(StringOrVec::String(s.clone())),
        serde_json::Value::Array(a) => {
            Some(StringOrVec::Vec(a.iter().map(|e| e.as_str().unwrap().to_string()).collect()))
        }
        _ => None,
    }
}

#[test]
fn parses_std_output_list_from_run_response() {
    let body = r#"{
        "status_code": 10,
        "lang": "python3",
        "run_success": true,
        "status_runtime": "0 ms",
        "code_answer": ["[0,1]", ""],
        "code_output": ["DEBUG_PRINT_MARKER [2, 7, 11, 15] 9"],
        "std_output_list": ["DEBUG_PRINT_MARKER [2, 7, 11, 15] 9\n", ""],
        "status_memory": "19.2 MB",
        "total_correct": 1,
        "total_testcases": 1,
        "state": "SUCCESS"
    }"#;
    let v: serde_json::Value = serde_json::from_str(body).unwrap();
    let mut resp = CheckResponse::default();
    resp.status_code = v["status_code"].as_i64().map(|c| c as i32);
    resp.status_runtime = v["status_runtime"].as_str().map(|s| s.to_string());
    resp.code_output = flatten_string_or_vec(string_or_vec(&v, "code_output"));
    resp.std_output_list = flatten_string_or_vec(string_or_vec(&v, "std_output_list"));
    resp.status_memory = v["status_memory"].as_str().map(|s| s.to_string());
    resp.state = v["state"].as_str().unwrap().to_string();
    assert_eq!(
        resp.std_output_list,
        Some(vec!["DEBUG_PRINT_MARKER [2, 7, 11, 15] 9\n".to_string(), String::new()])
    );
}

#[test]
fn string_shaped_output_is_split_into_lines() {
    assert_eq!(
        flatten_string_or_vec(Some(StringOrVec::String("a\nb\r\nc\n".to_string()))),
        Some(strings(&["a", "b", "c"]))
    );
    assert_eq!(flatten_string_or_vec(Some(StringOrVec::String(String::new()))), None);
    assert_eq!(flatten_string_or_vec(None), None);
}

#[test]
fn from_check_surfaces_print_output_as_stdout() {
    let mut resp = CheckResponse::default();
    resp.status_code = Some(10);
    resp.status_runtime = Some("0 ms".to_string());
    resp.code_answer = Some(strings(&["[0,1]", ""]));
    resp.std_output_list = Some(strings(&["DEBUG_PRINT_MARKER [2, 7, 11, 15] 9\n", ""]));
    resp.total_correct = Some(1);
    resp.total_testcases = Some(1);
    resp.state = "SUCCESS".to_string();
    let data = ResultData::from_check(&resp);

    assert_eq!(data.stdout, Some(vec!["DEBUG_PRINT_MARKER [2, 7, 11, 15] 9".to_string()]));
    // The return value shown as "Output:" must stay the code_answer,
    // not be shadowed by stdout.
    assert_eq!(data.code_output, Some(vec!["[0,1]".to_string(), String::new()]));
}

#[test]
fn from_check_omits_stdout_when_absent() {
    let mut resp = CheckResponse::default();
    resp.status_code = Some(10);
    resp.code_answer = Some(strings(&["[0,1]", ""]));
    resp.std_output_list = Some(strings(&["", ""]));
    resp.state = "SUCCESS".to_string();
    let data = ResultData::from_check(&resp);

    assert_eq!(data.stdout, None);
}

#[test]
fn from_check_overrides_misleading_accepted_status_on_run() {
    let mut resp = CheckResponse::default();
    resp.status_code = Some(10);
    resp.status_msg = Some("Accepted".to_string());
    resp.code_answer = Some(strings(&["[1,1,2]", "[1,1,2,3]", ""]));
    resp.expected_code_answer = Some(strings(&["[1,2]", "[1,2,3]", ""]));
    resp.correct_answer = Some(false);
    resp.total_correct = Some(0);
    resp.total_testcases = Some(2);
    resp.state = "SUCCESS".to_string();
    let data = ResultData::from_check(&resp);

    assert_eq!(data.status_code, 11);
    assert_eq!(data.status_msg, "Wrong Answer");
}

#[test]
fn from_check_keeps_accepted_status_when_correct() {
    let mut resp = CheckResponse::default();
    resp.status_code = Some(10);
    resp.status_msg = Some("Accepted".to_string());
    resp.correct_answer = Some(true);
    resp.total_correct = Some(2);
    resp.total_testcases = Some(2);
    resp.state = "SUCCESS".to_string();
    let data = ResultData::from_check(&resp);

    assert_eq!(data.status_code, 10);
    assert_eq!(data.status_msg, "Accepted");
}

#[test]
fn from_check_defaults_and_fallbacks() {
    let mut resp = CheckResponse::default();
    resp.expected_code_answer = Some(strings(&["[1,2]", "[3]"]));
    resp.code_output = Some(strings(&["x"]));
    resp.compile_err = Some("short".to_string());
    resp.full_compile_error = Some("full".to_string());
    resp.runtime_error = Some("rt".to_string());
    let data = ResultData::from_check(&resp);
    assert_eq!(data.status_code, -1);
    assert_eq!(data.status_msg, "");
    assert_eq!(data.expected_output, Some("[1,2]\n[3]".to_string()));
    assert_eq!(data.code_output, Some(strings(&["x"])));
    assert_eq!(data.per_case_output, Some(strings(&["x"])));
    assert_eq!(data.compile_err, Some("full".to_string()));
    assert_eq!(data.runtime_error, Some("rt".to_string()));
}

#[test]
fn testcase_breakdown_pairs_each_case_with_its_own_io() {
    // Same real round trip as above: 2 sample cases, both failed.
    let mut resp = CheckResponse::default();
    resp.status_code = Some(10);
    resp.code_answer = Some(strings(&["[1,1,2]", "[1,1,2,3]", ""]));
    resp.expected_code_answer = Some(strings(&["[1,2]", "[1,2,3]", ""]));
    resp.std_output_list = Some(strings(&["1\n", "1\n2\n", ""]));
    resp.compare_result = Some("00".to_string());
    resp.correct_answer = Some(false);
    resp.total_correct = Some(0);
    resp.total_testcases = Some(2);
    resp.state = "SUCCESS".to_string();
    let data = ResultData::from_check(&resp);
    let testcases = vec!["[1,1,2]".to_string(), "[1,1,2,3,3]".to_string()];

    let lines = build_testcase_breakdown(&data, &testcases);
    let rendered = render(&lines);

    assert!(rendered.iter().any(|l| l.contains("Testcase 1")));
    assert!(rendered.iter().any(|l| l.contains("Testcase 2")));
    // Each case's own input, not the other case's.
    let tc1_pos = rendered.iter().position(|l| l.contains("Testcase 1")).unwrap();
    let tc2_pos = rendered.iter().position(|l| l.contains("Testcase 2")).unwrap();
    assert!(rendered[tc1_pos..tc2_pos].iter().any(|l| l.contains("[1,1,2]") && !l.contains("3,3")));
    assert!(rendered[tc2_pos..].iter().any(|l| l.contains("[1,1,2,3,3]")));
    // Case 2's stdout is "1\n2\n" -- two separate print()s -- not
    // flattened together with case 1's.
    assert!(rendered[tc2_pos..].iter().any(|l| l.trim() == "1"));
    assert!(rendered[tc2_pos..].iter().any(|l| l.trim() == "2"));
}

#[test]
fn testcase_breakdown_exact_block() {
    let mut resp = CheckResponse::default();
    resp.code_answer = Some(strings(&["[0,1]", ""]));
    resp.expected_code_answer = Some(strings(&["[0,1]", ""]));
    resp.compare_result = Some("1".to_string());
    let data = ResultData::from_check(&resp);
    let lines = build_testcase_breakdown(&data, &strings(&["[2,7]\n9"]));
    assert_eq!(
        render(&lines),
        strings(&[
            "",
            "  Testcase 1 \u{2714}",
            "    Input:",
            "      [2,7]",
            "      9",
            "    Output:",
            "      [0,1]",
        ])
    );
    assert_eq!(lines[1].spans[0].style.fg, Some(Color::Green));
    assert!(lines[1].spans[0].style.bold);
}

#[test]
fn submit_case_block_shows_failing_case_like_run_breakdown() {
    let mut resp = CheckResponse::default();
    resp.status_code = Some(11);
    resp.status_msg = Some("Wrong Answer".to_string());
    resp.last_testcase = Some("[1,1,2]".to_string());
    resp.expected_output = Some("[1,2]".to_string());
    resp.code_output = Some(strings(&["[1,1,2]"]));
    resp.total_correct = Some(0);
    resp.total_testcases = Some(168);
    resp.state = "SUCCESS".to_string();
    let data = ResultData::from_check(&resp);
    let lines = build_submit_case_block(&data);
    let rendered = render(&lines);

    assert!(rendered.iter().any(|l| l.contains("Testcase") && l.contains('\u{2718}')));
    assert!(rendered.iter().any(|l| l.trim() == "[1,1,2]"));
    assert!(rendered.iter().any(|l| l.contains("Expected:")));
}

#[test]
fn submit_case_block_empty_when_accepted() {
    let mut resp = CheckResponse::default();
    resp.status_code = Some(10);
    resp.status_msg = Some("Accepted".to_string());
    resp.total_correct = Some(168);
    resp.total_testcases = Some(168);
    resp.state = "SUCCESS".to_string();
    let data = ResultData::from_check(&resp);
    assert!(build_submit_case_block(&data).is_empty());
}

#[test]
fn submit_case_block_empty_when_accepted_even_with_a_case() {
    let mut resp = CheckResponse::default();
    resp.status_code = Some(10);
    resp.status_msg = Some("Accepted".to_string());
    resp.last_testcase = Some("[1,1,2]".to_string());
    resp.expected_output = Some("[1,2]".to_string());
    resp.code_output = Some(strings(&["[1,2]"]));
    resp.state = "SUCCESS".to_string();
    let data = ResultData::from_check(&resp);
    assert!(build_submit_case_block(&data).is_empty());
}

#[test]
fn submit_case_block_exact_for_failing_case() {
    let mut resp = CheckResponse::default();
    resp.status_code = Some(11);
    resp.last_testcase = Some("[1,1,2]".to_string());
    resp.expected_output = Some("[1,2]".to_string());
    resp.code_output = Some(strings(&["[1,1,2]"]));
    let data = ResultData::from_check(&resp);
    let lines = build_submit_case_block(&data);
    assert_eq!(
        render(&lines),
        strings(&[
            "",
            "  Testcase \u{2718}",
            "    Input:",
            "      [1,1,2]",
            "    Output:",
            "      [1,1,2]",
            "    Expected:",
            "      [1,2]",
        ])
    );
    assert_eq!(lines[1].spans[0].style.fg, Some(Color::Red));
    assert_eq!(lines[4].spans[0].style.fg, Some(Color::Red));
}

#[test]
fn testcase_breakdown_ignores_trailing_padding_entries() {
    let mut padded = CheckResponse::default();
    padded.code_answer = Some(strings(&["[1,2]", ""]));
    padded.expected_code_answer = Some(strings(&["[1,2]", ""]));
    padded.std_output_list = Some(strings(&["x\n", ""]));
    padded.compare_result = Some("1".to_string());
    let mut bare = padded.clone();
    bare.code_answer = Some(strings(&["[1,2]"]));
    bare.expected_code_answer = Some(strings(&["[1,2]", "other"]));
    bare.std_output_list = Some(strings(&["x\n", "y", "z"]));
    let tcs = strings(&["[1,1,2]"]);
    let a = render(&build_testcase_breakdown(&ResultData::from_check(&padded), &tcs));
    let b = render(&build_testcase_breakdown(&ResultData::from_check(&bare), &tcs));
    assert_eq!(a, b);
    assert!(a.iter().any(|l| l.trim() == "x"));
    assert!(!a.iter().any(|l| l.trim() == "y"));
}

#[test]
fn runtime_error_surfaces_in_result_lines() {
    let mut resp = CheckResponse::default();
    resp.status_code = Some(15);
    resp.status_msg = Some("Runtime Error".to_string());
    resp.runtime_error = Some("Line 3: ZeroDivisionError: division by zero".to_string());
    resp.full_runtime_error =
        Some("ZeroDivisionError: division by zero\nLine 3 in deleteDuplicates".to_string());
    resp.state = "SUCCESS".to_string();
    let data = ResultData::from_check(&resp);

    assert_eq!(
        data.runtime_error.as_deref(),
        Some("ZeroDivisionError: division by zero\nLine 3 in deleteDuplicates")
    );

    let lines = build_result_lines(&data, ResultKind::Run, &vec![]);
    let rendered = render(&lines);
    assert!(rendered.iter().any(|l| l.contains("Runtime Error:")));
    assert!(rendered.iter().any(|l| l.contains("ZeroDivisionError")));
}

#[test]
fn percentile_shown_when_present_omitted_when_zero() {
    assert_eq!(percentile_suffix(&Some(percentile(42.5))), " (beats 42.5%)");
    assert_eq!(percentile_suffix(&Some(percentile(0.0))), "");
    assert_eq!(percentile_suffix(&None), "");
}

#[test]
fn result_lines_for_accepted_submission() {
    let mut resp = CheckResponse::default();
    resp.status_code = Some(10);
    resp.status_msg = Some("Accepted".to_string());
    resp.total_correct = Some(3);
    resp.total_testcases = Some(3);
    resp.status_runtime = Some("4 ms".to_string());
    resp.status_memory = Some("16.5 MB".to_string());
    resp.runtime_percentile = Some(percentile(87.31));
    resp.memory_percentile = Some(percentile(0.0));
    let data = ResultData::from_check(&resp);
    let lines = build_result_lines(&data, ResultKind::Submit, &vec![]);
    assert_eq!(
        render(&lines),
        strings(&[
            "",
            "  \u{2714} Accepted",
            "",
            "  Passed: 3 / 3",
            "  Runtime: 4 ms (beats 87.3%)",
            "  Memory: 16.5 MB",
        ])
    );
    assert_eq!(lines[3].spans[1].style.fg, Some(Color::Green));
}

#[test]
fn result_lines_mark_each_status() {
    let mut data = ResultData::from_check(&CheckResponse::default());
    for (code, mark) in [(20, "\u{2718}"), (14, "\u{23f1}"), (15, "!"), (12, "\u{2718}")] {
        data.status_code = code;
        let lines = build_result_lines(&data, ResultKind::Submit, &vec![]);
        assert_eq!(lines[1].content(), format!("  {mark} "));
    }
    data.total_correct = Some(-1);
    data.total_testcases = Some(5);
    data.compile_err = Some("a\nb".to_string());
    let lines = build_result_lines(&data, ResultKind::Submit, &vec![]);
    let rendered = render(&lines);
    assert_eq!(rendered[3], "  Passed: -1 / 5");
    assert_eq!(lines[3].spans[1].style.fg, Some(Color::Yellow));
    assert_eq!(&rendered[4..], &strings(&["", "  Compile Error:", "  a", "  b"])[..]);
}

#[test]
fn sample_testcases_prefer_the_example_list() {
    let mut d = detail();
    assert!(sample_testcases(&d).is_empty());
    d.sample_test_case = Some("[1]".to_string());
    assert_eq!(sample_testcases(&d), strings(&["[1]"]));
    d.example_testcase_list = Some(vec![]);
    assert_eq!(sample_testcases(&d), strings(&["[1]"]));
    d.example_testcase_list = Some(strings(&["[2]", "[3]"]));
    assert_eq!(sample_testcases(&d), strings(&["[2]", "[3]"]));
}

#[test]
fn result_state_keys_scroll_and_leave() {
    let mut s = ResultState::new(ResultKind::Run, "Two Sum".to_string(), detail());
    let key = |code| KeyPress { code, ctrl: false };
    assert_eq!(s.handle_key(key(KeyCode::Char('k'))), ResultAction::Nothing);
    assert_eq!(s.scroll_offset, 0);
    assert_eq!(s.handle_key(key(KeyCode::Char('j'))), ResultAction::Nothing);
    assert_eq!(s.handle_key(key(KeyCode::Down)), ResultAction::Nothing);
    assert_eq!(s.scroll_offset, 2);
    assert_eq!(s.handle_key(key(KeyCode::Up)), ResultAction::Nothing);
    assert_eq!(s.scroll_offset, 1);
    assert_eq!(s.handle_key(key(KeyCode::Char('q'))), ResultAction::Back);
    assert_eq!(s.handle_key(key(KeyCode::Esc)), ResultAction::Back);
    assert_eq!(s.handle_key(key(KeyCode::Char('c'))), ResultAction::Nothing);
    assert_eq!(s.handle_key(KeyPress { code: KeyCode::Char('c'), ctrl: true }), ResultAction::Quit);
    s.scroll_offset = u16::MAX;
    s.handle_key(key(KeyCode::Char('j')));
    assert_eq!(s.scroll_offset, 0);
}

#[test]
fn result_state_shows_results_and_errors() {
    let mut s = ResultState::new(ResultKind::Submit, "Two Sum".to_string(), detail());
    assert!(matches!(s.status, ResultStatus::Pending));
    s.spinner_frame = 23;
    assert_eq!(s.pending_text(), "\n  \u{2838} Submitting... (2s)");
    s.scroll_offset = 9;
    s.fit_to_height(4);
    assert_eq!(s.scroll_offset, 9);
    assert_eq!(s.content_height, 4);
    s.set_error("boom".to_string());
    assert_eq!(render(&s.content_lines), strings(&["", "  Error: boom"]));
    assert!(matches!(s.status, ResultStatus::Error(ref m) if m == "boom"));
    s.fit_to_height(1);
    assert_eq!(s.scroll_offset, 1);
    let data = ResultData::from_check(&CheckResponse::default());
    s.set_result(data);
    assert!(matches!(s.status, ResultStatus::Success(_)));
    assert_eq!(render(&s.content_lines), strings(&["", "  \u{2718} ", ""]));
    assert_eq!(s.title_line().content(), " Submit (all cases) Result  Two Sum");
}
