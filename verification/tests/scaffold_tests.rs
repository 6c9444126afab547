use leetui::api::types::{CodeSnippet, QuestionDetail};
use leetui::scaffold::python::{scaffold_dir_name, scaffold_source, solution_source};
use leetui::text::{decimal_string, lines_of, trim, trim_trailing_newlines};

fn sample_detail() -> QuestionDetail {
    QuestionDetail {
        question_id: "1".into(),
        frontend_question_id: "1".into(),
        title: "Two Sum".into(),
        title_slug: "two-sum".into(),
        difficulty: "Easy".into(),
        content: Some("<p>Given an array...</p>".into()),
        is_paid_only: false,
        topic_tags: vec![],
        code_snippets: Some(vec![CodeSnippet {
            lang: "Python3".into(),
            lang_slug: "python3".into(),
            code: "class Solution:\n    def twoSum(self, nums, target):\n        pass".into(),
        }]),
        example_testcase_list: None,
        sample_test_case: None,
        hints: vec![],
        status: None,
    }
}

#[test]
fn scaffolds_solution_py_with_snippet() {
    let detail = sample_detail();
    assert_eq!(format!("{}/solution.py", scaffold_dir_name(&detail)), "1-two-sum/solution.py");

    let content = scaffold_source(&detail);
    assert!(content.contains("# 1: Two Sum"));
    assert!(content.contains("class Solution:"));
    assert!(content.contains("def twoSum"));
    assert!(!content.contains("unittest"));
    assert!(!content.contains("if __name__ == \"__main__\":"));
}

#[test]
fn description_is_rendered_as_plain_text_comments() {
    let content = scaffold_source(&sample_detail());
    let lines: Vec<&str> = content.lines().collect();
    assert_eq!(lines[0], "# 1: Two Sum");
    assert_eq!(lines[1], "# Difficulty: Easy");
    assert_eq!(lines[2], "# https://leetcode.com/problems/two-sum/");
    assert_eq!(lines[3], "#");
    assert_eq!(lines[4], "# Given an array...");
    assert!(!content.contains("<p>"));
}

#[test]
fn solution_source_layout_is_exact() {
    let mut detail = sample_detail();
    detail.code_snippets = Some(vec![
        CodeSnippet { lang: "C++".into(), lang_slug: "cpp".into(), code: "int x;".into() },
        CodeSnippet { lang: "Python3".into(), lang_slug: "python3".into(), code: "pass".into() },
    ]);
    assert_eq!(
        solution_source(&detail, Some("one\ntwo\n")),
        "# 1: Two Sum\n# Difficulty: Easy\n# https://leetcode.com/problems/two-sum/\n#\n# one\n# two\n\npass\n"
    );
    detail.code_snippets = None;
    assert_eq!(
        solution_source(&detail, None),
        "# 1: Two Sum\n# Difficulty: Easy\n# https://leetcode.com/problems/two-sum/\n#\n\n# No Python snippet available for this problem\n\n"
    );
}

#[test]
fn description_keeps_fifty_lines() {
    let detail = sample_detail();
    let text: String = (1..=60).map(|i| format!("line {i}\n")).collect();
    let src = solution_source(&detail, Some(&text));
    assert!(src.contains("# line 50\n"));
    assert!(!src.contains("# line 51\n"));
}

#[test]
fn lines_split_like_str_lines() {
    for s in ["", "\n", "a", "a\n", "a\r\nb", "a\rb\r", "\n\nx\n\n", "x\r\n"] {
        let expected: Vec<String> = s.lines().map(String::from).collect();
        assert_eq!(lines_of(s), expected, "input {s:?}");
    }
}

#[test]
fn trimming_and_numbers() {
    assert_eq!(trim("\t hi there \u{a0}\n"), "hi there");
    assert_eq!(trim("   "), "");
    assert_eq!(trim_trailing_newlines("out\n\n"), "out");
    assert_eq!(trim_trailing_newlines("\n"), "");
    assert_eq!(decimal_string(0), "0");
    assert_eq!(decimal_string(1234567890), "1234567890");
}
