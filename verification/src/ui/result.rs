//! The result screen of a run or a submission: what a check reply means,
//! and the report lines drawn from it.
use vstd::prelude::*;
use crate::api::types::{CheckResponse, QuestionDetail, Percentile, copy_percentile};
use crate::styled::{
    Color, Style, StyledLine, LineModel, line_models, one_span, blank_line, indented, plain, fg,
    fg_bold, push_indented, push_each_indented, concat,
};
use crate::text::{
    views, opt_view, opt_views, copy_opt_string, copy_opt_strings, copy_strings, text_lines,
    without_trailing_newlines, trim_trailing_newlines, decimal, signed_decimal, push_decimal,
    push_signed_decimal, push_char,
};
use crate::ui::keys::{KeyPress, KeyCode};
use crate::ui::spinner::{spinner_glyph, spinner_char};

verus! {

/// Whether the screen shows a run on the sample cases or a submission.
#[derive(Debug, Clone, Copy, PartialEq, Eq, Structural)]
pub enum ResultKind {
    Run,
    Submit,
}

/// What the result screen shows of a check reply.
#[derive(Debug, Clone)]
pub struct ResultData {
    pub status_msg: String,
    pub status_code: i32,
    pub total_correct: Option<i32>,
    pub total_testcases: Option<i32>,
    pub runtime: Option<String>,
    pub memory: Option<String>,
    pub code_output: Option<Vec<String>>,
    pub expected_output: Option<String>,
    pub last_testcase: Option<String>,
    pub compile_err: Option<String>,
    pub runtime_error: Option<String>,
    pub runtime_percentile: Option<Percentile>,
    pub memory_percentile: Option<Percentile>,
    pub stdout: Option<Vec<String>>,
    /// One entry per sample testcase (plus a trailing empty padding entry
    /// the judge always appends), unlike `code_output`/`stdout` above,
    /// which are flattened across all cases. Only meaningful for Run.
    pub per_case_output: Option<Vec<String>>,
    pub per_case_expected: Option<Vec<String>>,
    pub per_case_stdout: Option<Vec<String>>,
    /// One char per testcase ('1' pass / '0' fail).
    pub compare_result: Option<String>,
}

/// The printed entries of a stdout list: each with its trailing line
/// feeds removed, the entries left empty by that dropped.
pub open spec fn printed_entries(v: Seq<Seq<char>>) -> Seq<Seq<char>>
    decreases v.len(),
{
    if v.len() == 0 {
        Seq::empty()
    } else {
        let t = without_trailing_newlines(v.last());
        if t.len() == 0 {
            printed_entries(v.drop_last())
        } else {
            printed_entries(v.drop_last()).push(t)
        }
    }
}

/// The stdout a result shows: the printed entries, absent when there are none.
pub open spec fn shown_stdout(o: Option<Seq<Seq<char>>>) -> Option<Seq<Seq<char>>> {
    match o {
        Some(v) => if printed_entries(v).len() == 0 {
            None
        } else {
            Some(printed_entries(v))
        },
        None => None,
    }
}

/// The first of two options that is present.
pub open spec fn first_present<T>(a: Option<T>, b: Option<T>) -> Option<T> {
    if a is Some {
        a
    } else {
        b
    }
}

/// The pieces of `v` joined with `sep` between them.
pub open spec fn joined(v: Seq<Seq<char>>, sep: Seq<char>) -> Seq<char>
    decreases v.len(),
{
    if v.len() == 0 {
        Seq::empty()
    } else if v.len() == 1 {
        v[0]
    } else {
        joined(v.drop_last(), sep) + sep + v.last()
    }
}

/// Whether a check reply says "Accepted" for a run whose answer is wrong:
/// the run endpoint reports status 10 whenever the code ran, and only
/// `correct_answer` tells pass from fail.
pub open spec fn misreported_accept(resp: CheckResponse) -> bool {
    resp.correct_answer == Some(false) && resp.status_code == Some(10i32)
}

/// The status code a result shows.
pub open spec fn shown_status_code(resp: CheckResponse) -> i32 {
    if misreported_accept(resp) {
        11
    } else {
        match resp.status_code {
            Some(c) => c,
            None => -1i32,
        }
    }
}

/// The status message a result shows.
pub open spec fn shown_status_msg(resp: CheckResponse) -> Seq<char> {
    if misreported_accept(resp) {
        "Wrong Answer"@
    } else {
        match resp.status_msg {
            Some(m) => m@,
            None => Seq::empty(),
        }
    }
}

/// The expected output a result shows: the reply's own, or else the
/// expected answers joined by line feeds.
pub open spec fn shown_expected(resp: CheckResponse) -> Option<Seq<char>> {
    match resp.expected_output {
        Some(e) => Some(e@),
        None => match resp.expected_code_answer {
            Some(v) => Some(joined(views(v@), "\n"@)),
            None => None,
        },
    }
}

fn printed_stdout(v: &Vec<String>) -> (res: Vec<String>)
    ensures
        views(res@) == printed_entries(views(v@)),
{
    let mut out: Vec<String> = Vec::new();
    let mut i: usize = 0;
    while i < v.len()
        invariant
            i <= v@.len(),
            views(out@) == printed_entries(views(v@).take(i as int)),
        decreases v@.len() - i,
    {
        let t = trim_trailing_newlines(v[i].as_str());
        proof {
            assert(views(v@).take(i + 1).drop_last() =~= views(v@).take(i as int));
            assert(views(out@.push(t)) =~= views(out@).push(t@));
        }
        if t.as_str().unicode_len() > 0 {
            out.push(t);
        }
        i = i + 1;
    }
    assert(views(v@).take(i as int) =~= views(v@));
    out
}

fn join_lines(v: &Vec<String>) -> (res: String)
    ensures
        res@ == joined(views(v@), "\n"@),
{
    let mut res = String::new();
    let mut i: usize = 0;
    while i < v.len()
        invariant
            i <= v@.len(),
            res@ == joined(views(v@).take(i as int), "\n"@),
        decreases v@.len() - i,
    {
        let ghost before = views(v@).take(i as int);
        if i > 0 {
            res.append("\n");
        }
        res.append(v[i].as_str());
        proof {
            let next = views(v@).take(i + 1);
            assert(next.drop_last() =~= before);
            if i == 0 {
                assert(before =~= Seq::<Seq<char>>::empty());
                assert(res@ =~= next[0]);
            } else {
                assert(res@ =~= joined(before, "\n"@) + "\n"@ + next.last());
            }
        }
        i = i + 1;
    }
    assert(views(v@).take(i as int) =~= views(v@));
    res
}

impl ResultData {
    /// What the result screen shows of a check reply. A run reply that
    /// says "Accepted" with a wrong answer shows as "Wrong Answer" (11).
    pub fn from_check(resp: &CheckResponse) -> (res: ResultData)
        ensures
            res.status_code == shown_status_code(*resp),
            res.status_msg@ == shown_status_msg(*resp),
            res.total_correct == resp.total_correct,
            res.total_testcases == resp.total_testcases,
            res.runtime == resp.status_runtime,
            res.memory == resp.status_memory,
            opt_views(res.code_output) == first_present(
                opt_views(resp.code_answer),
                opt_views(resp.code_output),
            ),
            opt_view(res.expected_output) == shown_expected(*resp),
            res.last_testcase == resp.last_testcase,
            res.compile_err == first_present(resp.full_compile_error, resp.compile_err),
            res.runtime_error == first_present(resp.full_runtime_error, resp.runtime_error),
            res.runtime_percentile == resp.runtime_percentile,
            res.memory_percentile == resp.memory_percentile,
            opt_views(res.stdout) == shown_stdout(opt_views(resp.std_output_list)),
            opt_views(res.per_case_output) == first_present(
                opt_views(resp.code_answer),
                opt_views(resp.code_output),
            ),
            opt_views(res.per_case_expected) == opt_views(resp.expected_code_answer),
            opt_views(res.per_case_stdout) == opt_views(resp.std_output_list),
            res.compare_result == resp.compare_result,
    {
        let stdout = match &resp.std_output_list {
            Some(v) => {
                let p = printed_stdout(v);
                if p.len() == 0 {
                    None
                } else {
                    Some(p)
                }
            },
            None => None,
        };
        let wrong = match (resp.correct_answer, resp.status_code) {
            (Some(false), Some(10)) => true,
            _ => false,
        };
        let (status_code, status_msg) = if wrong {
            (11i32, String::from_str("Wrong Answer"))
        } else {
            (
                match resp.status_code {
                    Some(c) => c,
                    None => -1i32,
                },
                match &resp.status_msg {
                    Some(m) => m.clone(),
                    None => String::new(),
                },
            )
        };
        let code_output = if resp.code_answer.is_some() {
            copy_opt_strings(&resp.code_answer)
        } else {
            copy_opt_strings(&resp.code_output)
        };
        let per_case_output = if resp.code_answer.is_some() {
            copy_opt_strings(&resp.code_answer)
        } else {
            copy_opt_strings(&resp.code_output)
        };
        let expected_output = match &resp.expected_output {
            Some(e) => Some(e.clone()),
            None => match &resp.expected_code_answer {
                Some(v) => Some(join_lines(v)),
                None => None,
            },
        };
        let compile_err = if resp.full_compile_error.is_some() {
            copy_opt_string(&resp.full_compile_error)
        } else {
            copy_opt_string(&resp.compile_err)
        };
        let runtime_error = if resp.full_runtime_error.is_some() {
            copy_opt_string(&resp.full_runtime_error)
        } else {
            copy_opt_string(&resp.runtime_error)
        };
        ResultData {
            status_msg,
            status_code,
            total_correct: resp.total_correct,
            total_testcases: resp.total_testcases,
            runtime: copy_opt_string(&resp.status_runtime),
            memory: copy_opt_string(&resp.status_memory),
            code_output,
            expected_output,
            last_testcase: copy_opt_string(&resp.last_testcase),
            compile_err,
            runtime_error,
            runtime_percentile: copy_percentile(&resp.runtime_percentile),
            memory_percentile: copy_percentile(&resp.memory_percentile),
            stdout,
            per_case_output,
            per_case_expected: copy_opt_strings(&resp.expected_code_answer),
            per_case_stdout: copy_opt_strings(&resp.std_output_list),
            compare_result: copy_opt_string(&resp.compare_result),
        }
    }
}

/// The sample inputs of a problem, in the order they are sent to Run and
/// Submit: the example list when it is not empty, else the single sample
/// case, else none.
pub open spec fn sample_cases(detail: QuestionDetail) -> Seq<Seq<char>> {
    match detail.example_testcase_list {
        Some(v) if v@.len() > 0 => views(v@),
        _ => match detail.sample_test_case {
            Some(s) => seq![s@],
            None => Seq::empty(),
        },
    }
}

/// The raw sample testcase inputs, in the same order they were sent to
/// Run/Submit; the per-case answers line up against them index for index.
pub fn sample_testcases(detail: &QuestionDetail) -> (res: Vec<String>)
    ensures
        views(res@) == sample_cases(*detail),
{
    match &detail.example_testcase_list {
        Some(v) if v.len() > 0 => copy_strings(v),
        _ => match &detail.sample_test_case {
            Some(s) => {
                let mut r: Vec<String> = Vec::new();
                r.push(s.clone());
                assert(views(r@) =~= seq![s@]);
                r
            },
            None => {
                let r: Vec<String> = Vec::new();
                assert(views(r@) =~= Seq::<Seq<char>>::empty());
                r
            },
        },
    }
}

/// The note a percentile adds after runtime or memory: `" (beats P%)"`
/// with P to one decimal, when the percentile is present and above zero.
pub open spec fn percentile_note(p: Option<Percentile>) -> Seq<char> {
    match p {
        Some(q) => if q.above_zero {
            " (beats "@ + q.one_decimal@ + "%)"@
        } else {
            Seq::empty()
        },
        None => Seq::empty(),
    }
}

/// The percentile note for runtime or memory.
pub fn percentile_suffix(percentile: &Option<Percentile>) -> (res: String)
    ensures
        res@ == percentile_note(*percentile),
{
    match percentile {
        Some(p) => {
            if p.above_zero {
                let mut s = String::from_str(" (beats ");
                s.append(p.one_decimal.as_str());
                s.append("%)");
                s
            } else {
                String::new()
            }
        },
        None => String::new(),
    }
}

/// The mark and colour of a status code: accepted, compile error, time
/// limit, runtime error, and every other failure.
pub open spec fn status_mark(code: i32) -> (Seq<char>, Color) {
    if code == 10 {
        ("\u{2714}"@, Color::Green)
    } else if code == 20 {
        ("\u{2718}"@, Color::Red)
    } else if code == 14 {
        ("\u{23f1}"@, Color::Yellow)
    } else if code == 15 {
        ("!"@, Color::Red)
    } else {
        ("\u{2718}"@, Color::Red)
    }
}

/// The "Passed: c / t" line, when both counts are known.
pub open spec fn passed_lines(data: ResultData) -> Seq<LineModel> {
    match (data.total_correct, data.total_testcases) {
        (Some(c), Some(t)) => seq![
            seq![
                ("  Passed: "@, fg(Color::White)),
                (
                    signed_decimal(c as int) + " / "@ + signed_decimal(t as int),
                    fg(if c == t { Color::Green } else { Color::Yellow }),
                ),
            ],
        ],
        _ => Seq::empty(),
    }
}

/// A measurement line (runtime or memory) with its percentile note.
pub open spec fn measure_lines(label: Seq<char>, value: Option<String>, p: Option<Percentile>) -> Seq<LineModel> {
    match value {
        Some(v) => seq![
            seq![(label, fg(Color::White)), (v@ + percentile_note(p), fg(Color::Cyan))],
        ],
        None => Seq::empty(),
    }
}

/// An error block: a blank line, a bold red heading, then the error's
/// lines in red after `indent`.
pub open spec fn error_lines(heading: Seq<char>, indent: Seq<char>, err: Option<String>) -> Seq<LineModel> {
    match err {
        Some(e) => seq![blank_line(), one_span(heading, fg_bold(Color::Red))] + indented(
            indent,
            text_lines(e@),
            fg(Color::Red),
        ),
        None => Seq::empty(),
    }
}

/// The stdout entries of a failing submission, each split into its lines.
pub open spec fn entries_lines(v: Seq<Seq<char>>) -> Seq<LineModel>
    decreases v.len(),
{
    if v.len() == 0 {
        Seq::empty()
    } else {
        entries_lines(v.drop_last()) + indented("      "@, text_lines(v.last()), fg(Color::Gray))
    }
}

/// The input part of a submission's case block.
pub open spec fn submit_input(data: ResultData) -> Seq<LineModel> {
    match data.last_testcase {
        Some(i) => seq![one_span("    Input:"@, fg(Color::White))] + indented(
            "      "@,
            text_lines(i@),
            fg(Color::Gray),
        ),
        None => Seq::empty(),
    }
}

/// The stdout part of a submission's case block.
pub open spec fn submit_stdout(data: ResultData) -> Seq<LineModel> {
    match data.stdout {
        Some(v) => if v@.len() > 0 {
            seq![one_span("    Stdout:"@, fg(Color::White))] + entries_lines(views(v@))
        } else {
            Seq::empty()
        },
        None => Seq::empty(),
    }
}

/// The output part of a failing submission's case block, in red.
pub open spec fn submit_output(data: ResultData) -> Seq<LineModel> {
    match data.code_output {
        Some(o) => seq![one_span("    Output:"@, fg(Color::Red))] + indented(
            "      "@,
            views(o@),
            fg(Color::Red),
        ),
        None => Seq::empty(),
    }
}

/// The expected-output part of a failing submission's case block.
pub open spec fn submit_expected(data: ResultData) -> Seq<LineModel> {
    if data.expected_output is Some {
        seq![one_span("    Expected:"@, fg(Color::Green))] + indented(
            "      "@,
            text_lines(data.expected_output->0@),
            fg(Color::Green),
        )
    } else {
        Seq::empty()
    }
}

/// The block a submission shows for the one failing case it reports:
/// nothing when the submission was accepted or the reply names no input,
/// expected output or output; else a failure heading, the input, the
/// stdout, the output and the expected output.
pub open spec fn submit_block(data: ResultData) -> Seq<LineModel> {
    if data.status_code == 10 || (data.last_testcase is None && data.expected_output is None
        && data.code_output is None) {
        Seq::empty()
    } else {
        seq![blank_line(), one_span("  Testcase "@ + "\u{2718}"@, fg_bold(Color::Red))]
            + submit_input(data) + submit_stdout(data) + submit_output(data) + submit_expected(data)
    }
}

/// Whether sample case `i` passed: the `i`-th byte of `compare_result`
/// is `'1'`; unknown when there is no such byte.
pub open spec fn case_verdict(compare: Option<String>, i: int) -> Option<bool> {
    match compare {
        Some(c) => {
            let b = vstd::utf8::encode_utf8(c@);
            if 0 <= i < b.len() {
                Some(b[i] == 49u8)
            } else {
                None
            }
        },
        None => None,
    }
}

/// Entry `i` of an optional list, when there is one.
pub open spec fn entry_at(o: Option<Seq<Seq<char>>>, i: int) -> Option<Seq<char>> {
    match o {
        Some(v) => if 0 <= i < v.len() {
            Some(v[i])
        } else {
            None
        },
        None => None,
    }
}

/// The mark and colour of a sample case's verdict.
pub open spec fn verdict_mark(verdict: Option<bool>) -> (Seq<char>, Color) {
    match verdict {
        Some(true) => ("\u{2714}"@, Color::Green),
        Some(false) => ("\u{2718}"@, Color::Red),
        None => ("\u{25cb}"@, Color::DarkGray),
    }
}

/// The heading and input of sample case `i`.
pub open spec fn case_head(data: ResultData, i: int, tc: Seq<char>) -> Seq<LineModel> {
    let (icon, color) = verdict_mark(case_verdict(data.compare_result, i));
    seq![
        blank_line(),
        one_span("  Testcase "@ + decimal((i + 1) as nat) + " "@ + icon, fg_bold(color)),
        one_span("    Input:"@, fg(Color::White)),
    ] + indented("      "@, text_lines(tc), fg(Color::Gray))
}

/// The stdout of sample case `i`, when it printed anything.
pub open spec fn case_stdout(data: ResultData, i: int) -> Seq<LineModel> {
    match entry_at(opt_views(data.per_case_stdout), i) {
        Some(s) => if without_trailing_newlines(s).len() > 0 {
            seq![one_span("    Stdout:"@, fg(Color::White))] + indented(
                "      "@,
                text_lines(without_trailing_newlines(s)),
                fg(Color::Gray),
            )
        } else {
            Seq::empty()
        },
        None => Seq::empty(),
    }
}

/// The output of sample case `i`: red when the case failed.
pub open spec fn case_output(data: ResultData, i: int) -> Seq<LineModel> {
    let oc = if case_verdict(data.compare_result, i) == Some(false) {
        Color::Red
    } else {
        Color::White
    };
    match entry_at(opt_views(data.per_case_output), i) {
        Some(o) => seq![one_span("    Output:"@, fg(oc))] + indented("      "@, text_lines(o), fg(oc)),
        None => Seq::empty(),
    }
}

/// The expected output of sample case `i`, unless the case passed.
pub open spec fn case_expected(data: ResultData, i: int) -> Seq<LineModel> {
    if case_verdict(data.compare_result, i) != Some(true) {
        match entry_at(opt_views(data.per_case_expected), i) {
            Some(e) => seq![one_span("    Expected:"@, fg(Color::Green))] + indented(
                "      "@,
                text_lines(e),
                fg(Color::Green),
            ),
            None => Seq::empty(),
        }
    } else {
        Seq::empty()
    }
}

/// The block of sample case `i` with input `tc`: heading with number and
/// verdict mark, the input, this case's own stdout, its output and,
/// unless it passed, its expected output.
pub open spec fn case_block(data: ResultData, i: int, tc: Seq<char>) -> Seq<LineModel> {
    case_head(data, i, tc) + case_stdout(data, i) + case_output(data, i) + case_expected(data, i)
}

/// The blocks of the first `n` sample cases.
pub open spec fn breakdown_upto(data: ResultData, tcs: Seq<Seq<char>>, n: int) -> Seq<LineModel>
    decreases n,
{
    if n <= 0 {
        Seq::empty()
    } else {
        breakdown_upto(data, tcs, n - 1) + case_block(data, n - 1, tcs[n - 1])
    }
}

/// One block per sample case, in order.
pub open spec fn breakdown(data: ResultData, tcs: Seq<Seq<char>>) -> Seq<LineModel> {
    breakdown_upto(data, tcs, tcs.len() as int)
}

/// The whole report: status, counts, runtime and memory, errors, then the
/// per-case breakdown of a run or the failing case of a submission.
pub open spec fn report(data: ResultData, kind: ResultKind, tcs: Seq<Seq<char>>) -> Seq<LineModel> {
    let (icon, color) = status_mark(data.status_code);
    seq![
        blank_line(),
        one_span("  "@ + icon + " "@ + data.status_msg@, fg_bold(color)),
        blank_line(),
    ] + passed_lines(data) + measure_lines("  Runtime: "@, data.runtime, data.runtime_percentile)
        + measure_lines("  Memory: "@, data.memory, data.memory_percentile) + error_lines(
        "  Compile Error:"@,
        "  "@,
        data.compile_err,
    ) + error_lines("  Runtime Error:"@, "    "@, data.runtime_error) + (if kind == ResultKind::Run {
        breakdown(data, tcs)
    } else {
        submit_block(data)
    })
}

fn push_line(out: &mut Vec<StyledLine>, line: StyledLine)
    ensures
        line_models(final(out)@) == line_models(old(out)@).push(line@),
{
    proof {
        assert(line_models(out@.push(line)) =~= line_models(out@).push(line@));
    }
    out.push(line);
}

fn push_passed(out: &mut Vec<StyledLine>, data: &ResultData)
    ensures
        line_models(final(out)@) == line_models(old(out)@) + passed_lines(*data),
{
    match (data.total_correct, data.total_testcases) {
        (Some(c), Some(t)) => {
            let mut counts = String::new();
            push_signed_decimal(&mut counts, c as i64);
            counts.append(" / ");
            push_signed_decimal(&mut counts, t as i64);
            let color = if c == t {
                Color::Green
            } else {
                Color::Yellow
            };
            let mut spans = Vec::new();
            spans.push(crate::styled::span_of(String::from_str("  Passed: "), Style::fg(Color::White)));
            spans.push(crate::styled::span_of(counts, Style::fg(color)));
            let line = StyledLine { spans };
            assert(line@ =~= passed_lines(*data)[0]);
            push_line(out, line);
            assert(line_models(out@) =~= line_models(old(out)@) + passed_lines(*data));
        },
        _ => {
            assert(line_models(out@) =~= line_models(old(out)@) + passed_lines(*data));
        },
    }
}

fn push_measure(out: &mut Vec<StyledLine>, label: &str, value: &Option<String>, p: &Option<Percentile>)
    ensures
        line_models(final(out)@) == line_models(old(out)@) + measure_lines(label@, *value, *p),
{
    match value {
        Some(v) => {
            let mut text = v.clone();
            let suffix = percentile_suffix(p);
            text.append(suffix.as_str());
            let mut spans = Vec::new();
            spans.push(crate::styled::span_of(String::from_str(label), Style::fg(Color::White)));
            spans.push(crate::styled::span_of(text, Style::fg(Color::Cyan)));
            let line = StyledLine { spans };
            assert(line@ =~= measure_lines(label@, *value, *p)[0]);
            push_line(out, line);
            assert(line_models(out@) =~= line_models(old(out)@) + measure_lines(label@, *value, *p));
        },
        None => {
            assert(line_models(out@) =~= line_models(old(out)@) + measure_lines(label@, *value, *p));
        },
    }
}

fn push_error(out: &mut Vec<StyledLine>, heading: &str, indent: &str, err: &Option<String>)
    ensures
        line_models(final(out)@) == line_models(old(out)@) + error_lines(heading@, indent@, *err),
{
    match err {
        Some(e) => {
            push_line(out, StyledLine::blank());
            push_line(out, StyledLine::text(heading, Style::fg_bold(Color::Red)));
            push_indented(out, indent, e.as_str(), Style::fg(Color::Red));
            assert(line_models(out@) =~= line_models(old(out)@) + error_lines(heading@, indent@, *err));
        },
        None => {
            assert(line_models(out@) =~= line_models(old(out)@) + error_lines(heading@, indent@, *err));
        },
    }
}

fn push_entries(out: &mut Vec<StyledLine>, v: &Vec<String>)
    ensures
        line_models(final(out)@) == line_models(old(out)@) + entries_lines(views(v@)),
{
    let ghost start = line_models(out@);
    let mut i: usize = 0;
    while i < v.len()
        invariant
            i <= v@.len(),
            line_models(out@) == start + entries_lines(views(v@).take(i as int)),
        decreases v@.len() - i,
    {
        push_indented(out, "      ", v[i].as_str(), Style::fg(Color::Gray));
        proof {
            assert(views(v@).take(i + 1).drop_last() =~= views(v@).take(i as int));
        }
        i = i + 1;
    }
    assert(views(v@).take(i as int) =~= views(v@));
}

fn push_submit_input(out: &mut Vec<StyledLine>, data: &ResultData)
    ensures
        line_models(final(out)@) == line_models(old(out)@) + submit_input(*data),
{
    if let Some(input) = &data.last_testcase {
        push_line(out, StyledLine::text("    Input:", Style::fg(Color::White)));
        push_indented(out, "      ", input.as_str(), Style::fg(Color::Gray));
    }
    assert(line_models(out@) =~= line_models(old(out)@) + submit_input(*data));
}

fn push_submit_stdout(out: &mut Vec<StyledLine>, data: &ResultData)
    ensures
        line_models(final(out)@) == line_models(old(out)@) + submit_stdout(*data),
{
    if let Some(stdout) = &data.stdout {
        if stdout.len() > 0 {
            push_line(out, StyledLine::text("    Stdout:", Style::fg(Color::White)));
            push_entries(out, stdout);
        }
    }
    assert(line_models(out@) =~= line_models(old(out)@) + submit_stdout(*data));
}

fn push_submit_output(out: &mut Vec<StyledLine>, data: &ResultData)
    ensures
        line_models(final(out)@) == line_models(old(out)@) + submit_output(*data),
{
    if let Some(output) = &data.code_output {
        push_line(out, StyledLine::text("    Output:", Style::fg(Color::Red)));
        push_each_indented(out, "      ", output, Style::fg(Color::Red));
    }
    assert(line_models(out@) =~= line_models(old(out)@) + submit_output(*data));
}

fn push_submit_expected(out: &mut Vec<StyledLine>, data: &ResultData)
    ensures
        line_models(final(out)@) == line_models(old(out)@) + submit_expected(*data),
{
    if let Some(expected) = &data.expected_output {
        push_line(out, StyledLine::text("    Expected:", Style::fg(Color::Green)));
        push_indented(out, "      ", expected.as_str(), Style::fg(Color::Green));
    }
    assert(line_models(out@) =~= line_models(old(out)@) + submit_expected(*data));
}

/// The block a submission shows for the single failing case it reports,
/// in the same visual language as a run's per-case breakdown; nothing
/// when the submission was accepted or names no case.
pub fn build_submit_case_block(data: &ResultData) -> (lines: Vec<StyledLine>)
    ensures
        line_models(lines@) == submit_block(*data),
{
    let mut lines: Vec<StyledLine> = Vec::new();
    let has_content = data.last_testcase.is_some() || data.expected_output.is_some()
        || data.code_output.is_some();
    if data.status_code == 10 || !has_content {
        assert(line_models(lines@) =~= submit_block(*data));
        return lines;
    }
    push_line(&mut lines, StyledLine::blank());
    push_line(
        &mut lines,
        StyledLine::span(concat("  Testcase ", "\u{2718}"), Style::fg_bold(Color::Red)),
    );
    let ghost head = line_models(lines@);
    push_submit_input(&mut lines, data);
    push_submit_stdout(&mut lines, data);
    push_submit_output(&mut lines, data);
    push_submit_expected(&mut lines, data);
    assert(line_models(lines@) =~= head + submit_input(*data) + submit_stdout(*data)
        + submit_output(*data) + submit_expected(*data));
    lines
}

fn verdict_of(compare: &Option<String>, i: usize) -> (res: Option<bool>)
    ensures
        res == case_verdict(*compare, i as int),
{
    match compare {
        Some(c) => {
            let b = c.as_str().as_bytes();
            if i < b.len() {
                Some(b[i] == 49u8)
            } else {
                None
            }
        },
        None => None,
    }
}

fn entry<'a>(o: &'a Option<Vec<String>>, i: usize) -> (res: Option<&'a String>)
    ensures
        match res {
            Some(s) => entry_at(opt_views(*o), i as int) == Some(s@),
            None => entry_at(opt_views(*o), i as int) is None,
        },
{
    match o {
        Some(v) => {
            if i < v.len() {
                Some(&v[i])
            } else {
                None
            }
        },
        None => None,
    }
}

fn push_case_head(out: &mut Vec<StyledLine>, data: &ResultData, i: usize, tc: &String)
    requires
        i < usize::MAX,
    ensures
        line_models(final(out)@) == line_models(old(out)@) + case_head(*data, i as int, tc@),
{
    let verdict = verdict_of(&data.compare_result, i);
    let (icon, color) = match verdict {
        Some(true) => ('\u{2714}', Color::Green),
        Some(false) => ('\u{2718}', Color::Red),
        None => ('\u{25cb}', Color::DarkGray),
    };
    let mut heading = String::from_str("  Testcase ");
    push_decimal(&mut heading, (i + 1) as u64);
    push_char(&mut heading, ' ');
    push_char(&mut heading, icon);
    proof {
        let (ic, _) = verdict_mark(verdict);
        reveal_strlit("\u{2714}");
        reveal_strlit("\u{2718}");
        reveal_strlit("\u{25cb}");
        assert(ic =~= seq![icon]);
        assert(heading@ =~= "  Testcase "@ + decimal((i + 1) as nat) + " "@ + ic) by {
            reveal_strlit(" ");
        }
    }
    push_line(out, StyledLine::blank());
    push_line(out, StyledLine::span(heading, Style::fg_bold(color)));
    push_line(out, StyledLine::text("    Input:", Style::fg(Color::White)));
    push_indented(out, "      ", tc.as_str(), Style::fg(Color::Gray));
    assert(line_models(out@) =~= line_models(old(out)@) + case_head(*data, i as int, tc@));
}

fn push_case_stdout(out: &mut Vec<StyledLine>, data: &ResultData, i: usize)
    ensures
        line_models(final(out)@) == line_models(old(out)@) + case_stdout(*data, i as int),
{
    if let Some(s) = entry(&data.per_case_stdout, i) {
        let t = trim_trailing_newlines(s.as_str());
        if t.as_str().unicode_len() > 0 {
            push_line(out, StyledLine::text("    Stdout:", Style::fg(Color::White)));
            push_indented(out, "      ", t.as_str(), Style::fg(Color::Gray));
        }
    }
    assert(line_models(out@) =~= line_models(old(out)@) + case_stdout(*data, i as int));
}

fn push_case_output(out: &mut Vec<StyledLine>, data: &ResultData, i: usize)
    ensures
        line_models(final(out)@) == line_models(old(out)@) + case_output(*data, i as int),
{
    let verdict = verdict_of(&data.compare_result, i);
    if let Some(o) = entry(&data.per_case_output, i) {
        let output_color = match verdict {
            Some(false) => Color::Red,
            _ => Color::White,
        };
        push_line(out, StyledLine::text("    Output:", Style::fg(output_color)));
        push_indented(out, "      ", o.as_str(), Style::fg(output_color));
    }
    assert(line_models(out@) =~= line_models(old(out)@) + case_output(*data, i as int));
}

fn push_case_expected(out: &mut Vec<StyledLine>, data: &ResultData, i: usize)
    ensures
        line_models(final(out)@) == line_models(old(out)@) + case_expected(*data, i as int),
{
    let verdict = verdict_of(&data.compare_result, i);
    let passed = match verdict {
        Some(true) => true,
        _ => false,
    };
    if !passed {
        if let Some(e) = entry(&data.per_case_expected, i) {
            push_line(out, StyledLine::text("    Expected:", Style::fg(Color::Green)));
            push_indented(out, "      ", e.as_str(), Style::fg(Color::Green));
        }
    }
    assert(line_models(out@) =~= line_models(old(out)@) + case_expected(*data, i as int));
}

/// One block per sample testcase: pass/fail marker, input, this run's
/// stdout, actual output, and (if it didn't pass) the expected output.
pub fn build_testcase_breakdown(data: &ResultData, testcases: &Vec<String>) -> (lines: Vec<StyledLine>)
    ensures
        line_models(lines@) == breakdown(*data, views(testcases@)),
{
    let mut lines: Vec<StyledLine> = Vec::new();
    let mut i: usize = 0;
    assert(line_models(lines@) =~= Seq::<LineModel>::empty());
    while i < testcases.len()
        invariant
            i <= testcases@.len(),
            line_models(lines@) == breakdown_upto(*data, views(testcases@), i as int),
        decreases testcases@.len() - i,
    {
        let ghost before = line_models(lines@);
        push_case_head(&mut lines, data, i, &testcases[i]);
        push_case_stdout(&mut lines, data, i);
        push_case_output(&mut lines, data, i);
        push_case_expected(&mut lines, data, i);
        assert(line_models(lines@) =~= before + case_block(*data, i as int, views(testcases@)[i as int]));
        i = i + 1;
    }
    lines
}

fn push_lines(out: &mut Vec<StyledLine>, more: Vec<StyledLine>)
    ensures
        line_models(final(out)@) == line_models(old(out)@) + line_models(more@),
{
    let mut more = more;
    let ghost m = more@;
    let ghost start = line_models(out@);
    out.append(&mut more);
    assert(line_models(out@) =~= start + line_models(m));
}

/// The report lines of a result: status, counts, runtime and memory with
/// percentiles, compile and runtime errors, then a run's per-case
/// breakdown or a submission's failing case.
pub fn build_result_lines(data: &ResultData, kind: ResultKind, testcases: &Vec<String>) -> (lines: Vec<StyledLine>)
    ensures
        line_models(lines@) == report(*data, kind, views(testcases@)),
{
    let mut lines: Vec<StyledLine> = Vec::new();
    push_line(&mut lines, StyledLine::blank());
    let (icon, color) = match data.status_code {
        10 => ("\u{2714}", Color::Green),
        20 => ("\u{2718}", Color::Red),
        14 => ("\u{23f1}", Color::Yellow),
        15 => ("!", Color::Red),
        _ => ("\u{2718}", Color::Red),
    };
    let mut status = concat("  ", icon);
    status.append(" ");
    status.append(data.status_msg.as_str());
    push_line(&mut lines, StyledLine::span(status, Style::fg_bold(color)));
    push_line(&mut lines, StyledLine::blank());
    let ghost head = line_models(lines@);
    push_passed(&mut lines, data);
    push_measure(&mut lines, "  Runtime: ", &data.runtime, &data.runtime_percentile);
    push_measure(&mut lines, "  Memory: ", &data.memory, &data.memory_percentile);
    push_error(&mut lines, "  Compile Error:", "  ", &data.compile_err);
    push_error(&mut lines, "  Runtime Error:", "    ", &data.runtime_error);
    let ghost body = line_models(lines@);
    match kind {
        ResultKind::Run => push_lines(&mut lines, build_testcase_breakdown(data, testcases)),
        ResultKind::Submit => push_lines(&mut lines, build_submit_case_block(data)),
    }
    assert(line_models(lines@) =~= report(*data, kind, views(testcases@)));
    lines
}

/// Where the result screen is: waiting for the judge, showing a result,
/// or showing an error.
#[derive(Debug, Clone)]
pub enum ResultStatus {
    Pending,
    Success(ResultData),
    Error(String),
}

/// What a key press on the result screen asks of the application.
#[derive(Debug, Clone, Copy, PartialEq, Eq, Structural)]
pub enum ResultAction {
    /// Nothing for the application to do.
    Nothing,
    Back,
    Quit,
}

/// The state of the result screen.
pub struct ResultState {
    pub kind: ResultKind,
    pub status: ResultStatus,
    pub problem_title: String,
    pub scroll_offset: u16,
    pub spinner_frame: usize,
    pub content_lines: Vec<StyledLine>,
    pub content_height: u16,
    pub detail: QuestionDetail,
}

/// What a key asks of the result screen: b, q and Esc go back, Ctrl+C
/// quits, everything else stays.
pub open spec fn result_key_action(key: KeyPress) -> ResultAction {
    match key.code {
        KeyCode::Char(c) => if c == 'b' || c == 'q' {
            ResultAction::Back
        } else if c == 'c' && key.ctrl {
            ResultAction::Quit
        } else {
            ResultAction::Nothing
        },
        KeyCode::Esc => ResultAction::Back,
        _ => ResultAction::Nothing,
    }
}

/// How far a key scrolls the report: j and Down one line down, k and Up
/// one line up.
pub open spec fn result_key_scroll(key: KeyPress) -> int {
    match key.code {
        KeyCode::Char(c) => if c == 'j' {
            1
        } else if c == 'k' {
            -1
        } else {
            0
        },
        KeyCode::Down => 1,
        KeyCode::Up => -1,
        _ => 0,
    }
}

/// The offset after scrolling by `delta`: never above zero lines, and
/// stored in 16 bits.
pub open spec fn scrolled(offset: u16, delta: int) -> u16 {
    if delta == 0 {
        offset
    } else {
        let n = offset + delta;
        (if n < 0 {
            0
        } else {
            n
        }) as u16
    }
}

/// The furthest the report can scroll with `len` lines in `height` rows:
/// the line count, kept to 16 bits, minus the height, at least zero.
pub open spec fn max_scroll(len: nat, height: u16) -> u16 {
    let total = len as u16;
    if total > height {
        (total - height) as u16
    } else {
        0
    }
}

/// The label of the screen's title for a kind of result.
pub open spec fn kind_label(kind: ResultKind) -> Seq<char> {
    match kind {
        ResultKind::Run => "Run (sample cases)"@,
        ResultKind::Submit => "Submit (all cases)"@,
    }
}

/// The style of the title badge.
pub open spec fn badge_style() -> Style {
    Style { fg: Some(Color::Black), bg: Some(Color::Yellow), bold: true }
}

/// What the screen shows while waiting: the spinner frame, what is
/// running, and the seconds elapsed at ten ticks a second.
pub open spec fn pending_message(kind: ResultKind, frame: usize) -> Seq<char> {
    "\n  "@ + seq![spinner_glyph((frame % 10) as int)] + " "@ + (match kind {
        ResultKind::Run => "Running"@,
        ResultKind::Submit => "Submitting"@,
    }) + "... ("@ + decimal((frame / 10) as nat) + "s)"@
}

impl ResultState {
    /// A result screen waiting for its result.
    pub fn new(kind: ResultKind, problem_title: String, detail: QuestionDetail) -> (s: ResultState)
        ensures
            s.kind == kind,
            s.status is Pending,
            s.problem_title == problem_title,
            s.scroll_offset == 0,
            s.spinner_frame == 0,
            s.content_lines@.len() == 0,
            s.content_height == 0,
            s.detail == detail,
    {
        ResultState {
            kind,
            status: ResultStatus::Pending,
            problem_title,
            scroll_offset: 0,
            spinner_frame: 0,
            content_lines: Vec::new(),
            content_height: 0,
            detail,
        }
    }

    /// Shows a result: its report, against the problem's sample cases.
    pub fn set_result(&mut self, data: ResultData)
        ensures
            line_models(final(self).content_lines@) == report(
                data,
                old(self).kind,
                sample_cases(old(self).detail),
            ),
            final(self).status == ResultStatus::Success(data),
            final(self).kind == old(self).kind,
            final(self).problem_title == old(self).problem_title,
            final(self).scroll_offset == old(self).scroll_offset,
            final(self).spinner_frame == old(self).spinner_frame,
            final(self).content_height == old(self).content_height,
            final(self).detail == old(self).detail,
    {
        let testcases = sample_testcases(&self.detail);
        self.content_lines = build_result_lines(&data, self.kind, &testcases);
        self.status = ResultStatus::Success(data);
    }

    /// Shows an error message in red.
    pub fn set_error(&mut self, msg: String)
        ensures
            line_models(final(self).content_lines@) == seq![
                blank_line(),
                one_span("  Error: "@ + msg@, fg(Color::Red)),
            ],
            final(self).status == ResultStatus::Error(msg),
            final(self).kind == old(self).kind,
            final(self).problem_title == old(self).problem_title,
            final(self).scroll_offset == old(self).scroll_offset,
            final(self).spinner_frame == old(self).spinner_frame,
            final(self).content_height == old(self).content_height,
            final(self).detail == old(self).detail,
    {
        let mut lines: Vec<StyledLine> = Vec::new();
        push_line(&mut lines, StyledLine::blank());
        push_line(&mut lines, StyledLine::span(concat("  Error: ", msg.as_str()), Style::fg(Color::Red)));
        assert(line_models(lines@) =~= seq![
            blank_line(),
            one_span("  Error: "@ + msg@, fg(Color::Red)),
        ]);
        self.content_lines = lines;
        self.status = ResultStatus::Error(msg);
    }

    /// Answers a key press: scrolls the report or asks to go back or quit.
    pub fn handle_key(&mut self, key: KeyPress) -> (res: ResultAction)
        ensures
            res == result_key_action(key),
            final(self).scroll_offset == scrolled(old(self).scroll_offset, result_key_scroll(key)),
            final(self).kind == old(self).kind,
            final(self).status == old(self).status,
            final(self).problem_title == old(self).problem_title,
            final(self).spinner_frame == old(self).spinner_frame,
            final(self).content_lines == old(self).content_lines,
            final(self).content_height == old(self).content_height,
            final(self).detail == old(self).detail,
    {
        match key.code {
            KeyCode::Char('b') | KeyCode::Char('q') | KeyCode::Esc => ResultAction::Back,
            KeyCode::Char('c') if key.ctrl => ResultAction::Quit,
            KeyCode::Char('j') | KeyCode::Down => {
                self.scroll(1);
                ResultAction::Nothing
            },
            KeyCode::Char('k') | KeyCode::Up => {
                self.scroll(-1);
                ResultAction::Nothing
            },
            _ => ResultAction::Nothing,
        }
    }

    fn scroll(&mut self, delta: i32)
        requires
            delta == 1 || delta == -1,
        ensures
            final(self).scroll_offset == scrolled(old(self).scroll_offset, delta as int),
            final(self).kind == old(self).kind,
            final(self).status == old(self).status,
            final(self).problem_title == old(self).problem_title,
            final(self).spinner_frame == old(self).spinner_frame,
            final(self).content_lines == old(self).content_lines,
            final(self).content_height == old(self).content_height,
            final(self).detail == old(self).detail,
    {
        let new_offset: i32 = self.scroll_offset as i32 + delta;
        let clamped: i32 = if new_offset < 0 {
            0
        } else {
            new_offset
        };
        self.scroll_offset = clamped as u16;
    }

    /// Records the height the report is drawn in and, once a result or an
    /// error is shown, keeps the scroll offset within the report.
    pub fn fit_to_height(&mut self, height: u16)
        ensures
            final(self).content_height == height,
            final(self).scroll_offset == (if old(self).status is Pending {
                old(self).scroll_offset
            } else if old(self).scroll_offset > max_scroll(old(self).content_lines@.len(), height) {
                max_scroll(old(self).content_lines@.len(), height)
            } else {
                old(self).scroll_offset
            }),
            final(self).kind == old(self).kind,
            final(self).status == old(self).status,
            final(self).problem_title == old(self).problem_title,
            final(self).spinner_frame == old(self).spinner_frame,
            final(self).content_lines == old(self).content_lines,
            final(self).detail == old(self).detail,
    {
        self.content_height = height;
        let pending = match self.status {
            ResultStatus::Pending => true,
            _ => false,
        };
        if !pending {
            let total_lines = self.content_lines.len() as u16;
            let max = if total_lines > height {
                total_lines - height
            } else {
                0
            };
            if self.scroll_offset > max {
                self.scroll_offset = max;
            }
        }
    }

    /// The waiting message, with the spinner frame and seconds elapsed.
    pub fn pending_text(&self) -> (s: String)
        ensures
            s@ == pending_message(self.kind, self.spinner_frame),
    {
        let mut s = String::from_str("\n  ");
        push_char(&mut s, spinner_char(self.spinner_frame));
        s.append(" ");
        match self.kind {
            ResultKind::Run => s.append("Running"),
            ResultKind::Submit => s.append("Submitting"),
        }
        s.append("... (");
        push_decimal(&mut s, (self.spinner_frame / 10) as u64);
        s.append("s)");
        assert(s@ =~= pending_message(self.kind, self.spinner_frame));
        s
    }

    /// The title line: a badge naming the kind of result, then the problem.
    pub fn title_line(&self) -> (l: StyledLine)
        ensures
            l@ == seq![
                (" "@ + kind_label(self.kind) + " Result "@, badge_style()),
                (" "@, plain()),
                (self.problem_title@, fg_bold(Color::White)),
            ],
    {
        let mut badge = String::from_str(" ");
        match self.kind {
            ResultKind::Run => badge.append("Run (sample cases)"),
            ResultKind::Submit => badge.append("Submit (all cases)"),
        }
        badge.append(" Result ");
        let mut spans = Vec::new();
        spans.push(
            crate::styled::span_of(
                badge,
                Style { fg: Some(Color::Black), bg: Some(Color::Yellow), bold: true },
            ),
        );
        spans.push(crate::styled::span_of(String::from_str(" "), Style::plain()));
        spans.push(crate::styled::span_of(self.problem_title.clone(), Style::fg_bold(Color::White)));
        let l = StyledLine { spans };
        assert(l@ =~= seq![
            (" "@ + kind_label(self.kind) + " Result "@, badge_style()),
            (" "@, plain()),
            (self.problem_title@, fg_bold(Color::White)),
        ]);
        l
    }
}


/// A submission's case block is empty exactly when the submission was
/// accepted or the reply names no input, no expected output and no output.
pub proof fn law_submit_block_empty(data: ResultData)
    ensures
        submit_block(data).len() == 0 <==> (data.status_code == 10 || (data.last_testcase is None
            && data.expected_output is None && data.code_output is None)),
{
}

/// Two reports agree on sample case `i`: the same
/// verdict byte and the same stdout, output and expected-output entries.
pub open spec fn same_case_entries(d1: ResultData, d2: ResultData, i: int) -> bool {
    &&& case_verdict(d1.compare_result, i) == case_verdict(d2.compare_result, i)
    &&& entry_at(opt_views(d1.per_case_stdout), i) == entry_at(opt_views(d2.per_case_stdout), i)
    &&& entry_at(opt_views(d1.per_case_output), i) == entry_at(opt_views(d2.per_case_output), i)
    &&& entry_at(opt_views(d1.per_case_expected), i) == entry_at(
        opt_views(d2.per_case_expected),
        i,
    )
}

/// The block of sample case `i` depends on that case's own verdict and its
/// own stdout, output and expected-output entries alone: whatever the other
/// entries of the lists hold, the block is the same.
pub proof fn law_case_block_local(d1: ResultData, d2: ResultData, i: int, tc: Seq<char>)
    requires
        same_case_entries(d1, d2, i),
    ensures
        case_block(d1, i, tc) == case_block(d2, i, tc),
{
}

proof fn lemma_breakdown_upto_local(d1: ResultData, d2: ResultData, tcs: Seq<Seq<char>>, n: int)
    requires
        n <= tcs.len(),
        forall|i: int| 0 <= i < n ==> #[trigger] same_case_entries(d1, d2, i),
    ensures
        breakdown_upto(d1, tcs, n) == breakdown_upto(d2, tcs, n),
    decreases n,
{
    if n > 0 {
        lemma_breakdown_upto_local(d1, d2, tcs, n - 1);
        assert(same_case_entries(d1, d2, n - 1));
        law_case_block_local(d1, d2, n - 1, tcs[n - 1]);
    }
}

/// A run's breakdown reads only the entries of the cases it lists: two
/// reports that agree on the verdict and the entries of each listed case
/// give the same breakdown, whatever they hold past the last case (such as
/// trailing padding entries) and whatever their overall stdout, output,
/// expected output and last input are.
pub proof fn law_breakdown_ignores_other_entries(
    d1: ResultData,
    d2: ResultData,
    tcs: Seq<Seq<char>>,
)
    requires
        forall|i: int| 0 <= i < tcs.len() ==> #[trigger] same_case_entries(d1, d2, i),
    ensures
        breakdown(d1, tcs) == breakdown(d2, tcs),
{
    lemma_breakdown_upto_local(d1, d2, tcs, tcs.len() as int);
}

proof fn lemma_printed_entries(v: Seq<Seq<char>>)
    ensures
        forall|k: int| 0 <= k < printed_entries(v).len() ==> (#[trigger] printed_entries(v)[k]).len() > 0
            && printed_entries(v)[k].last() != '\n',
    decreases v.len(),
{
    if v.len() > 0 {
        lemma_printed_entries(v.drop_last());
        lemma_no_trailing_newline(v.last());
        let r = printed_entries(v.drop_last());
        let t = without_trailing_newlines(v.last());
        assert forall|k: int| 0 <= k < printed_entries(v).len() implies (#[trigger] printed_entries(v)[k]).len() > 0
            && printed_entries(v)[k].last() != '\n' by {
            if k < r.len() {
                assert(printed_entries(v)[k] == r[k]);
            } else {
                assert(printed_entries(v)[k] == t);
            }
        }
    }
}

proof fn lemma_no_trailing_newline(s: Seq<char>)
    ensures
        without_trailing_newlines(s).len() > 0 ==> without_trailing_newlines(s).last() != '\n',
    decreases s.len(),
{
    if s.len() > 0 && s.last() == '\n' {
        lemma_no_trailing_newline(s.drop_last());
    }
}

/// The stdout a result shows is absent rather than empty, and none of its
/// entries is empty or ends in a line feed.
pub proof fn law_stdout_entries_printed(o: Option<Seq<Seq<char>>>)
    ensures
        shown_stdout(o) matches Some(v) ==> v.len() > 0 && forall|k: int| 0 <= k < v.len() ==> (
        #[trigger] v[k]).len() > 0 && v[k].last() != '\n',
{
    if let Some(v) = o {
        lemma_printed_entries(v);
    }
}

/// Scrolling one line down and one line up returns to the same offset
/// (below the 16-bit limit), and scrolling up at the top stays there.
pub proof fn law_scroll_down_up(offset: u16)
    ensures
        offset < u16::MAX ==> scrolled(scrolled(offset, 1), -1) == offset,
        scrolled(0, -1) == 0,
{
}

/// A reply that says "Accepted" (10) while `correct_answer` is false shows
/// as "Wrong Answer" (11), whatever its pass counts; a reply whose
/// `correct_answer` is not false shows its own status code.
pub proof fn law_misreported_accept_shown_wrong(resp: CheckResponse)
    ensures
        resp.correct_answer == Some(false) && resp.status_code == Some(10i32) ==> shown_status_code(resp)
            == 11 && shown_status_msg(resp) == "Wrong Answer"@,
        resp.status_code matches Some(c) ==> (resp.correct_answer != Some(false)
            ==> shown_status_code(resp) == c),
{
}

/// A run's report and a submission's report of the same reply agree line
/// for line up to their tails: a run's report ends with the per-sample-case
/// breakdown, a submission's with the block of its failing case.
pub proof fn law_report_tail(data: ResultData, tcs: Seq<Seq<char>>)
    ensures
        report(data, ResultKind::Run, tcs).len() >= breakdown(data, tcs).len(),
        report(data, ResultKind::Submit, tcs).len() >= submit_block(data).len(),
        report(data, ResultKind::Run, tcs).skip(
            report(data, ResultKind::Run, tcs).len() - breakdown(data, tcs).len(),
        ) == breakdown(data, tcs),
        report(data, ResultKind::Submit, tcs).skip(
            report(data, ResultKind::Submit, tcs).len() - submit_block(data).len(),
        ) == submit_block(data),
        report(data, ResultKind::Run, tcs).take(
            report(data, ResultKind::Run, tcs).len() - breakdown(data, tcs).len(),
        ) == report(data, ResultKind::Submit, tcs).take(
            report(data, ResultKind::Submit, tcs).len() - submit_block(data).len(),
        ),
{
    let r = report(data, ResultKind::Run, tcs);
    let s = report(data, ResultKind::Submit, tcs);
    let b = breakdown(data, tcs);
    let f = submit_block(data);
    let head = r.take(r.len() - b.len());
    assert(r == head + b);
    assert(r.skip(r.len() - b.len()) =~= b);
    assert(s.take(s.len() - f.len()) =~= head);
    assert(s.skip(s.len() - f.len()) =~= f);
}

/// The heading of sample case `i` carries its number and the verdict read
/// from the `i`-th byte of `compare_result`: a green tick when that byte is
/// '1' (and then no expected output), a red cross when it is another byte,
/// a dark grey circle when there is no such byte.
pub proof fn law_case_heading(data: ResultData, i: int, tc: Seq<char>)
    requires
        0 <= i,
    ensures
        case_block(data, i, tc).len() > 1,
        data.compare_result matches Some(c) && i < vstd::utf8::encode_utf8(c@).len()
            && vstd::utf8::encode_utf8(c@)[i] == 49u8 ==> case_block(data, i, tc)[1] == one_span(
            "  Testcase "@ + decimal((i + 1) as nat) + " "@ + "\u{2714}"@,
            fg_bold(Color::Green),
        ) && case_expected(data, i).len() == 0,
        data.compare_result matches Some(c) && i < vstd::utf8::encode_utf8(c@).len()
            && vstd::utf8::encode_utf8(c@)[i] != 49u8 ==> case_block(data, i, tc)[1] == one_span(
            "  Testcase "@ + decimal((i + 1) as nat) + " "@ + "\u{2718}"@,
            fg_bold(Color::Red),
        ),
        (data.compare_result matches Some(c) ==> i >= vstd::utf8::encode_utf8(c@).len())
            ==> case_block(data, i, tc)[1] == one_span(
            "  Testcase "@ + decimal((i + 1) as nat) + " "@ + "\u{25cb}"@,
            fg_bold(Color::DarkGray),
        ),
{
    let b = case_block(data, i, tc);
    let h = case_head(data, i, tc);
    assert(b[1] == h[1]);
}

proof fn lemma_breakdown_starts_with_first(data: ResultData, tcs: Seq<Seq<char>>, n: int)
    requires
        1 <= n <= tcs.len(),
    ensures
        breakdown_upto(data, tcs, n).len() > 1,
        breakdown_upto(data, tcs, n)[1] == case_block(data, 0, tcs[0])[1],
    decreases n,
{
    law_case_heading(data, 0, tcs[0]);
    if n > 1 {
        lemma_breakdown_starts_with_first(data, tcs, n - 1);
        let p = breakdown_upto(data, tcs, n - 1);
        assert((p + case_block(data, n - 1, tcs[n - 1]))[1] == p[1]);
    } else {
        assert(breakdown_upto(data, tcs, 0) =~= Seq::<LineModel>::empty());
        assert(breakdown_upto(data, tcs, 1) =~= case_block(data, 0, tcs[0]));
    }
}

/// A breakdown of at least one sample case opens with the numbered heading
/// of the first case.
pub proof fn law_breakdown_opens_with_first_case(data: ResultData, tcs: Seq<Seq<char>>)
    requires
        tcs.len() > 0,
    ensures
        breakdown(data, tcs).len() > 1,
        breakdown(data, tcs)[1] == case_block(data, 0, tcs[0])[1],
{
    lemma_breakdown_starts_with_first(data, tcs, tcs.len() as int);
}

} // verus!
