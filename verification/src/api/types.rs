//! The data the judge's API returns, as plain values.
use vstd::prelude::*;
use crate::text::{lines_of, text_lines, views, same_text};

verus! {

/// The envelope of every GraphQL reply.
#[derive(Debug)]
pub struct GraphQLResponse<T> {
    pub data: Option<T>,
}

/// Problem list reply.
#[derive(Debug)]
pub struct ProblemListData {
    pub problemset_question_list: Option<ProblemsetQuestionList>,
}

/// One page of the problem list.
#[derive(Debug)]
pub struct ProblemsetQuestionList {
    pub total: i32,
    pub questions: Vec<ProblemSummary>,
}

/// A problem as the list shows it. `ac_rate` holds the acceptance rate in
/// the shortest decimal notation that reads back as the same number.
#[derive(Debug, Clone)]
pub struct ProblemSummary {
    pub frontend_question_id: String,
    pub title: String,
    pub title_slug: String,
    pub difficulty: String,
    pub status: Option<String>,
    pub ac_rate: String,
    pub is_paid_only: bool,
    pub topic_tags: Vec<TopicTag>,
}

/// A topic tag.
#[derive(Debug, Clone)]
pub struct TopicTag {
    pub name: String,
    pub slug: String,
}

/// Problem detail reply.
#[derive(Debug)]
pub struct QuestionDetailData {
    pub question: Option<QuestionDetail>,
}

/// The full description of a problem.
#[derive(Debug, Clone)]
pub struct QuestionDetail {
    pub question_id: String,
    pub frontend_question_id: String,
    pub title: String,
    pub title_slug: String,
    pub difficulty: String,
    pub content: Option<String>,
    pub is_paid_only: bool,
    pub topic_tags: Vec<TopicTag>,
    pub code_snippets: Option<Vec<CodeSnippet>>,
    pub example_testcase_list: Option<Vec<String>>,
    pub sample_test_case: Option<String>,
    pub hints: Vec<String>,
    pub status: Option<String>,
}

/// The starting code of a problem in one language.
#[derive(Debug, Clone)]
pub struct CodeSnippet {
    pub lang: String,
    pub lang_slug: String,
    pub code: String,
}

/// Reply to a "Run" request.
#[derive(Debug)]
pub struct InterpretResponse {
    pub interpret_id: Option<String>,
    pub interpret_expected_id: Option<String>,
    pub test_case: Option<String>,
    pub error: Option<String>,
}

/// Reply to a "Submit" request.
#[derive(Debug)]
pub struct SubmitResponse {
    pub submission_id: Option<u64>,
    pub error: Option<String>,
}

/// A percentile as the result screen reads it: whether it is above zero,
/// its rendering with one decimal, and its shortest exact rendering.
#[derive(Debug, Clone, PartialEq)]
pub struct Percentile {
    pub above_zero: bool,
    pub one_decimal: String,
    pub exact: String,
}

/// A copy of a percentile.
pub fn copy_percentile(p: &Option<Percentile>) -> (res: Option<Percentile>)
    ensures
        res == *p,
{
    match p {
        Some(q) => Some(
            Percentile {
                above_zero: q.above_zero,
                one_decimal: q.one_decimal.clone(),
                exact: q.exact.clone(),
            },
        ),
        None => None,
    }
}

/// A reply field that comes either as a list of strings or as one string.
#[derive(Debug, Clone)]
pub enum StringOrVec {
    Vec(Vec<String>),
    String(String),
}

/// The list a `StringOrVec` field stands for: a list as it is, an empty
/// string as absent, and another string as its lines.
pub open spec fn string_or_vec_lines(v: Option<StringOrVec>) -> Option<Seq<Seq<char>>> {
    match v {
        Some(StringOrVec::Vec(v)) => Some(views(v@)),
        Some(StringOrVec::String(s)) => if s@.len() == 0 {
            None
        } else {
            Some(text_lines(s@))
        },
        None => None,
    }
}

/// Reads a field that the "Run" check sends as an array and the "Submit"
/// check as a single string: an array is kept, an empty string is absent,
/// another string is split into its lines.
pub fn flatten_string_or_vec(v: Option<StringOrVec>) -> (res: Option<Vec<String>>)
    ensures
        crate::text::opt_views(res) == string_or_vec_lines(v),
{
    match v {
        Some(StringOrVec::Vec(v)) => Some(v),
        Some(StringOrVec::String(s)) => {
            if s.as_str().unicode_len() == 0 {
                None
            } else {
                Some(lines_of(s.as_str()))
            }
        },
        None => None,
    }
}

/// Reply to a check of a pending run or submission. A field the reply
/// leaves out takes its default.
#[derive(Debug, Clone)]
pub struct CheckResponse {
    pub state: String,
    pub status_msg: Option<String>,
    pub status_code: Option<i32>,
    pub code_answer: Option<Vec<String>>,
    pub expected_code_answer: Option<Vec<String>>,
    pub code_output: Option<Vec<String>>,
    /// stdout captured from `print()`/debug output during execution, one
    /// entry per test case.
    pub std_output_list: Option<Vec<String>>,
    pub expected_output: Option<String>,
    pub last_testcase: Option<String>,
    pub total_correct: Option<i32>,
    pub total_testcases: Option<i32>,
    pub status_runtime: Option<String>,
    pub status_memory: Option<String>,
    pub compile_err: Option<String>,
    pub full_compile_error: Option<String>,
    /// Short and full runtime error text.
    pub runtime_error: Option<String>,
    pub full_runtime_error: Option<String>,
    pub correct_answer: Option<bool>,
    /// One char per sample testcase ('1' pass / '0' fail).
    pub compare_result: Option<String>,
    pub runtime_percentile: Option<Percentile>,
    pub memory_percentile: Option<Percentile>,
}

impl Default for CheckResponse {
    fn default() -> (r: CheckResponse)
        ensures
            r.state@ == Seq::<char>::empty(),
            r.status_msg is None,
            r.status_code is None,
            r.code_answer is None,
            r.expected_code_answer is None,
            r.code_output is None,
            r.std_output_list is None,
            r.expected_output is None,
            r.last_testcase is None,
            r.total_correct is None,
            r.total_testcases is None,
            r.status_runtime is None,
            r.status_memory is None,
            r.compile_err is None,
            r.full_compile_error is None,
            r.runtime_error is None,
            r.full_runtime_error is None,
            r.correct_answer is None,
            r.compare_result is None,
            r.runtime_percentile is None,
            r.memory_percentile is None,
    {
        CheckResponse {
            state: String::new(),
            status_msg: None,
            status_code: None,
            code_answer: None,
            expected_code_answer: None,
            code_output: None,
            std_output_list: None,
            expected_output: None,
            last_testcase: None,
            total_correct: None,
            total_testcases: None,
            status_runtime: None,
            status_memory: None,
            compile_err: None,
            full_compile_error: None,
            runtime_error: None,
            full_runtime_error: None,
            correct_answer: None,
            compare_result: None,
            runtime_percentile: None,
            memory_percentile: None,
        }
    }
}

/// Signed-in state reply.
#[derive(Debug)]
pub struct UserStatusData {
    pub user_status: Option<UserStatus>,
}

/// Whether someone is signed in, and who.
#[derive(Debug)]
pub struct UserStatus {
    pub is_signed_in: bool,
    pub username: Option<String>,
}

/// User profile reply.
#[derive(Debug)]
pub struct UserProfileData {
    pub matched_user: Option<MatchedUser>,
    pub all_questions_count: Option<Vec<DifficultyCount>>,
}

/// The profile of one user.
#[derive(Debug)]
pub struct MatchedUser {
    pub submit_stats: Option<SubmitStats>,
}

/// Accepted submissions per difficulty.
#[derive(Debug, Clone)]
pub struct SubmitStats {
    pub ac_submission_num: Vec<DifficultyCount>,
}

/// A count for one difficulty.
#[derive(Debug, Clone)]
pub struct DifficultyCount {
    pub difficulty: String,
    pub count: i32,
}

/// Favourite lists reply.
#[derive(Debug)]
pub struct FavoritesListData {
    pub favorites_lists: Option<FavoritesLists>,
}

/// All favourite lists of the user.
#[derive(Debug)]
pub struct FavoritesLists {
    pub all_favorites: Vec<FavoriteList>,
}

/// A favourite list and its problems.
#[derive(Debug, Clone)]
pub struct FavoriteList {
    pub id_hash: String,
    pub name: String,
    pub description: Option<String>,
    pub view_count: i32,
    pub creator: String,
    pub is_watched: bool,
    pub is_public_favorite: bool,
    pub questions: Vec<FavoriteQuestion>,
}

/// A problem in a favourite list; `status` is `"ac"`, `"notac"` or absent.
#[derive(Debug, Clone)]
pub struct FavoriteQuestion {
    pub question_id: String,
    pub status: Option<String>,
    pub title: String,
    pub title_slug: String,
}

/// Reply of the per-list question query.
#[derive(Debug)]
pub struct FavoriteQuestionListData {
    pub favorite_question_list: Option<FavoriteQuestionListResult>,
}

/// The questions of one favourite list.
#[derive(Debug)]
pub struct FavoriteQuestionListResult {
    pub questions: Vec<FavoriteQuestionNode>,
}

/// A question as the per-list query returns it; its `status` is the
/// uppercase enum ("SOLVED" / "TO_DO"), unlike the lowercase "ac" / "notac"
/// of `FavoriteQuestion::status`, and is normalized with
/// `normalize_favorite_status`.
#[derive(Debug)]
pub struct FavoriteQuestionNode {
    pub question_frontend_id: String,
    pub title: String,
    pub title_slug: String,
    pub status: Option<String>,
}

/// What `normalize_favorite_status` gives for a status.
pub open spec fn favorite_status(status: Option<Seq<char>>) -> Option<Seq<char>> {
    match status {
        Some(s) => if s == "SOLVED"@ {
            Some("ac"@)
        } else if s == "TO_DO"@ || s == "ATTEMPTED"@ {
            Some("notac"@)
        } else {
            None
        },
        None => None,
    }
}

/// Maps the per-list query's uppercase status enum ("SOLVED" / "TO_DO") to
/// the lowercase "ac" / "notac" convention of `FavoriteQuestion::status`
/// and the outline: `"SOLVED"` is `"ac"`, `"TO_DO"` (and `"ATTEMPTED"`) is
/// `"notac"`, anything else has no status.
pub fn normalize_favorite_status(status: Option<&str>) -> (res: Option<String>)
    ensures
        crate::text::opt_view(res) == favorite_status(
            match status {
                Some(s) => Some(s@),
                None => None,
            },
        ),
{
    match status {
        Some(s) => {
            if same_text(s, "SOLVED") {
                Some(String::from_str("ac"))
            } else if same_text(s, "TO_DO") || same_text(s, "ATTEMPTED") {
                Some(String::from_str("notac"))
            } else {
                None
            }
        },
        None => None,
    }
}

/// Solved and total counts per difficulty for one user.
#[derive(Debug, Clone)]
pub struct UserStats {
    pub username: String,
    pub easy_solved: i32,
    pub easy_total: i32,
    pub medium_solved: i32,
    pub medium_total: i32,
    pub hard_solved: i32,
    pub hard_total: i32,
}

} // verus!
