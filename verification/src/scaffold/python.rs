//! The Python solution file started for a problem: a commented header
//! with the problem's description, then the judge's starting code.
use vstd::prelude::*;
use crate::api::types::{QuestionDetail, CodeSnippet};
use crate::text::{lines_of, text_lines, views, same_text};

verus! {

/// The error type of the HTML renderer.
#[verifier::external_type_specification]
#[verifier::external_body]
pub struct ExHtmlError(html2text::Error);

/// The plain text `html2text` renders for `html` wrapped to `width`
/// columns, or `None` when it refuses to render.
pub uninterp spec fn html_text(html: Seq<char>, width: usize) -> Option<Seq<char>>;

/// `html2text::from_read` over the bytes of `html`: renders the HTML as
/// plain text wrapped to `width` columns. The contract claims only that
/// the outcome is a function of the HTML's characters and the width
/// (named `html_text`); what the text holds is left to that crate.
#[verifier::external_body]
fn render_html(html: &str, width: usize) -> (res: Result<String, html2text::Error>)
    ensures
        match res {
            Ok(t) => html_text(html@, width) == Some(t@),
            Err(_) => html_text(html@, width) is None,
        },
{
    html2text::from_read(html.as_bytes(), width)
}

/// The width the description is wrapped to.
pub const DESCRIPTION_WIDTH: usize = 80;

/// The most description lines the header keeps.
pub const DESCRIPTION_LINES: usize = 50;

/// The name of the directory of a problem's solution: its number, a dash,
/// and its slug.
pub open spec fn dir_name(detail: QuestionDetail) -> Seq<char> {
    detail.frontend_question_id@ + "-"@ + detail.title_slug@
}

/// The directory name of a problem's solution.
pub fn scaffold_dir_name(detail: &QuestionDetail) -> (name: String)
    ensures
        name@ == dir_name(*detail),
{
    let mut name = detail.frontend_question_id.clone();
    name.append("-");
    name.append(detail.title_slug.as_str());
    name
}

/// The code of the first Python 3 snippet, when there is one.
pub open spec fn first_python(snippets: Seq<CodeSnippet>) -> Option<Seq<char>>
    decreases snippets.len(),
{
    if snippets.len() == 0 {
        None
    } else if snippets[0].lang_slug@ == "python3"@ {
        Some(snippets[0].code@)
    } else {
        first_python(snippets.drop_first())
    }
}

/// The starting code the file gets: the Python 3 snippet, or a comment
/// saying there is none.
pub open spec fn python_snippet(snippets: Option<Vec<CodeSnippet>>) -> Seq<char> {
    match snippets {
        Some(v) => match first_python(v@) {
            Some(code) => code,
            None => "# No Python snippet available for this problem\n"@,
        },
        None => "# No Python snippet available for this problem\n"@,
    }
}

/// Each line as a comment line: `"# "`, the line, a line feed.
pub open spec fn commented(ls: Seq<Seq<char>>) -> Seq<char>
    decreases ls.len(),
{
    if ls.len() == 0 {
        Seq::empty()
    } else {
        commented(ls.drop_last()) + "# "@ + ls.last() + "\n"@
    }
}

/// The first fifty lines of a text, commented.
pub open spec fn description_comment(text: Seq<char>) -> Seq<char> {
    let ls = text_lines(text);
    commented(
        if ls.len() > 50 {
            ls.take(50)
        } else {
            ls
        },
    )
}

/// The whole file for a problem whose description renders as `description`
/// (`None` when the problem has no description).
pub open spec fn solution_text(detail: QuestionDetail, description: Option<Seq<char>>) -> Seq<char> {
    "# "@ + detail.frontend_question_id@ + ": "@ + detail.title@ + "\n"@ + "# Difficulty: "@
        + detail.difficulty@ + "\n"@ + "# https://leetcode.com/problems/"@ + detail.title_slug@
        + "/\n"@ + "#\n"@ + (match description {
        Some(t) => description_comment(t),
        None => Seq::empty(),
    }) + "\n"@ + python_snippet(detail.code_snippets) + "\n"@
}

/// The description a problem's file shows: the rendered text of its HTML,
/// empty when the renderer refuses; none without HTML.
pub open spec fn rendered_description(detail: QuestionDetail) -> Option<Seq<char>> {
    match detail.content {
        Some(h) => Some(
            match html_text(h@, 80) {
                Some(t) => t,
                None => Seq::empty(),
            },
        ),
        None => None,
    }
}

fn find_python(snippets: &Option<Vec<CodeSnippet>>) -> (code: String)
    ensures
        code@ == python_snippet(*snippets),
{
    match snippets {
        Some(v) => {
            let mut i: usize = 0;
            assert(v@.skip(0) =~= v@);
            while i < v.len()
                invariant
                    i <= v@.len(),
                    *snippets == Some(*v),
                    first_python(v@) == first_python(v@.skip(i as int)),
                decreases v@.len() - i,
            {
                proof {
                    assert(v@.skip(i as int).drop_first() =~= v@.skip(i + 1));
                    assert(v@.skip(i as int)[0] == v@[i as int]);
                }
                if same_text(v[i].lang_slug.as_str(), "python3") {
                    assert(first_python(v@.skip(i as int)) == Some(v@[i as int].code@));
                    let code = v[i].code.clone();
                    return code;
                }
                i = i + 1;
            }
            assert(v@.skip(i as int).len() == 0);
            String::from_str("# No Python snippet available for this problem\n")
        },
        None => String::from_str("# No Python snippet available for this problem\n"),
    }
}

fn append_comment(src: &mut String, text: &str)
    ensures
        final(src)@ == old(src)@ + description_comment(text@),
{
    let ls = lines_of(text);
    let n = if ls.len() > DESCRIPTION_LINES {
        DESCRIPTION_LINES
    } else {
        ls.len()
    };
    let ghost start = src@;
    let ghost kept = if views(ls@).len() > 50 {
        views(ls@).take(50)
    } else {
        views(ls@)
    };
    let mut i: usize = 0;
    assert(kept.take(0) =~= Seq::<Seq<char>>::empty());
    while i < n
        invariant
            n == kept.len(),
            n <= ls@.len(),
            kept == views(ls@).take(n as int),
            i <= n,
            src@ == start + commented(kept.take(i as int)),
        decreases n - i,
    {
        src.append("# ");
        src.append(ls[i].as_str());
        src.append("\n");
        proof {
            assert(kept.take(i + 1).drop_last() =~= kept.take(i as int));
            assert(kept.take(i + 1).last() == ls@[i as int]@);
        }
        i = i + 1;
    }
    assert(kept.take(n as int) =~= kept);
}

/// The file for a problem whose description rendered as `description`:
/// a header with number, title, difficulty and link, the description's
/// first fifty lines as comments, then the Python 3 starting code.
pub fn solution_source(detail: &QuestionDetail, description: Option<&str>) -> (src: String)
    ensures
        src@ == solution_text(
            *detail,
            match description {
                Some(t) => Some(t@),
                None => None,
            },
        ),
{
    let mut src = String::from_str("# ");
    src.append(detail.frontend_question_id.as_str());
    src.append(": ");
    src.append(detail.title.as_str());
    src.append("\n");
    src.append("# Difficulty: ");
    src.append(detail.difficulty.as_str());
    src.append("\n");
    src.append("# https://leetcode.com/problems/");
    src.append(detail.title_slug.as_str());
    src.append("/\n");
    src.append("#\n");
    if let Some(text) = description {
        append_comment(&mut src, text);
    }
    src.append("\n");
    let snippet = find_python(&detail.code_snippets);
    src.append(snippet.as_str());
    src.append("\n");
    src
}

/// The file for a problem: its description rendered from HTML to plain
/// text wrapped at 80 columns (empty when the renderer refuses), then as
/// `solution_source` lays it out.
pub fn scaffold_source(detail: &QuestionDetail) -> (src: String)
    ensures
        src@ == solution_text(*detail, rendered_description(*detail)),
{
    match &detail.content {
        Some(html) => {
            let text = match render_html(html.as_str(), DESCRIPTION_WIDTH) {
                Ok(t) => t,
                Err(_) => String::new(),
            };
            solution_source(detail, Some(text.as_str()))
        },
        None => solution_source(detail, None),
    }
}

/// The starting code comes from the first snippet whose language slug is
/// exactly "python3": when snippet `k` is the first with that slug, its
/// code is chosen, whatever snippets (of "python" or any other language)
/// come before it; when no snippet has that slug, none is chosen.
pub proof fn law_first_python(snippets: Seq<CodeSnippet>)
    ensures
        forall|k: int|
            0 <= k < snippets.len() && #[trigger] snippets[k].lang_slug@ == "python3"@ && (forall|j: int|
                0 <= j < k ==> snippets[j].lang_slug@ != "python3"@) ==> first_python(snippets)
                == Some(snippets[k].code@),
        (forall|k: int| 0 <= k < snippets.len() ==> #[trigger] snippets[k].lang_slug@ != "python3"@)
            ==> first_python(snippets) is None,
    decreases snippets.len(),
{
    if snippets.len() > 0 {
        let rest = snippets.drop_first();
        law_first_python(rest);
        assert forall|k: int|
            0 <= k < snippets.len() && #[trigger] snippets[k].lang_slug@ == "python3"@ && (forall|j: int|
                0 <= j < k ==> snippets[j].lang_slug@ != "python3"@) implies first_python(snippets)
                == Some(snippets[k].code@) by {
            if k > 0 {
                assert(snippets[0].lang_slug@ != "python3"@);
                assert(rest[k - 1] == snippets[k]);
                assert forall|j: int| 0 <= j < k - 1 implies rest[j].lang_slug@ != "python3"@ by {
                    assert(rest[j] == snippets[j + 1]);
                }
            }
        }
        if forall|k: int| 0 <= k < snippets.len() ==> #[trigger] snippets[k].lang_slug@ != "python3"@ {
            assert(snippets[0].lang_slug@ != "python3"@);
            assert forall|k: int| 0 <= k < rest.len() implies #[trigger] rest[k].lang_slug@ != "python3"@ by {
                assert(rest[k] == snippets[k + 1]);
            }
        }
    }
}

} // verus!
