//! The favourite-lists screen: an outline of list headers, each expanded
//! list's problems nested beneath it, a cursor over those rows, and the
//! create and delete dialogs.
use vstd::prelude::*;
use std::collections::{HashMap, HashSet};
use crate::api::types::{FavoriteList, FavoriteQuestion};
use crate::text::{trimmed, trim, pop_char, push_char, copy_string, decimal, push_decimal};
use crate::styled::{
    Color, Style, StyledLine, LineModel, line_models, one_span, plain, fg, fg_bold, span_of, concat,
};
use crate::ui::spinner::{spinner_glyph, spinner_char};
use crate::ui::keys::{KeyPress, KeyCode};

verus! {

broadcast use vstd::std_specs::hash::group_hash_axioms;

/// One line of the outline: the header of list `i`, or problem `j` of
/// list `i` shown under its expanded header.
#[derive(Clone, Copy, Debug, PartialEq, Eq, Structural)]
pub enum Row {
    List(usize),
    Problem(usize, usize),
}

/// The list a row belongs to.
pub open spec fn row_list(r: Row) -> usize {
    match r {
        Row::List(i) => i,
        Row::Problem(i, _) => i,
    }
}

/// The rows of the first `n` lists: each header, followed by the list's
/// problems when the list is expanded.
pub open spec fn list_rows(lists: Seq<FavoriteList>, expanded: Set<usize>, n: int) -> Seq<Row>
    decreases n,
{
    if n <= 0 {
        Seq::empty()
    } else {
        list_rows(lists, expanded, n - 1) + seq![Row::List((n - 1) as usize)] + (if expanded.contains(
            (n - 1) as usize,
        ) {
            Seq::new(lists[n - 1].questions@.len(), |j: int| Row::Problem((n - 1) as usize, j as usize))
        } else {
            Seq::empty()
        })
    }
}

/// Problem `j` of list `i`, when both exist.
pub open spec fn problem_at(lists: Seq<FavoriteList>, i: usize, j: usize) -> Option<FavoriteQuestion> {
    if i < lists.len() && j < lists[i as int].questions@.len() {
        Some(lists[i as int].questions@[j as int])
    } else {
        None
    }
}

/// The state of the lists screen.
pub struct ListsState {
    pub lists: Vec<FavoriteList>,
    pub loading: bool,
    pub error_message: Option<String>,
    pub spinner_frame: usize,
    /// Index into the rows of the outline.
    pub cursor: usize,
    pub expanded: HashSet<usize>,
    pub loading_questions: HashSet<usize>,
    pub question_errors: HashMap<usize, String>,
    pub create_mode: bool,
    pub create_input: String,
    pub confirm_delete: bool,
}

/// What a key press on the lists screen asks of the application.
#[derive(Debug, Clone)]
pub enum ListsAction {
    /// Nothing for the application to do.
    Nothing,
    Back,
    OpenDetail(String),
    CreateList(String),
    DeleteList(String),
    RemoveProblem { id_hash: String, question_id: String },
    FetchListQuestions(String),
}


/// The first position of the header of list `i` in `rows`, when there is one.
pub open spec fn is_first_header(rows: Seq<Row>, i: usize, k: int) -> bool {
    &&& 0 <= k < rows.len()
    &&& rows[k] == Row::List(i)
    &&& forall|m: int| 0 <= m < k ==> rows[m] != Row::List(i)
}

/// Whether `rows` holds the header of list `i`.
pub open spec fn has_header(rows: Seq<Row>, i: usize) -> bool {
    exists|k: int| 0 <= k < rows.len() && rows[k] == Row::List(i)
}

/// "l" on a row: collapse its list (the cursor moving to the list's header)
/// or expand it (asking for its problems when it has none and none are
/// being fetched). Without a row, nothing changes.
pub open spec fn toggle_step(pre: ListsState, post: ListsState, res: ListsAction) -> bool {
    match pre.row_at() {
        None => post == pre && res == ListsAction::Nothing,
        Some(r) => {
            let i = row_list(r);
            if pre.expanded@.contains(i) {
                let rows = list_rows(pre.lists@, post.expanded@, pre.lists@.len() as int);
                &&& post.expanded@ == pre.expanded@.remove(i)
                &&& (has_header(rows, i) ==> is_first_header(rows, i, post.cursor as int))
                &&& (!has_header(rows, i) ==> post.cursor == pre.cursor)
                &&& post == (ListsState { expanded: post.expanded, cursor: post.cursor, ..pre })
                &&& res == ListsAction::Nothing
            } else {
                let fetch = i < pre.lists@.len() && pre.lists@[i as int].questions@.len() == 0
                    && !pre.loading_questions@.contains(i);
                &&& post.expanded@ == pre.expanded@.insert(i)
                &&& if fetch {
                    &&& post.loading_questions@ == pre.loading_questions@.insert(i)
                    &&& post.question_errors@ == pre.question_errors@.remove(i)
                    &&& post == (ListsState {
                        expanded: post.expanded,
                        loading_questions: post.loading_questions,
                        question_errors: post.question_errors,
                        ..pre
                    })
                    &&& res == ListsAction::FetchListQuestions(pre.lists@[i as int].id_hash)
                } else {
                    &&& post == (ListsState { expanded: post.expanded, ..pre })
                    &&& res == ListsAction::Nothing
                }
            }
        },
    }
}

/// Enter on a row: a problem asks for its detail page, a list header
/// toggles like "l".
pub open spec fn enter_step(pre: ListsState, post: ListsState, res: ListsAction) -> bool {
    match pre.row_at() {
        Some(Row::Problem(li, qi)) => post == pre && res == match problem_at(pre.lists@, li, qi) {
            Some(q) => ListsAction::OpenDetail(q.title_slug),
            None => ListsAction::Nothing,
        },
        Some(Row::List(_)) => toggle_step(pre, post, res),
        None => post == pre && res == ListsAction::Nothing,
    }
}

/// "d" on a row: a list header asks for confirmation, a problem asks to
/// be removed from its list.
pub open spec fn delete_step(pre: ListsState, post: ListsState, res: ListsAction) -> bool {
    match pre.row_at() {
        Some(Row::List(_)) => post == (ListsState { confirm_delete: true, ..pre }) && res
            == ListsAction::Nothing,
        Some(Row::Problem(li, qi)) => post == pre && res == match problem_at(pre.lists@, li, qi) {
            Some(q) => ListsAction::RemoveProblem {
                id_hash: pre.lists@[li as int].id_hash,
                question_id: q.question_id,
            },
            None => ListsAction::Nothing,
        },
        None => post == pre && res == ListsAction::Nothing,
    }
}

/// A key in the create dialog: Esc cancels, Enter submits the trimmed
/// name unless it is blank, a character is typed, Backspace erases. Esc
/// and Enter leave the dialog with its input cleared.
pub open spec fn create_step(pre: ListsState, post: ListsState, key: KeyPress, res: ListsAction) -> bool {
    match key.code {
        KeyCode::Esc => {
            &&& post.create_input@.len() == 0
            &&& post == (ListsState { create_mode: false, create_input: post.create_input, ..pre })
            &&& res == ListsAction::Nothing
        },
        KeyCode::Enter => {
            let name = trimmed(pre.create_input@);
            &&& post.create_input@.len() == 0
            &&& post == (ListsState { create_mode: false, create_input: post.create_input, ..pre })
            &&& if name.len() > 0 {
                res matches ListsAction::CreateList(n) && n@ == name
            } else {
                res == ListsAction::Nothing
            }
        },
        KeyCode::Char(c) => {
            &&& post.create_input@ == pre.create_input@.push(c)
            &&& post == (ListsState { create_input: post.create_input, ..pre })
            &&& res == ListsAction::Nothing
        },
        KeyCode::Backspace => {
            &&& post.create_input@ == (if pre.create_input@.len() > 0 {
                pre.create_input@.drop_last()
            } else {
                pre.create_input@
            })
            &&& post == (ListsState { create_input: post.create_input, ..pre })
            &&& res == ListsAction::Nothing
        },
        _ => post == pre && res == ListsAction::Nothing,
    }
}

/// A key in the delete confirmation: "y" or "Y" asks to delete the list
/// under the cursor; any key closes the confirmation.
pub open spec fn confirm_step(pre: ListsState, post: ListsState, key: KeyPress, res: ListsAction) -> bool {
    &&& post == (ListsState { confirm_delete: false, ..pre })
    &&& res == if key.code == KeyCode::Char('y') || key.code == KeyCode::Char('Y') {
        match pre.list_at() {
            Some(i) => ListsAction::DeleteList(pre.lists@[i as int].id_hash),
            None => ListsAction::Nothing,
        }
    } else {
        ListsAction::Nothing
    }
}

/// A key while browsing the outline.
pub open spec fn browse_step(pre: ListsState, post: ListsState, key: KeyPress, res: ListsAction) -> bool {
    match key.code {
        KeyCode::Esc => post == pre && res == ListsAction::Back,
        KeyCode::Down => post == (ListsState { cursor: pre.moved_cursor(1), ..pre }) && res
            == ListsAction::Nothing,
        KeyCode::Up => post == (ListsState { cursor: pre.moved_cursor(-1), ..pre }) && res
            == ListsAction::Nothing,
        KeyCode::Enter => enter_step(pre, post, res),
        KeyCode::Char(c) => if c == 'q' {
            post == pre && res == ListsAction::Back
        } else if c == 'j' {
            post == (ListsState { cursor: pre.moved_cursor(1), ..pre }) && res == ListsAction::Nothing
        } else if c == 'k' {
            post == (ListsState { cursor: pre.moved_cursor(-1), ..pre }) && res
                == ListsAction::Nothing
        } else if c == 'l' {
            toggle_step(pre, post, res)
        } else if c == 'n' {
            &&& post.create_input@.len() == 0
            &&& post == (ListsState { create_mode: true, create_input: post.create_input, ..pre })
            &&& res == ListsAction::Nothing
        } else if c == 'd' {
            delete_step(pre, post, res)
        } else {
            post == pre && res == ListsAction::Nothing
        },
        _ => post == pre && res == ListsAction::Nothing,
    }
}

/// How far a browsing key moves the cursor: j and Down one row down, k
/// and Up one row up.
pub open spec fn browse_move(key: KeyPress) -> int {
    match key.code {
        KeyCode::Down => 1,
        KeyCode::Up => -1,
        KeyCode::Char(c) => if c == 'j' {
            1
        } else if c == 'k' {
            -1
        } else {
            0
        },
        _ => 0,
    }
}

/// What a key does to the screen: the delete confirmation takes it first,
/// then the create dialog, else the outline.
pub open spec fn key_step(pre: ListsState, post: ListsState, key: KeyPress, res: ListsAction) -> bool {
    if pre.confirm_delete {
        confirm_step(pre, post, key, res)
    } else if pre.create_mode {
        create_step(pre, post, key, res)
    } else {
        browse_step(pre, post, key, res)
    }
}

/// Whether the arithmetic of a key's cursor move fits in 32 bits.
pub open spec fn key_fits(s: ListsState, key: KeyPress) -> bool {
    s.confirm_delete || s.create_mode || browse_move(key) == 0 || s.can_move(browse_move(key))
}

impl ListsState {
    /// The rows of the outline, recomputed from `lists` and `expanded`.
    pub open spec fn rows(self) -> Seq<Row> {
        list_rows(self.lists@, self.expanded@, self.lists@.len() as int)
    }

    /// The row under the cursor, if the cursor is on a row.
    pub open spec fn row_at(self) -> Option<Row> {
        if self.cursor < self.rows().len() {
            Some(self.rows()[self.cursor as int])
        } else {
            None
        }
    }

    /// The index of the list the cursor's row belongs to, when it exists.
    pub open spec fn list_at(self) -> Option<usize> {
        match self.row_at() {
            Some(r) => if row_list(r) < self.lists@.len() {
                Some(row_list(r))
            } else {
                None
            },
            None => None,
        }
    }

    /// The cursor after clamping: zero without rows, else at most the last row.
    pub open spec fn clamped_cursor(self) -> usize {
        let len = self.rows().len();
        if len == 0 {
            0
        } else if self.cursor >= len {
            (len - 1) as usize
        } else {
            self.cursor
        }
    }

    /// Whether moving the cursor by `delta` stays within what the 32-bit
    /// arithmetic of the move can hold.
    pub open spec fn can_move(self, delta: int) -> bool {
        let len = self.rows().len();
        len == 0 || (i32::MIN <= (self.cursor as i32) + delta <= i32::MAX && (len as i32) >= 1)
    }

    /// The cursor after moving by `delta`, clamped to the rows; computed,
    /// as the screen does, in 32-bit arithmetic.
    pub open spec fn moved_cursor(self, delta: int) -> usize {
        let len = self.rows().len();
        if len == 0 {
            self.cursor
        } else {
            let v = (self.cursor as i32) + delta;
            let hi = (len as i32) - 1;
            (if v < 0 {
                0
            } else if v > hi {
                hi
            } else {
                v
            }) as usize
        }
    }

    /// An empty screen, loading its lists.
    pub fn new() -> (s: ListsState)
        ensures
            s.lists@.len() == 0,
            s.loading,
            s.error_message is None,
            s.spinner_frame == 0,
            s.cursor == 0,
            s.expanded@ == Set::<usize>::empty(),
            s.loading_questions@ == Set::<usize>::empty(),
            s.question_errors@ == Map::<usize, String>::empty(),
            !s.create_mode,
            s.create_input@.len() == 0,
            !s.confirm_delete,
    {
        ListsState {
            lists: Vec::new(),
            loading: true,
            error_message: None,
            spinner_frame: 0,
            cursor: 0,
            expanded: HashSet::new(),
            loading_questions: HashSet::new(),
            question_errors: HashMap::new(),
            create_mode: false,
            create_input: String::new(),
            confirm_delete: false,
        }
    }

    /// The rows of the outline.
    pub fn build_rows(&self) -> (rows: Vec<Row>)
        ensures
            rows@ == self.rows(),
    {
        let mut rows: Vec<Row> = Vec::new();
        let mut i: usize = 0;
        while i < self.lists.len()
            invariant
                i <= self.lists@.len(),
                rows@ == list_rows(self.lists@, self.expanded@, i as int),
            decreases self.lists@.len() - i,
        {
            rows.push(Row::List(i));
            let ghost head = rows@;
            if self.expanded.contains(&i) {
                let m = self.lists[i].questions.len();
                let mut j: usize = 0;
                while j < m
                    invariant
                        i < self.lists@.len(),
                        m == self.lists@[i as int].questions@.len(),
                        j <= m,
                        rows@ == head + Seq::new(j as nat, |k: int| Row::Problem(i, k as usize)),
                    decreases m - j,
                {
                    rows.push(Row::Problem(i, j));
                    j = j + 1;
                    assert(rows@ =~= head + Seq::new(j as nat, |k: int| Row::Problem(i, k as usize)));
                }
                assert(rows@ =~= list_rows(self.lists@, self.expanded@, i + 1));
            } else {
                assert(rows@ =~= list_rows(self.lists@, self.expanded@, i + 1));
            }
            i = i + 1;
        }
        rows
    }

    fn current_row(&self) -> (r: Option<Row>)
        ensures
            r == self.row_at(),
    {
        let rows = self.build_rows();
        if self.cursor < rows.len() {
            Some(rows[self.cursor])
        } else {
            None
        }
    }

    /// The list the cursor's row belongs to, whether the row is the list
    /// header itself or one of its nested problems.
    fn current_list(&self) -> (l: Option<&FavoriteList>)
        ensures
            match self.list_at() {
                Some(i) => l == Some(&self.lists@[i as int]),
                None => l is None,
            },
    {
        match self.current_row() {
            Some(Row::List(i)) | Some(Row::Problem(i, _)) => {
                if i < self.lists.len() {
                    Some(&self.lists[i])
                } else {
                    None
                }
            },
            None => None,
        }
    }

    /// Keeps the cursor on a row: zero when there are none, else at most
    /// the last one.
    pub fn clamp_cursor(&mut self)
        ensures
            *final(self) == (ListsState { cursor: old(self).clamped_cursor(), ..*old(self) }),
    {
        let len = self.build_rows().len();
        if len == 0 {
            self.cursor = 0;
        } else if self.cursor >= len {
            self.cursor = len - 1;
        }
    }

    fn move_cursor(&mut self, delta: i32)
        requires
            old(self).can_move(delta as int),
        ensures
            *final(self) == (ListsState { cursor: old(self).moved_cursor(delta as int), ..*old(self) }),
    {
        let len = self.build_rows().len();
        if len == 0 {
            return ;
        }
        let v: i32 = self.cursor as i32 + delta;
        let hi: i32 = len as i32 - 1;
        let next: i32 = if v < 0 {
            0
        } else if v > hi {
            hi
        } else {
            v
        };
        self.cursor = next as usize;
    }

    fn row_index_of_list(&self, list_idx: usize) -> (res: Option<usize>)
        ensures
            match res {
                Some(k) => is_first_header(self.rows(), list_idx, k as int),
                None => !has_header(self.rows(), list_idx),
            },
    {
        let rows = self.build_rows();
        let mut k: usize = 0;
        while k < rows.len()
            invariant
                rows@ == self.rows(),
                k <= rows@.len(),
                forall|m: int| 0 <= m < k ==> rows@[m] != Row::List(list_idx),
            decreases rows@.len() - k,
        {
            if rows[k] == Row::List(list_idx) {
                return Some(k);
            }
            k = k + 1;
        }
        None
    }

    /// Expands or collapses the list the cursor is on (or the parent
    /// list, if the cursor is on one of its nested problems).
    fn toggle_expand(&mut self) -> (res: ListsAction)
        ensures
            toggle_step(*old(self), *final(self), res),
    {
        let list_idx = match self.current_row() {
            Some(Row::List(i)) | Some(Row::Problem(i, _)) => i,
            None => return ListsAction::Nothing,
        };
        if self.expanded.remove(&list_idx) {
            // Collapsing: if the cursor was on one of the now-hidden
            // problem rows, snap it back to the list header.
            if let Some(idx) = self.row_index_of_list(list_idx) {
                self.cursor = idx;
            }
            return ListsAction::Nothing;
        }
        proof {
            assert(old(self).expanded@.remove(list_idx) =~= old(self).expanded@);
        }
        self.expanded.insert(list_idx);
        let needs_fetch = list_idx < self.lists.len() && self.lists[list_idx].questions.len() == 0;
        if needs_fetch && !self.loading_questions.contains(&list_idx) {
            self.loading_questions.insert(list_idx);
            self.question_errors.remove(&list_idx);
            return ListsAction::FetchListQuestions(copy_string(&self.lists[list_idx].id_hash));
        }
        ListsAction::Nothing
    }

    fn handle_enter(&mut self) -> (res: ListsAction)
        ensures
            enter_step(*old(self), *final(self), res),
    {
        match self.current_row() {
            Some(Row::Problem(list_idx, q_idx)) => {
                if list_idx < self.lists.len() && q_idx < self.lists[list_idx].questions.len() {
                    ListsAction::OpenDetail(
                        copy_string(&self.lists[list_idx].questions[q_idx].title_slug),
                    )
                } else {
                    ListsAction::Nothing
                }
            },
            Some(Row::List(_)) => self.toggle_expand(),
            None => ListsAction::Nothing,
        }
    }

    fn handle_delete_key(&mut self) -> (res: ListsAction)
        ensures
            delete_step(*old(self), *final(self), res),
    {
        match self.current_row() {
            Some(Row::List(_)) => {
                self.confirm_delete = true;
                ListsAction::Nothing
            },
            Some(Row::Problem(list_idx, q_idx)) => {
                if list_idx < self.lists.len() && q_idx < self.lists[list_idx].questions.len() {
                    ListsAction::RemoveProblem {
                        id_hash: copy_string(&self.lists[list_idx].id_hash),
                        question_id: copy_string(&self.lists[list_idx].questions[q_idx].question_id),
                    }
                } else {
                    ListsAction::Nothing
                }
            },
            None => ListsAction::Nothing,
        }
    }

    fn handle_create_key(&mut self, key: KeyPress) -> (res: ListsAction)
        ensures
            create_step(*old(self), *final(self), key, res),
    {
        match key.code {
            KeyCode::Esc => {
                self.create_mode = false;
                self.create_input = String::new();
                ListsAction::Nothing
            },
            KeyCode::Enter => {
                self.create_mode = false;
                let name = trim(self.create_input.as_str());
                if name.as_str().unicode_len() > 0 {
                    self.create_input = String::new();
                    ListsAction::CreateList(name)
                } else {
                    self.create_input = String::new();
                    ListsAction::Nothing
                }
            },
            KeyCode::Char(c) => {
                push_char(&mut self.create_input, c);
                ListsAction::Nothing
            },
            KeyCode::Backspace => {
                pop_char(&mut self.create_input);
                ListsAction::Nothing
            },
            _ => ListsAction::Nothing,
        }
    }

    fn handle_confirm_delete(&mut self, key: KeyPress) -> (res: ListsAction)
        ensures
            confirm_step(*old(self), *final(self), key, res),
    {
        match key.code {
            KeyCode::Char('y') | KeyCode::Char('Y') => {
                let id = match self.current_list() {
                    Some(list) => Some(copy_string(&list.id_hash)),
                    None => None,
                };
                self.confirm_delete = false;
                match id {
                    Some(h) => ListsAction::DeleteList(h),
                    None => ListsAction::Nothing,
                }
            },
            _ => {
                self.confirm_delete = false;
                ListsAction::Nothing
            },
        }
    }

    /// Whether `handle_key` can take `key`: its cursor arithmetic fits in 32 bits.
    pub fn accepts_key(&self, key: KeyPress) -> (b: bool)
        ensures
            b == key_fits(*self, key),
    {
        if self.confirm_delete || self.create_mode {
            return true;
        }
        let delta: i64 = match key.code {
            KeyCode::Down => 1,
            KeyCode::Up => -1,
            KeyCode::Char('j') => 1,
            KeyCode::Char('k') => -1,
            _ => 0,
        };
        if delta == 0 {
            return true;
        }
        let len = self.build_rows().len();
        if len == 0 {
            return true;
        }
        let v: i64 = self.cursor as i32 as i64 + delta;
        v >= i32::MIN as i64 && v <= i32::MAX as i64 && len as i32 >= 1
    }

    /// Answers a key press: the delete confirmation takes it first, then
    /// the create dialog, else it moves the cursor, toggles a list, opens
    /// a problem, starts creating or deleting, or goes back.
    pub fn handle_key(&mut self, key: KeyPress) -> (res: ListsAction)
        requires
            key_fits(*old(self), key),
        ensures
            key_step(*old(self), *final(self), key, res),
    {
        if self.confirm_delete {
            return self.handle_confirm_delete(key);
        }
        if self.create_mode {
            return self.handle_create_key(key);
        }
        match key.code {
            KeyCode::Esc | KeyCode::Char('q') => ListsAction::Back,
            KeyCode::Char('j') | KeyCode::Down => {
                self.move_cursor(1);
                ListsAction::Nothing
            },
            KeyCode::Char('k') | KeyCode::Up => {
                self.move_cursor(-1);
                ListsAction::Nothing
            },
            KeyCode::Char('l') => self.toggle_expand(),
            KeyCode::Enter => self.handle_enter(),
            KeyCode::Char('n') => {
                self.create_mode = true;
                self.create_input = String::new();
                ListsAction::Nothing
            },
            KeyCode::Char('d') => self.handle_delete_key(),
            _ => ListsAction::Nothing,
        }
    }
}


/// The header line of a list: a chevron (down when expanded), the name,
/// the problem count and whether the list is public.
pub open spec fn header_line(list: FavoriteList, expanded: bool) -> LineModel {
    seq![
        (" "@ + seq![if expanded { '\u{25be}' } else { '\u{25b8}' }] + " "@, fg(Color::Cyan)),
        (list.name@, fg_bold(Color::White)),
        ("  "@, plain()),
        (decimal(list.questions@.len()) + " problems"@, fg(Color::DarkGray)),
        ("  "@, plain()),
        if list.is_public_favorite {
            ("Public"@, fg(Color::Green))
        } else {
            ("Private"@, fg(Color::DarkGray))
        },
    ]
}

/// The status mark of a problem: a green tick when accepted, a yellow dot
/// when attempted, else a blank.
pub open spec fn status_span(status: Option<String>) -> (Seq<char>, Style) {
    match status {
        Some(s) => if s@ == "ac"@ {
            ("\u{2714}"@, fg(Color::Green))
        } else if s@ == "notac"@ {
            ("\u{25cf}"@, fg(Color::Yellow))
        } else {
            (" "@, plain())
        },
        None => (" "@, plain()),
    }
}

/// The line of problem `j` (numbered from one) under an expanded list.
pub open spec fn problem_line(j: int, q: FavoriteQuestion) -> LineModel {
    seq![
        ("      "@ + decimal((j + 1) as nat) + ". "@, plain()),
        status_span(q.status),
        (" "@, plain()),
        (q.title@, fg(Color::White)),
    ]
}

/// The lines of the first `n` problems of a list.
pub open spec fn problem_lines(qs: Seq<FavoriteQuestion>, n: int) -> Seq<LineModel>
    decreases n,
{
    if n <= 0 {
        Seq::empty()
    } else {
        problem_lines(qs, n - 1).push(problem_line(n - 1, qs[n - 1]))
    }
}

/// What an expanded list shows beneath its header: a spinner while its
/// problems load, the error of the last fetch, a note that it is empty,
/// or its problems.
pub open spec fn expanded_lines(s: ListsState, i: int) -> Seq<LineModel> {
    let list = s.lists@[i];
    if s.loading_questions@.contains(i as usize) {
        seq![
            one_span(
                "      "@ + seq![spinner_glyph((s.spinner_frame % 10) as int)] + " Loading problems..."@,
                fg(Color::Yellow),
            ),
        ]
    } else if s.question_errors@.contains_key(i as usize) {
        seq![one_span("      Error: "@ + s.question_errors@[i as usize]@, fg(Color::Red))]
    } else if list.questions@.len() == 0 {
        seq![one_span("      (no problems)"@, fg(Color::DarkGray))]
    } else {
        problem_lines(list.questions@, list.questions@.len() as int)
    }
}

/// The outline lines of the first `n` lists.
pub open spec fn outline_upto(s: ListsState, n: int) -> Seq<LineModel>
    decreases n,
{
    if n <= 0 {
        Seq::empty()
    } else {
        let e = s.expanded@.contains((n - 1) as usize);
        outline_upto(s, n - 1).push(header_line(s.lists@[n - 1], e)) + (if e {
            expanded_lines(s, n - 1)
        } else {
            Seq::empty()
        })
    }
}

/// The outline of all lists.
pub open spec fn outline_lines(s: ListsState) -> Seq<LineModel> {
    outline_upto(s, s.lists@.len() as int)
}

/// What the body of the screen shows.
#[derive(Debug, Clone)]
pub enum ListsBody {
    /// The lists are loading and none has arrived: the loading message.
    Loading(String),
    /// Loading the lists failed: the error message.
    Error(String),
    /// The outline, and which of its lines is highlighted.
    Outline(Vec<StyledLine>, Option<usize>),
}

/// The hints of the status bar: the create dialog's, the confirmation's,
/// or the outline's.
pub open spec fn hints_for(create_mode: bool, confirm_delete: bool) -> Seq<(Seq<char>, Seq<char>)> {
    if create_mode {
        seq![("Enter"@, "Create"@), ("Esc"@, "Cancel"@)]
    } else if confirm_delete {
        seq![("y"@, "Confirm"@), ("any"@, "Cancel"@)]
    } else {
        seq![
            ("j/k"@, "Navigate"@),
            ("l"@, "Expand/collapse"@),
            ("Enter"@, "Open problem"@),
            ("n"@, "New List"@),
            ("d"@, "Delete"@),
            ("q/Esc"@, "Back"@),
            ("?"@, "Help"@),
        ]
    }
}

/// A rectangle of the terminal.
#[derive(Clone, Copy, Debug, PartialEq, Eq, Structural)]
pub struct Area {
    pub x: u16,
    pub y: u16,
    pub width: u16,
    pub height: u16,
}

/// `a - b`, or zero when `b` is larger.
pub open spec fn sat_sub(a: u16, b: u16) -> u16 {
    if a > b {
        (a - b) as u16
    } else {
        0
    }
}

/// The width of a dialog: at most `max_width`, and four columns narrower
/// than the area.
pub open spec fn dialog_width(area: Area, max_width: u16) -> u16 {
    let room = sat_sub(area.width, 4);
    if max_width < room {
        max_width
    } else {
        room
    }
}

/// Whether a dialog's position fits in 16 bits.
pub open spec fn dialog_fits(area: Area, max_width: u16, height: u16) -> bool {
    &&& area.x + sat_sub(area.width, dialog_width(area, max_width)) / 2 <= u16::MAX
    &&& area.y + sat_sub(area.height, height) / 2 <= u16::MAX
}

/// A dialog of `height` rows centred in the area.
pub open spec fn dialog_area(area: Area, max_width: u16, height: u16) -> Area {
    let w = dialog_width(area, max_width);
    Area {
        x: (area.x + sat_sub(area.width, w) / 2) as u16,
        y: (area.y + sat_sub(area.height, height) / 2) as u16,
        width: w,
        height,
    }
}

/// Whether a dialog's position fits in 16 bits.
pub fn dialog_fits_in(area: Area, max_width: u16, height: u16) -> (b: bool)
    ensures
        b == dialog_fits(area, max_width, height),
{
    let room: u16 = if area.width > 4 {
        area.width - 4
    } else {
        0
    };
    let w: u16 = if max_width < room {
        max_width
    } else {
        room
    };
    let free_w: u16 = if area.width > w {
        area.width - w
    } else {
        0
    };
    let free_h: u16 = if area.height > height {
        area.height - height
    } else {
        0
    };
    (area.x as u32) + (free_w / 2) as u32 <= 65535 && (area.y as u32) + (free_h / 2) as u32 <= 65535
}

/// The area of a dialog of at most `max_width` columns and `height` rows,
/// centred in `area`.
pub fn centered_dialog(area: Area, max_width: u16, height: u16) -> (r: Area)
    requires
        dialog_fits(area, max_width, height),
    ensures
        r == dialog_area(area, max_width, height),
{
    let room: u16 = if area.width > 4 {
        area.width - 4
    } else {
        0
    };
    let w: u16 = if max_width < room {
        max_width
    } else {
        room
    };
    let free_w: u16 = if area.width > w {
        area.width - w
    } else {
        0
    };
    let free_h: u16 = if area.height > height {
        area.height - height
    } else {
        0
    };
    Area { x: area.x + free_w / 2, y: area.y + free_h / 2, width: w, height }
}

/// The text of the create dialog: the name typed so far and a cursor bar.
pub open spec fn create_dialog_text(input: Seq<char>) -> Seq<char> {
    "\n "@ + input + "\u{258e}"@
}

/// The text of the delete confirmation for a list of `count` problems.
pub open spec fn confirm_dialog_text(name: Seq<char>, count: nat) -> Seq<char> {
    "\n Delete \""@ + name + "\""@ + (if count > 0 {
        " ("@ + decimal(count) + " problems)"@
    } else {
        Seq::empty()
    }) + "?\n (y) Yes  (any) Cancel"@
}

impl ListsState {
    /// The title line: a badge, then how many lists there are.
    pub fn title_line(&self) -> (l: StyledLine)
        ensures
            l@ == seq![
                (
                    " Lists "@,
                    Style { fg: Some(Color::Black), bg: Some(Color::Magenta), bold: true },
                ),
                (" "@, plain()),
                (decimal(self.lists@.len()) + " lists"@, fg(Color::DarkGray)),
            ],
    {
        let mut count = String::new();
        push_decimal(&mut count, self.lists.len() as u64);
        count.append(" lists");
        let mut spans = Vec::new();
        spans.push(
            span_of(
                String::from_str(" Lists "),
                Style { fg: Some(Color::Black), bg: Some(Color::Magenta), bold: true },
            ),
        );
        spans.push(span_of(String::from_str(" "), Style::plain()));
        spans.push(span_of(count, Style::fg(Color::DarkGray)));
        let l = StyledLine { spans };
        assert(l@ =~= seq![
            (" Lists "@, Style { fg: Some(Color::Black), bg: Some(Color::Magenta), bold: true }),
            (" "@, plain()),
            (decimal(self.lists@.len()) + " lists"@, fg(Color::DarkGray)),
        ]);
        l
    }

    /// The hints the status bar shows.
    pub fn status_hints(&self) -> (h: Vec<(&'static str, &'static str)>)
        ensures
            h@.map_values(|p: (&'static str, &'static str)| (p.0@, p.1@)) == hints_for(
                self.create_mode,
                self.confirm_delete,
            ),
    {
        let mut h: Vec<(&'static str, &'static str)> = Vec::new();
        if self.create_mode {
            h.push(("Enter", "Create"));
            h.push(("Esc", "Cancel"));
        } else if self.confirm_delete {
            h.push(("y", "Confirm"));
            h.push(("any", "Cancel"));
        } else {
            h.push(("j/k", "Navigate"));
            h.push(("l", "Expand/collapse"));
            h.push(("Enter", "Open problem"));
            h.push(("n", "New List"));
            h.push(("d", "Delete"));
            h.push(("q/Esc", "Back"));
            h.push(("?", "Help"));
        }
        assert(h@.map_values(|p: (&'static str, &'static str)| (p.0@, p.1@)) =~= hints_for(
            self.create_mode,
            self.confirm_delete,
        ));
        h
    }

    /// The text of the create dialog.
    pub fn create_dialog(&self) -> (t: String)
        ensures
            t@ == create_dialog_text(self.create_input@),
    {
        let mut t = concat("\n ", self.create_input.as_str());
        t.append("\u{258e}");
        t
    }

    /// The text of the delete confirmation for the list under the cursor,
    /// when the cursor is on a list.
    pub fn confirm_dialog(&self) -> (t: Option<String>)
        ensures
            match self.list_at() {
                Some(i) => t matches Some(s) && s@ == confirm_dialog_text(
                    self.lists@[i as int].name@,
                    self.lists@[i as int].questions@.len(),
                ),
                None => t is None,
            },
    {
        match self.current_list() {
            Some(list) => {
                let n = list.questions.len();
                let mut t = concat("\n Delete \"", list.name.as_str());
                t.append("\"");
                if n > 0 {
                    t.append(" (");
                    push_decimal(&mut t, n as u64);
                    t.append(" problems)");
                }
                t.append("?\n (y) Yes  (any) Cancel");
                assert(t@ =~= confirm_dialog_text(list.name@, list.questions@.len()));
                Some(t)
            },
            None => None,
        }
    }

    fn push_header(&self, out: &mut Vec<StyledLine>, i: usize, expanded: bool)
        requires
            i < self.lists@.len(),
        ensures
            line_models(final(out)@) == line_models(old(out)@).push(
                header_line(self.lists@[i as int], expanded),
            ),
    {
        let list = &self.lists[i];
        let mut chevron = String::from_str(" ");
        push_char(&mut chevron, if expanded { '\u{25be}' } else { '\u{25b8}' });
        chevron.append(" ");
        assert(chevron@ =~= " "@ + seq![if expanded { '\u{25be}' } else { '\u{25b8}' }] + " "@);
        let mut count = String::new();
        push_decimal(&mut count, list.questions.len() as u64);
        count.append(" problems");
        let mut spans = Vec::new();
        spans.push(span_of(chevron, Style::fg(Color::Cyan)));
        spans.push(span_of(list.name.clone(), Style::fg_bold(Color::White)));
        spans.push(span_of(String::from_str("  "), Style::plain()));
        spans.push(span_of(count, Style::fg(Color::DarkGray)));
        spans.push(span_of(String::from_str("  "), Style::plain()));
        if list.is_public_favorite {
            spans.push(span_of(String::from_str("Public"), Style::fg(Color::Green)));
        } else {
            spans.push(span_of(String::from_str("Private"), Style::fg(Color::DarkGray)));
        }
        let line = StyledLine { spans };
        assert(line@ =~= header_line(self.lists@[i as int], expanded));
        assert(line_models(out@.push(line)) =~= line_models(out@).push(line@));
        out.push(line);
    }

    fn push_problems(&self, out: &mut Vec<StyledLine>, i: usize)
        requires
            i < self.lists@.len(),
        ensures
            line_models(final(out)@) == line_models(old(out)@) + problem_lines(
                self.lists@[i as int].questions@,
                self.lists@[i as int].questions@.len() as int,
            ),
    {
        let qs = &self.lists[i].questions;
        let ghost start = line_models(out@);
        let mut j: usize = 0;
        while j < qs.len()
            invariant
                j <= qs@.len(),
                qs@ == self.lists@[i as int].questions@,
                line_models(out@) == start + problem_lines(qs@, j as int),
            decreases qs@.len() - j,
        {
            let q = &qs[j];
            let mut number = String::from_str("      ");
            push_decimal(&mut number, (j + 1) as u64);
            number.append(". ");
            let status = match &q.status {
                Some(st) => {
                    if crate::text::same_text(st.as_str(), "ac") {
                        span_of(String::from_str("\u{2714}"), Style::fg(Color::Green))
                    } else if crate::text::same_text(st.as_str(), "notac") {
                        span_of(String::from_str("\u{25cf}"), Style::fg(Color::Yellow))
                    } else {
                        span_of(String::from_str(" "), Style::plain())
                    }
                },
                None => span_of(String::from_str(" "), Style::plain()),
            };
            let mut spans = Vec::new();
            spans.push(span_of(number, Style::plain()));
            spans.push(status);
            spans.push(span_of(String::from_str(" "), Style::plain()));
            spans.push(span_of(q.title.clone(), Style::fg(Color::White)));
            let line = StyledLine { spans };
            assert(line@ =~= problem_line(j as int, qs@[j as int]));
            assert(line_models(out@.push(line)) =~= line_models(out@).push(line@));
            out.push(line);
            j = j + 1;
            assert(line_models(out@) =~= start + problem_lines(qs@, j as int));
        }
    }

    fn push_expanded(&self, out: &mut Vec<StyledLine>, i: usize)
        requires
            i < self.lists@.len(),
        ensures
            line_models(final(out)@) == line_models(old(out)@) + expanded_lines(*self, i as int),
    {
        let ghost start = line_models(out@);
        if self.loading_questions.contains(&i) {
            let mut t = String::from_str("      ");
            push_char(&mut t, spinner_char(self.spinner_frame));
            t.append(" Loading problems...");
            assert(t@ =~= "      "@ + seq![spinner_glyph((self.spinner_frame % 10) as int)]
                + " Loading problems..."@);
            let line = StyledLine::span(t, Style::fg(Color::Yellow));
            assert(line_models(out@.push(line)) =~= line_models(out@).push(line@));
            out.push(line);
        } else if let Some(err) = self.question_errors.get(&i) {
            assert(self.question_errors@.contains_key(i) && self.question_errors@[i] == *err);
            let line = StyledLine::span(concat("      Error: ", err.as_str()), Style::fg(Color::Red));
            assert(line_models(out@.push(line)) =~= line_models(out@).push(line@));
            out.push(line);
        } else if self.lists[i].questions.len() == 0 {
            assert(!self.question_errors@.contains_key(i));
            let line = StyledLine::text("      (no problems)", Style::fg(Color::DarkGray));
            assert(line_models(out@.push(line)) =~= line_models(out@).push(line@));
            out.push(line);
        } else {
            self.push_problems(out, i);
        }
        assert(line_models(out@) =~= start + expanded_lines(*self, i as int));
    }

    fn outline_items(&self) -> (items: Vec<StyledLine>)
        ensures
            line_models(items@) == outline_lines(*self),
    {
        let mut items: Vec<StyledLine> = Vec::new();
        let mut i: usize = 0;
        assert(line_models(items@) =~= Seq::<LineModel>::empty());
        while i < self.lists.len()
            invariant
                i <= self.lists@.len(),
                line_models(items@) == outline_upto(*self, i as int),
            decreases self.lists@.len() - i,
        {
            let expanded = self.expanded.contains(&i);
            self.push_header(&mut items, i, expanded);
            if expanded {
                self.push_expanded(&mut items, i);
            } else {
                assert(line_models(items@) =~= outline_upto(*self, i + 1));
            }
            i = i + 1;
        }
        items
    }

    /// The outline and its highlighted line. The cursor is clamped to the
    /// rows first; the highlight is the cursor's index, when there are lines.
    pub fn outline(&mut self) -> (res: (Vec<StyledLine>, Option<usize>))
        ensures
            line_models(res.0@) == outline_lines(*old(self)),
            res.1 == if res.0@.len() > 0 {
                Some(old(self).clamped_cursor())
            } else {
                None
            },
            *final(self) == (ListsState { cursor: old(self).clamped_cursor(), ..*old(self) }),
    {
        let items = self.outline_items();
        self.clamp_cursor();
        let selected = if items.len() > 0 {
            Some(self.cursor)
        } else {
            None
        };
        (items, selected)
    }

    /// What the body of the screen shows: the loading message while the
    /// first lists load, the error when loading failed, else the outline.
    pub fn body(&mut self) -> (b: ListsBody)
        ensures
            old(self).loading && old(self).lists@.len() == 0 ==> (b matches ListsBody::Loading(t)
                && t@ == " "@ + seq![spinner_glyph((old(self).spinner_frame % 10) as int)]
                + " Loading lists..."@ && *final(self) == *old(self)),
            !(old(self).loading && old(self).lists@.len() == 0) && old(self).error_message is Some
                ==> (b matches ListsBody::Error(t) && t@ == " Error: "@
                + old(self).error_message->0@ && *final(self) == *old(self)),
            !(old(self).loading && old(self).lists@.len() == 0) && old(self).error_message is None
                ==> (b matches ListsBody::Outline(items, sel) && line_models(items@) == outline_lines(
                *old(self),
            ) && sel == (if items@.len() > 0 {
                Some(old(self).clamped_cursor())
            } else {
                None
            }) && *final(self) == (ListsState { cursor: old(self).clamped_cursor(), ..*old(self) })),
    {
        if self.loading && self.lists.len() == 0 {
            let mut t = String::from_str(" ");
            push_char(&mut t, spinner_char(self.spinner_frame));
            t.append(" Loading lists...");
            ListsBody::Loading(t)
        } else if let Some(err) = &self.error_message {
            ListsBody::Error(concat(" Error: ", err.as_str()))
        } else {
            let (items, sel) = self.outline();
            ListsBody::Outline(items, sel)
        }
    }
}


/// What every row of the first `n` lists satisfies: a header names one of
/// those lists, a problem row names an existing problem of an expanded one.
pub open spec fn row_valid(lists: Seq<FavoriteList>, expanded: Set<usize>, n: int, r: Row) -> bool {
    match r {
        Row::List(i) => i < n,
        Row::Problem(i, j) => i < n && expanded.contains(i) && j < lists[i as int].questions@.len(),
    }
}

proof fn lemma_rows_prefix(lists: Seq<FavoriteList>, e: Set<usize>, a: int, b: int)
    requires
        0 <= a <= b,
    ensures
        list_rows(lists, e, a).len() <= list_rows(lists, e, b).len(),
        list_rows(lists, e, b).take(list_rows(lists, e, a).len() as int) == list_rows(lists, e, a),
    decreases b - a,
{
    if a == b {
        assert(list_rows(lists, e, b).take(list_rows(lists, e, a).len() as int) =~= list_rows(lists, e, a));
    } else {
        lemma_rows_prefix(lists, e, a, b - 1);
        let ra = list_rows(lists, e, a);
        let rb1 = list_rows(lists, e, b - 1);
        let rb = list_rows(lists, e, b);
        assert(rb.take(rb1.len() as int) =~= rb1);
        assert(rb.take(ra.len() as int) =~= rb1.take(ra.len() as int));
    }
}

proof fn lemma_rows_agree(lists: Seq<FavoriteList>, e1: Set<usize>, e2: Set<usize>, a: int)
    requires
        a <= usize::MAX + 1,
        forall|j: usize| (j as int) < a ==> (e1.contains(j) <==> e2.contains(j)),
    ensures
        list_rows(lists, e1, a) == list_rows(lists, e2, a),
    decreases a,
{
    if a > 0 {
        lemma_rows_agree(lists, e1, e2, a - 1);
        assert(e1.contains((a - 1) as usize) <==> e2.contains((a - 1) as usize));
    }
}

proof fn lemma_header_position(lists: Seq<FavoriteList>, e: Set<usize>, i: int, n: int)
    requires
        0 <= i < n,
        n <= usize::MAX + 1,
    ensures
        list_rows(lists, e, i).len() < list_rows(lists, e, n).len(),
        list_rows(lists, e, n)[list_rows(lists, e, i).len() as int] == Row::List(i as usize),
{
    lemma_rows_prefix(lists, e, i + 1, n);
    let ri1 = list_rows(lists, e, i + 1);
    let rn = list_rows(lists, e, n);
    assert(ri1[list_rows(lists, e, i).len() as int] == Row::List(i as usize));
    assert(rn.take(ri1.len() as int)[list_rows(lists, e, i).len() as int] == rn[list_rows(lists, e, i).len() as int]);
}

/// Every list's problem count fits in `usize`, as the length of a `Vec` does.
pub open spec fn counts_fit(lists: Seq<FavoriteList>) -> bool {
    forall|i: int| 0 <= i < lists.len() ==> #[trigger] lists[i].questions@.len() <= usize::MAX
}

proof fn lemma_rows_valid(lists: Seq<FavoriteList>, e: Set<usize>, n: int)
    requires
        0 <= n <= lists.len(),
        counts_fit(lists),
        n <= usize::MAX + 1,
    ensures
        forall|k: int| 0 <= k < list_rows(lists, e, n).len() ==> row_valid(lists, e, n, #[trigger] list_rows(lists, e, n)[k]),
        forall|k1: int, k2: int|
            0 <= k1 < k2 < list_rows(lists, e, n).len() ==> #[trigger] list_rows(lists, e, n)[k1] != #[trigger] list_rows(lists, e, n)[k2],
    decreases n,
{
    if n > 0 {
        lemma_rows_valid(lists, e, n - 1);
        let prev = list_rows(lists, e, n - 1);
        let rows = list_rows(lists, e, n);
        let i = (n - 1) as usize;
        assert forall|k: int| 0 <= k < rows.len() implies row_valid(lists, e, n, #[trigger] rows[k]) by {
            if k < prev.len() {
                assert(rows[k] == prev[k]);
                assert(row_valid(lists, e, n - 1, prev[k]));
            }
        }
        assert forall|k1: int, k2: int| 0 <= k1 < k2 < rows.len() implies #[trigger] rows[k1] != #[trigger] rows[k2] by {
            if k2 < prev.len() {
                assert(rows[k1] == prev[k1] && rows[k2] == prev[k2]);
            } else if k1 < prev.len() {
                assert(rows[k1] == prev[k1]);
                assert(row_valid(lists, e, n - 1, prev[k1]));
                assert(row_list(rows[k2]) == i);
            } else {
                let base = prev.len() + 1;
                let tail = Seq::new(lists[n - 1].questions@.len(), |j: int| Row::Problem(i, j as usize));
                assert(e.contains(i));
                assert(rows == prev + seq![Row::List(i)] + tail);
                assert(rows[k2] == tail[k2 - base]);
                if k1 == prev.len() {
                    assert(rows[k1] == Row::List(i));
                } else {
                    assert(rows[k1] == tail[k1 - base]);
                    assert(lists[n - 1].questions@.len() <= usize::MAX);
                    assert((k1 - base) as usize != (k2 - base) as usize);
                }
            }
        }
    }
}

/// The outline has one header row per list and nothing else but the
/// problems of expanded lists: every row names an existing list (and, for
/// a problem row, an existing problem of an expanded list), every list has
/// a header row, and no row occurs twice.
pub proof fn law_rows_match_lists(s: ListsState)
    requires
        s.lists@.len() <= usize::MAX,
        counts_fit(s.lists@),
    ensures
        forall|k: int| 0 <= k < s.rows().len() ==> row_valid(s.lists@, s.expanded@, s.lists@.len() as int, #[trigger] s.rows()[k]),
        forall|i: usize| (i as int) < s.lists@.len() ==> has_header(s.rows(), i),
        forall|k1: int, k2: int| 0 <= k1 < k2 < s.rows().len() ==> #[trigger] s.rows()[k1] != #[trigger] s.rows()[k2],
{
    lemma_rows_valid(s.lists@, s.expanded@, s.lists@.len() as int);
    assert forall|i: usize| (i as int) < s.lists@.len() implies has_header(s.rows(), i) by {
        lemma_header_position(s.lists@, s.expanded@, i as int, s.lists@.len() as int);
    }
}

/// Clamping puts the cursor on a row whenever there is one (at zero when
/// there is none), and clamping again changes nothing.
pub proof fn law_clamp_cursor(s: ListsState)
    ensures
        s.rows().len() > 0 ==> s.clamped_cursor() < s.rows().len(),
        s.rows().len() == 0 ==> s.clamped_cursor() == 0,
        (ListsState { cursor: s.clamped_cursor(), ..s }).clamped_cursor() == s.clamped_cursor(),
        s.cursor < s.rows().len() ==> s.clamped_cursor() == s.cursor,
{
}

/// Moving the cursor keeps it on a row.
pub proof fn law_move_stays_on_rows(s: ListsState, delta: int)
    requires
        s.can_move(delta),
        s.rows().len() > 0,
        s.rows().len() <= usize::MAX,
    ensures
        s.moved_cursor(delta) < s.rows().len(),
{
    let len = s.rows().len();
    let x = len as usize;
    assert((x as i32) <= x);
}

/// Toggling a list twice from its header row leaves the expanded lists
/// and the cursor as they were; when the list has problems or they are
/// being fetched, both toggles answer nothing and the whole state comes
/// back as it was.
pub proof fn law_toggle_twice(pre: ListsState, mid: ListsState, post: ListsState, r1: ListsAction, r2: ListsAction)
    requires
        pre.lists@.len() <= usize::MAX,
        counts_fit(pre.lists@),
        pre.row_at() matches Some(Row::List(_)),
        toggle_step(pre, mid, r1),
        toggle_step(mid, post, r2),
    ensures
        post.expanded@ == pre.expanded@,
        post.cursor == pre.cursor,
        pre.row_at() matches Some(Row::List(i)) && (pre.lists@[i as int].questions@.len() > 0
            || pre.loading_questions@.contains(i)) ==> r1 == ListsAction::Nothing && r2
            == ListsAction::Nothing && post == (ListsState { expanded: post.expanded, ..pre }),
{
    let n = pre.lists@.len() as int;
    let lists = pre.lists@;
    let e = pre.expanded@;
    let c = pre.cursor as int;
    let i = row_list(pre.rows()[c]);
    law_rows_match_lists(pre);
    assert(row_valid(lists, e, n, pre.rows()[c]));
    lemma_header_position(lists, e, i as int, n);
    let h = list_rows(lists, e, i as int).len() as int;
    assert(pre.rows()[h] == Row::List(i));
    assert(h == c);
    if e.contains(i) {
        let e1 = e.remove(i);
        assert(mid.expanded@ == e1);
        let mrows = list_rows(lists, e1, n);
        assert(mid.rows() == mrows);
        lemma_rows_agree(lists, e, e1, i as int);
        lemma_header_position(lists, e1, i as int, n);
        assert(mrows[h] == Row::List(i));
        assert(has_header(mrows, i));
        law_rows_match_lists(mid);
        assert(mid.cursor as int == h) by {
            if (mid.cursor as int) < h {
                assert(mrows[mid.cursor as int] == Row::List(i));
            } else if (mid.cursor as int) > h {
                assert(mrows[h] == Row::List(i));
            }
        }
        assert(mid.row_at() == Some(Row::List(i)));
        assert(!mid.expanded@.contains(i));
        assert(post.expanded@ =~= e);
    } else {
        let e1 = e.insert(i);
        assert(mid.expanded@ == e1);
        assert(mid.cursor == pre.cursor);
        let mrows = list_rows(lists, e1, n);
        assert(mid.rows() == mrows);
        lemma_rows_agree(lists, e, e1, i as int);
        lemma_header_position(lists, e1, i as int, n);
        assert(mid.row_at() == Some(Row::List(i)));
        assert(mid.expanded@.contains(i));
        assert(post.expanded@ =~= e);
        assert(post.expanded@ == e);
        let prows = list_rows(lists, post.expanded@, n);
        assert(prows == pre.rows());
        assert(has_header(prows, i));
        assert(post.cursor as int == h) by {
            if (post.cursor as int) < h {
                assert(prows[post.cursor as int] == Row::List(i));
            } else if (post.cursor as int) > h {
                assert(prows[h] == Row::List(i));
            }
        }
    }
}


/// A key while browsing: Esc and "q" go back, "j"/Down and "k"/Up move
/// the cursor one row, "l" toggles the list under the cursor, Enter acts
/// on the row, "n" opens an empty create dialog, "d" starts a deletion,
/// and any other key changes nothing.
pub proof fn law_browse_keys(pre: ListsState, post: ListsState, key: KeyPress, res: ListsAction)
    requires
        !pre.confirm_delete,
        !pre.create_mode,
        key_step(pre, post, key, res),
    ensures
        key.code == KeyCode::Esc || key.code == KeyCode::Char('q') ==> post == pre && res
            == ListsAction::Back,
        key.code == KeyCode::Down || key.code == KeyCode::Char('j') ==> post == (ListsState {
            cursor: pre.moved_cursor(1),
            ..pre
        }) && res == ListsAction::Nothing,
        key.code == KeyCode::Up || key.code == KeyCode::Char('k') ==> post == (ListsState {
            cursor: pre.moved_cursor(-1),
            ..pre
        }) && res == ListsAction::Nothing,
        key.code == KeyCode::Char('l') ==> toggle_step(pre, post, res),
        key.code == KeyCode::Enter ==> enter_step(pre, post, res),
        key.code == KeyCode::Char('n') ==> post.create_mode && post.create_input@.len() == 0
            && res == ListsAction::Nothing,
        key.code == KeyCode::Char('d') ==> delete_step(pre, post, res),
        key.code matches KeyCode::Char(c) && c != 'q' && c != 'j' && c != 'k' && c != 'l' && c
            != 'n' && c != 'd' ==> post == pre && res == ListsAction::Nothing,
        !(key.code is Esc || key.code is Up || key.code is Down || key.code is Enter
            || key.code is Char) ==> post == pre && res == ListsAction::Nothing,
{
}

/// Enter on the outline: on a problem row it asks for that problem's
/// detail page and changes nothing, on a list header it toggles the list
/// as "l" does, and off the rows it does nothing.
pub proof fn law_enter_key(pre: ListsState, post: ListsState, key: KeyPress, res: ListsAction)
    requires
        pre.lists@.len() <= usize::MAX,
        counts_fit(pre.lists@),
        key.code == KeyCode::Enter,
        !pre.confirm_delete,
        !pre.create_mode,
        key_step(pre, post, key, res),
    ensures
        pre.row_at() matches Some(Row::Problem(i, j)) ==> post == pre && res
            == ListsAction::OpenDetail(pre.lists@[i as int].questions@[j as int].title_slug),
        pre.row_at() matches Some(Row::List(_)) ==> toggle_step(pre, post, res),
        pre.row_at() is None ==> post == pre && res == ListsAction::Nothing,
{
    law_rows_match_lists(pre);
    if pre.cursor < pre.rows().len() {
        assert(row_valid(pre.lists@, pre.expanded@, pre.lists@.len() as int, pre.rows()[pre.cursor as int]));
    }
}

/// The statuses `normalize_favorite_status` produces are the ones the
/// outline marks: "SOLVED" shows a green tick, "TO_DO" and "ATTEMPTED" a
/// yellow dot.
pub proof fn law_normalized_status_marked(status: Seq<char>, shown: String)
    requires
        crate::api::types::favorite_status(Some(status)) == Some(shown@),
    ensures
        status == "SOLVED"@ ==> status_span(Some(shown)) == ("\u{2714}"@, fg(Color::Green)),
        status == "TO_DO"@ ==> status_span(Some(shown)) == ("\u{25cf}"@, fg(Color::Yellow)),
        status == "ATTEMPTED"@ ==> status_span(Some(shown)) == ("\u{25cf}"@, fg(Color::Yellow)),
{
    reveal_strlit("SOLVED");
    reveal_strlit("ATTEMPTED");
    reveal_strlit("TO_DO");
    reveal_strlit("ac");
    reveal_strlit("notac");
    assert("ac"@.len() == 2 && "notac"@.len() == 5);
    assert("SOLVED"@.len() == 6 && "ATTEMPTED"@.len() == 9);
    assert("notac"@ != "ac"@);
    assert("ATTEMPTED"@ != "SOLVED"@);
    assert("TO_DO"@.len() == 5);
    assert("TO_DO"@ != "SOLVED"@);
}

/// In the delete confirmation any key closes it; "y" and "Y" alike ask to
/// delete the list of the row under the cursor, and every other key asks
/// for nothing and changes nothing else.
pub proof fn law_confirm_delete_keys(pre: ListsState, post: ListsState, key: KeyPress, res: ListsAction)
    requires
        pre.lists@.len() <= usize::MAX,
        counts_fit(pre.lists@),
        pre.confirm_delete,
        key_step(pre, post, key, res),
    ensures
        !post.confirm_delete,
        pre.row_at() matches Some(r) ==> ((key.code == KeyCode::Char('y') || key.code
            == KeyCode::Char('Y')) ==> res == ListsAction::DeleteList(
            pre.lists@[row_list(r) as int].id_hash,
        )),
        !(key.code == KeyCode::Char('y') || key.code == KeyCode::Char('Y')) ==> res
            == ListsAction::Nothing && post == (ListsState { confirm_delete: false, ..pre }),
{
    law_rows_match_lists(pre);
    if pre.cursor < pre.rows().len() {
        assert(row_valid(pre.lists@, pre.expanded@, pre.lists@.len() as int, pre.rows()[pre.cursor as int]));
    }
}

} // verus!
