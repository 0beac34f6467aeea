//! The SQL statements that change the database, with their bound
//! arguments, and the decisions that choose them.

use vstd::prelude::*;
use crate::model::{
    CheckResult, ExamineResult, InsertExamine, UpdateExamination, UpdateExamine, UpdatePaper,
};
use crate::text::{push_i64, int_decimal};

verus! {

/// An argument bound to a `?` of a statement.
#[derive(Clone, Debug)]
pub enum SqlArg {
    Int(i64),
    Int32(i32),
    Tiny(i8),
    Text(String),
    /// A list of texts, bound as JSON.
    JsonTexts(Vec<String>),
    /// A list of numbers, bound as JSON.
    JsonInts(Vec<i64>),
    /// The local wall-clock time of the server, read once per statement.
    LocalNow,
    /// The current time shifted eight hours east (`Local::now() + UTC+8`).
    ShiftedNow,
}

/// The content of an argument.
pub enum SqlArgView {
    Int(i64),
    Int32(i32),
    Tiny(i8),
    Text(Seq<char>),
    JsonTexts(Seq<Seq<char>>),
    JsonInts(Seq<i64>),
    LocalNow,
    ShiftedNow,
}

impl View for SqlArg {
    type V = SqlArgView;

    open spec fn view(&self) -> SqlArgView {
        match self {
            SqlArg::Int(v) => SqlArgView::Int(*v),
            SqlArg::Int32(v) => SqlArgView::Int32(*v),
            SqlArg::Tiny(v) => SqlArgView::Tiny(*v),
            SqlArg::Text(s) => SqlArgView::Text(s@),
            SqlArg::JsonTexts(v) => SqlArgView::JsonTexts(v@.map_values(|s: String| s@)),
            SqlArg::JsonInts(v) => SqlArgView::JsonInts(v@),
            SqlArg::LocalNow => SqlArgView::LocalNow,
            SqlArg::ShiftedNow => SqlArgView::ShiftedNow,
        }
    }
}

/// A statement with `?` placeholders and the arguments bound to them,
/// in order.
#[derive(Clone, Debug)]
pub struct Statement {
    pub sql: String,
    pub args: Vec<SqlArg>,
}

impl View for Statement {
    type V = (Seq<char>, Seq<SqlArgView>);

    open spec fn view(&self) -> (Seq<char>, Seq<SqlArgView>) {
        (self.sql@, self.args@.map_values(|a: SqlArg| a@))
    }
}

/// A lowercase hexadecimal digit.
pub open spec fn hex_lower(d: int) -> char {
    if d < 10 { (48 + d) as char } else { (87 + d) as char }
}

/// How serde_json writes one character inside a JSON string: `"` and `\`
/// get a backslash, the controls 0x08, 0x09, 0x0A, 0x0C, 0x0D become
/// `\b \t \n \f \r`, the other controls below 0x20 become `\u00xx`
/// (lowercase hex), and every other character is written as it is.
pub open spec fn json_char(c: char) -> Seq<char> {
    let v = c as int;
    if c == '"' {
        seq!['\\', '"']
    } else if c == '\\' {
        seq!['\\', '\\']
    } else if v == 8 {
        seq!['\\', 'b']
    } else if v == 9 {
        seq!['\\', 't']
    } else if v == 10 {
        seq!['\\', 'n']
    } else if v == 12 {
        seq!['\\', 'f']
    } else if v == 13 {
        seq!['\\', 'r']
    } else if v < 32 {
        seq!['\\', 'u', '0', '0', hex_lower(v / 16), hex_lower(v % 16)]
    } else {
        seq![c]
    }
}

/// The escaped characters of a text.
pub open spec fn json_escaped(s: Seq<char>) -> Seq<char>
    decreases s.len(),
{
    if s.len() == 0 {
        Seq::empty()
    } else {
        json_escaped(s.drop_last()) + json_char(s.last())
    }
}

/// A text as a JSON string literal.
pub open spec fn json_string(s: Seq<char>) -> Seq<char> {
    seq!['"'] + json_escaped(s) + seq!['"']
}

/// The string literals of a list, separated by commas.
pub open spec fn json_items(list: Seq<Seq<char>>) -> Seq<char>
    decreases list.len(),
{
    if list.len() == 0 {
        Seq::empty()
    } else if list.len() == 1 {
        json_string(list[0])
    } else {
        json_items(list.drop_last()) + seq![','] + json_string(list.last())
    }
}

/// The compact JSON array of a list of strings, as
/// `serde_json::Value::from(list).to_string()` writes it.
pub open spec fn json_text_array(list: Seq<Seq<char>>) -> Seq<char> {
    seq!['['] + json_items(list) + seq![']']
}

/// `serde_json::Value::from(list).to_string()`: the compact JSON array of
/// the strings (`Display` of a `Value` uses the compact formatter; the
/// escapes are those of serde_json's `ESCAPE` table).
#[verifier::external_body]
fn json_array_text(list: &Vec<String>) -> (res: String)
    ensures
        res@ == json_text_array(list@.map_values(|s: String| s@)),
{
    serde_json::Value::from(list.clone()).to_string()
}

fn text(s: &str) -> (res: SqlArg)
    ensures
        res@ == SqlArgView::Text(s@),
{
    SqlArg::Text(s.to_owned())
}

fn texts(v: &Vec<String>) -> (res: SqlArg)
    ensures
        res@ == SqlArgView::JsonTexts(v@.map_values(|s: String| s@)),
{
    let c = v.clone();
    assert(c@ =~= v@);
    SqlArg::JsonTexts(c)
}

fn ints(v: &Vec<i64>) -> (res: SqlArg)
    ensures
        res@ == SqlArgView::JsonInts(v@),
{
    let c = v.clone();
    assert(c@ =~= v@);
    SqlArg::JsonInts(c)
}

fn statement(sql: &str, args: Vec<SqlArg>) -> (res: Statement)
    ensures
        res.sql@ == sql@,
        res.args == args,
{
    Statement { sql: sql.to_owned(), args }
}

// ---------------------------------------------------------------------
// Reading
// ---------------------------------------------------------------------

/// The statement that finds the active account (status 1) with a name.
pub open spec fn select_active_user_spec(username: Seq<char>) -> (Seq<char>, Seq<SqlArgView>) {
    ("select * from sys_user where username = ? and status = 1"@, seq![SqlArgView::Text(username)])
}

/// Finds the active account (status 1) with the name `username`.
pub fn select_active_user(username: &str) -> (res: Statement)
    ensures
        res@ == select_active_user_spec(username@),
{
    let res = statement("select * from sys_user where username = ? and status = 1", vec![text(username)]);
    assert(res@.1 =~= seq![SqlArgView::Text(username@)]);
    res
}

/// The rows a listing shows: the rows read, or `fallback` when the query
/// failed (one default row for most listings, none for some).
pub fn rows_or<T>(rows: Option<Vec<T>>, fallback: Vec<T>) -> (res: Vec<T>)
    ensures
        res@ == match rows {
            Some(r) => r@,
            None => fallback@,
        },
{
    match rows {
        Some(r) => r,
        None => fallback,
    }
}

// ---------------------------------------------------------------------
// Papers
// ---------------------------------------------------------------------

/// The status a paper takes when its status is toggled: an open paper
/// (1) closes (0); any other status opens (1).
pub open spec fn toggled_status(status: i64) -> i64 {
    if status == 1 { 0 } else { 1 }
}

/// Toggles the status of paper `id`, whose current status is `status`.
pub fn update_paper_status(id: i64, status: i64) -> (res: Statement)
    ensures
        res@ == ("update org_paper set status = ? where id = ?"@, seq![
            SqlArgView::Int(toggled_status(status)),
            SqlArgView::Int(id),
        ]),
{
    let new_status: i64 = match status {
        1 => 0,
        _ => 1,
    };
    let res = statement(
        "update org_paper set status = ? where id = ?",
        vec![SqlArg::Int(new_status), SqlArg::Int(id)],
    );
    assert(res@.1 =~= seq![SqlArgView::Int(toggled_status(status)), SqlArgView::Int(id)]);
    res
}

/// Adds a paper to a union.
pub fn insert_paper(title: &str, union_id: i64) -> (res: Statement)
    ensures
        res@ == (
            "INSERT INTO org_paper (title, union_id, create_time, update_time) VALUES (?, ?, ?, ?)"@,
            seq![
                SqlArgView::Text(title@),
                SqlArgView::Int(union_id),
                SqlArgView::LocalNow,
                SqlArgView::LocalNow,
            ],
        ),
{
    let res = statement(
        "INSERT INTO org_paper (title, union_id, create_time, update_time) VALUES (?, ?, ?, ?)",
        vec![text(title), SqlArg::Int(union_id), SqlArg::LocalNow, SqlArg::LocalNow],
    );
    assert(res@.1 =~= seq![
        SqlArgView::Text(title@),
        SqlArgView::Int(union_id),
        SqlArgView::LocalNow,
        SqlArgView::LocalNow,
    ]);
    res
}

/// A request to add a paper: refused (`None`, nothing inserted) when the
/// title is empty; a union id of 0 stands for union 1.
pub fn insert_paper_request(paper: &UpdatePaper) -> (res: Option<Statement>)
    ensures
        paper.title@.len() == 0 ==> res is None,
        paper.title@.len() > 0 ==> (res matches Some(st) && st@ == insert_paper_spec(
            paper.title@,
            if paper.union_id == 0 { 1 } else { paper.union_id },
        )),
{
    if paper.title.as_str().is_empty() {
        return None;
    }
    let union_id: i64 = match paper.union_id {
        0 => 1,
        _ => paper.union_id,
    };
    Some(insert_paper(paper.title.as_str(), union_id))
}

/// The statement `insert_paper` builds.
pub open spec fn insert_paper_spec(title: Seq<char>, union_id: i64) -> (Seq<char>, Seq<SqlArgView>) {
    (
        "INSERT INTO org_paper (title, union_id, create_time, update_time) VALUES (?, ?, ?, ?)"@,
        seq![
            SqlArgView::Text(title),
            SqlArgView::Int(union_id),
            SqlArgView::LocalNow,
            SqlArgView::LocalNow,
        ],
    )
}

/// The SQL text of a paper update: an empty title and a union id of 0
/// leave those columns alone; the title is written into the text between
/// single quotes as it is.
pub open spec fn update_paper_sql(title: Seq<char>, union_id: i64) -> Seq<char> {
    "update org_paper set "@ + (if title.len() == 0 {
        Seq::<char>::empty()
    } else {
        "title = '"@ + title + "', "@
    }) + (if union_id == 0 {
        Seq::<char>::empty()
    } else {
        "union_id = "@ + int_decimal(union_id as int) + ", "@
    }) + "update_time = ? where id = ?"@
}

/// Updates the title and/or union of paper `id` and stamps it.
pub fn update_paper(id: i64, title: &str, union_id: i64) -> (res: Statement)
    ensures
        res@ == (update_paper_sql(title@, union_id), seq![SqlArgView::LocalNow, SqlArgView::Int(id)]),
{
    let mut sql = String::from_str("update org_paper set ");
    if !title.is_empty() {
        sql.append("title = '");
        sql.append(title);
        sql.append("', ");
    }
    if union_id != 0 {
        sql.append("union_id = ");
        push_i64(&mut sql, union_id);
        sql.append(", ");
    }
    sql.append("update_time = ? where id = ?");
    proof {
        let e = Seq::<char>::empty();
        assert("update org_paper set "@ + e =~= "update org_paper set "@);
        assert(("update org_paper set "@ + e) + e =~= "update org_paper set "@);
    }
    assert(sql@ =~= update_paper_sql(title@, union_id));
    let res = Statement { sql, args: vec![SqlArg::LocalNow, SqlArg::Int(id)] };
    assert(res@.1 =~= seq![SqlArgView::LocalNow, SqlArgView::Int(id)]);
    res
}

/// Deletes paper `id`, then the questions of that paper.
pub fn delete_paper(id: i64) -> (res: (Statement, Statement))
    ensures
        res.0@ == ("delete from org_paper where id = ?"@, seq![SqlArgView::Int(id)]),
        res.1@ == ("delete from org_examine where paper_id = ?"@, seq![SqlArgView::Int(id)]),
{
    let a = statement("delete from org_paper where id = ?", vec![SqlArg::Int(id)]);
    let b = statement("delete from org_examine where paper_id = ?", vec![SqlArg::Int(id)]);
    assert(a@.1 =~= seq![SqlArgView::Int(id)]);
    assert(b@.1 =~= seq![SqlArgView::Int(id)]);
    (a, b)
}

/// The rows a deletion of a paper reports: those of the paper and those
/// of its questions, added.
pub fn delete_paper_rows(paper_rows: u64, examine_rows: u64) -> (res: u64)
    requires
        paper_rows + examine_rows <= u64::MAX,
    ensures
        res == paper_rows + examine_rows,
{
    paper_rows + examine_rows
}

// ---------------------------------------------------------------------
// Questions
// ---------------------------------------------------------------------

/// The answer list a new question starts with.
pub open spec fn default_answers() -> Seq<Seq<char>> {
    seq!["默认答案，请删除本答案并添加"@]
}

/// Adds a question to a paper, with the default answer list and answer 1.
pub fn insert_examine(problem: &str, paper_id: i64) -> (res: Statement)
    ensures
        res@ == (
            "INSERT INTO org_examine (problem, answers, correct_answer, paper_id, create_time, update_time) VALUES (?, ?, ?, ?, ?, ?)"@,
            seq![
                SqlArgView::Text(problem@),
                SqlArgView::JsonTexts(default_answers()),
                SqlArgView::Int32(1),
                SqlArgView::Int(paper_id),
                SqlArgView::LocalNow,
                SqlArgView::LocalNow,
            ],
        ),
{
    let default_answer = vec![String::from_str("默认答案，请删除本答案并添加")];
    assert(default_answer@.map_values(|s: String| s@) =~= default_answers());
    let res = statement(
        "INSERT INTO org_examine (problem, answers, correct_answer, paper_id, create_time, update_time) VALUES (?, ?, ?, ?, ?, ?)",
        vec![
            text(problem),
            SqlArg::JsonTexts(default_answer),
            SqlArg::Int32(1),
            SqlArg::Int(paper_id),
            SqlArg::LocalNow,
            SqlArg::LocalNow,
        ],
    );
    assert(res@.1 =~= seq![
        SqlArgView::Text(problem@),
        SqlArgView::JsonTexts(default_answers()),
        SqlArgView::Int32(1),
        SqlArgView::Int(paper_id),
        SqlArgView::LocalNow,
        SqlArgView::LocalNow,
    ]);
    res
}

/// A request to add a question: refused (`None`) when its text is empty.
pub fn insert_examine_request(examine: &InsertExamine) -> (res: Option<Statement>)
    ensures
        examine.problem@.len() == 0 ==> res is None,
        examine.problem@.len() > 0 ==> (res matches Some(st) && st@.1 == seq![
            SqlArgView::Text(examine.problem@),
            SqlArgView::JsonTexts(default_answers()),
            SqlArgView::Int32(1),
            SqlArgView::Int(examine.paper_id),
            SqlArgView::LocalNow,
            SqlArgView::LocalNow,
        ] && st@.0 == "INSERT INTO org_examine (problem, answers, correct_answer, paper_id, create_time, update_time) VALUES (?, ?, ?, ?, ?, ?)"@),
{
    if examine.problem.as_str().is_empty() {
        return None;
    }
    Some(insert_examine(examine.problem.as_str(), examine.paper_id))
}

/// Rewrites a question and stamps it.
pub fn update_examine(u: &UpdateExamine) -> (res: Statement)
    ensures
        res@ == (
            "update org_examine set problem = ?, answers = ?, correct_answer = ?, problem_type = ?, paper_id = ?, update_time = ? where id = ?"@,
            seq![
                SqlArgView::Text(u.problem@),
                SqlArgView::JsonTexts(u.answers@.map_values(|s: String| s@)),
                SqlArgView::Int(u.correct_answer),
                SqlArgView::Int(u.problem_type),
                SqlArgView::Int(u.paper_id),
                SqlArgView::LocalNow,
                SqlArgView::Int(u.id),
            ],
        ),
{
    let res = statement(
        "update org_examine set problem = ?, answers = ?, correct_answer = ?, problem_type = ?, paper_id = ?, update_time = ? where id = ?",
        vec![
            text(u.problem.as_str()),
            texts(&u.answers),
            SqlArg::Int(u.correct_answer),
            SqlArg::Int(u.problem_type),
            SqlArg::Int(u.paper_id),
            SqlArg::LocalNow,
            SqlArg::Int(u.id),
        ],
    );
    assert(res@.1 =~= seq![
        SqlArgView::Text(u.problem@),
        SqlArgView::JsonTexts(u.answers@.map_values(|s: String| s@)),
        SqlArgView::Int(u.correct_answer),
        SqlArgView::Int(u.problem_type),
        SqlArgView::Int(u.paper_id),
        SqlArgView::LocalNow,
        SqlArgView::Int(u.id),
    ]);
    res
}

/// Deletes question `id`.
pub fn delete_examine(id: i64) -> (res: Statement)
    ensures
        res@ == ("delete from org_examine where id = ?"@, seq![SqlArgView::Int(id)]),
{
    let res = statement("delete from org_examine where id = ?", vec![SqlArg::Int(id)]);
    assert(res@.1 =~= seq![SqlArgView::Int(id)]);
    res
}

/// The questions of a paper, whose answers a sheet is graded against.
pub fn select_examines_by_paper(paper_id: i64) -> (res: Statement)
    ensures
        res@ == ("select * from org_examine where paper_id = ?"@, seq![SqlArgView::Int(paper_id)]),
{
    let res = statement("select * from org_examine where paper_id = ?", vec![SqlArg::Int(paper_id)]);
    assert(res@.1 =~= seq![SqlArgView::Int(paper_id)]);
    res
}

/// Rewrites a question of the older bank; the answers are stored as JSON
/// text and the time is shifted eight hours east.
pub fn update_examination(u: &UpdateExamination) -> (res: Statement)
    ensures
        res@ == (
            "update org_examination set problem = ?, answers = ?, correct_answer = ?, problem_type = ?, org_union = ?, update_time = ? where id = ?"@,
            seq![
                SqlArgView::Text(u.problem@),
                SqlArgView::Text(json_text_array(u.answers@.map_values(|s: String| s@))),
                SqlArgView::Int32(u.correct_answer),
                SqlArgView::Int32(u.problem_type),
                SqlArgView::Int32(u.org_union),
                SqlArgView::ShiftedNow,
                SqlArgView::Int32(u.id),
            ],
        ),
{
    let answer_value = json_array_text(&u.answers);
    let res = statement(
        "update org_examination set problem = ?, answers = ?, correct_answer = ?, problem_type = ?, org_union = ?, update_time = ? where id = ?",
        vec![
            text(u.problem.as_str()),
            SqlArg::Text(answer_value),
            SqlArg::Int32(u.correct_answer),
            SqlArg::Int32(u.problem_type),
            SqlArg::Int32(u.org_union),
            SqlArg::ShiftedNow,
            SqlArg::Int32(u.id),
        ],
    );
    assert(res@.1 =~= seq![
        SqlArgView::Text(u.problem@),
        SqlArgView::Text(json_text_array(u.answers@.map_values(|s: String| s@))),
        SqlArgView::Int32(u.correct_answer),
        SqlArgView::Int32(u.problem_type),
        SqlArgView::Int32(u.org_union),
        SqlArgView::ShiftedNow,
        SqlArgView::Int32(u.id),
    ]);
    res
}

/// The code a check result is stored as (its declaration order).
pub open spec fn check_result_code_spec(r: CheckResult) -> i8 {
    match r {
        CheckResult::Pass => 0,
        CheckResult::UnPass => 1,
        CheckResult::Overrun => 2,
        CheckResult::TimeOut => 3,
        CheckResult::NotChecked => 4,
    }
}

/// The result a stored code reads back as (the declaration order of the
/// outcomes); other codes read as nothing.
pub open spec fn check_result_of_code(code: i8) -> Option<CheckResult> {
    if code == 0 {
        Some(CheckResult::Pass)
    } else if code == 1 {
        Some(CheckResult::UnPass)
    } else if code == 2 {
        Some(CheckResult::Overrun)
    } else if code == 3 {
        Some(CheckResult::TimeOut)
    } else if code == 4 {
        Some(CheckResult::NotChecked)
    } else {
        None
    }
}

pub fn check_result_code(r: CheckResult) -> (res: i8)
    ensures
        res == check_result_code_spec(r),
{
    match r {
        CheckResult::Pass => 0,
        CheckResult::UnPass => 1,
        CheckResult::Overrun => 2,
        CheckResult::TimeOut => 3,
        CheckResult::NotChecked => 4,
    }
}

/// Records a graded sheet.
pub fn insert_examine_results(examine_result: &ExamineResult) -> (res: Statement)
    ensures
        res@ == (
            "INSERT INTO org_examine_result (user, union_id, paper_id, answers, result, create_time) VALUES (?, ?, ?, ?, ?, ?)"@,
            seq![
                SqlArgView::Text(examine_result.user@),
                SqlArgView::Int(examine_result.union_id),
                SqlArgView::Int(examine_result.paper_id),
                SqlArgView::JsonInts(examine_result.answers@),
                SqlArgView::Tiny(check_result_code_spec(examine_result.result)),
                SqlArgView::LocalNow,
            ],
        ),
{
    let res = statement(
        "INSERT INTO org_examine_result (user, union_id, paper_id, answers, result, create_time) VALUES (?, ?, ?, ?, ?, ?)",
        vec![
            text(examine_result.user.as_str()),
            SqlArg::Int(examine_result.union_id),
            SqlArg::Int(examine_result.paper_id),
            ints(&examine_result.answers),
            SqlArg::Tiny(check_result_code(examine_result.result)),
            SqlArg::LocalNow,
        ],
    );
    assert(res@.1 =~= seq![
        SqlArgView::Text(examine_result.user@),
        SqlArgView::Int(examine_result.union_id),
        SqlArgView::Int(examine_result.paper_id),
        SqlArgView::JsonInts(examine_result.answers@),
        SqlArgView::Tiny(check_result_code_spec(examine_result.result)),
        SqlArgView::LocalNow,
    ]);
    res
}

// ---------------------------------------------------------------------
// Group membership
// ---------------------------------------------------------------------

/// `(userid, group_id)` as the insert writes it.
pub open spec fn group_tuple(userid: i64, group_id: i64) -> Seq<char> {
    "("@ + int_decimal(userid as int) + ", "@ + int_decimal(group_id as int) + ")"@
}

/// The tuples of the groups, separated by commas.
pub open spec fn group_tuples(userid: i64, group_ids: Seq<i64>) -> Seq<char>
    decreases group_ids.len(),
{
    if group_ids.len() == 0 {
        Seq::empty()
    } else if group_ids.len() == 1 {
        group_tuple(userid, group_ids[0])
    } else {
        group_tuples(userid, group_ids.drop_last()) + ","@ + group_tuple(userid, group_ids.last())
    }
}

/// Puts a user in groups: one statement with a tuple per group, the
/// numbers written into the text (no tuple at all for no group).
pub fn insert_group(userid: i64, group_ids: &Vec<i64>) -> (res: Statement)
    ensures
        res@ == (
            "INSERT INTO sys_user_group (user_id, group_id) VALUES "@ + group_tuples(userid, group_ids@),
            Seq::<SqlArgView>::empty(),
        ),
{
    let mut sql = String::from_str("INSERT INTO sys_user_group (user_id, group_id) VALUES ");
    let ghost base = sql@;
    let n = group_ids.len();
    for i in 0..n
        invariant
            n == group_ids@.len(),
            base == "INSERT INTO sys_user_group (user_id, group_id) VALUES "@,
            sql@ == base + group_tuples(userid, group_ids@.take(i as int)),
    {
        let ghost before = sql@;
        if i > 0 {
            sql.append(",");
        }
        sql.append("(");
        push_i64(&mut sql, userid);
        sql.append(", ");
        push_i64(&mut sql, group_ids[i]);
        sql.append(")");
        proof {
            let t = group_ids@.take(i + 1);
            assert(t.drop_last() =~= group_ids@.take(i as int));
            assert(t.last() == group_ids@[i as int]);
            if i == 0 {
                assert(t.len() == 1);
                assert(t[0] == group_ids@[0]);
                assert(group_tuples(userid, group_ids@.take(0)) == Seq::<char>::empty());
                assert(sql@ =~= base + group_tuple(userid, group_ids@[0]));
            } else {
                assert(sql@ =~= before + ","@ + group_tuple(userid, group_ids@[i as int]));
            }
        }
    }
    assert(group_ids@.take(n as int) =~= group_ids@);
    let res = Statement { sql, args: Vec::new() };
    assert(res@.1 =~= Seq::<SqlArgView>::empty());
    res
}

/// Takes a user out of all groups.
pub fn delete_group(userid: i64) -> (res: Statement)
    ensures
        res@ == ("delete from sys_user_group where user_id = ?"@, seq![SqlArgView::Int(userid)]),
{
    let res = statement("delete from sys_user_group where user_id = ?", vec![SqlArg::Int(userid)]);
    assert(res@.1 =~= seq![SqlArgView::Int(userid)]);
    res
}

/// Replaces the groups of a user: the delete, then the insert.
pub fn update_group(userid: i64, group_ids: &Vec<i64>) -> (res: (Statement, Statement))
    ensures
        res.0@ == ("delete from sys_user_group where user_id = ?"@, seq![SqlArgView::Int(userid)]),
        res.1@ == (
            "INSERT INTO sys_user_group (user_id, group_id) VALUES "@ + group_tuples(userid, group_ids@),
            Seq::<SqlArgView>::empty(),
        ),
{
    (delete_group(userid), insert_group(userid, group_ids))
}

/// The rows a replacement of a user's groups reports: those deleted and
/// those inserted, added.
pub fn update_group_rows(deleted_rows: u64, inserted_rows: u64) -> (res: u64)
    requires
        deleted_rows + inserted_rows <= u64::MAX,
    ensures
        res == deleted_rows + inserted_rows,
{
    deleted_rows + inserted_rows
}

// ---------------------------------------------------------------------
// Laws
// ---------------------------------------------------------------------

/// A result is stored as its position in the declaration of the outcomes
/// (`Pass` 0, `UnPass` 1, `Overrun` 2, `TimeOut` 3, `NotChecked` 4), so
/// reading the stored code back gives the same result, and distinct
/// results get distinct codes.
pub proof fn law_result_code(r: CheckResult, other: CheckResult)
    ensures
        check_result_code_spec(CheckResult::Pass) == 0,
        check_result_code_spec(CheckResult::UnPass) == 1,
        check_result_code_spec(CheckResult::Overrun) == 2,
        check_result_code_spec(CheckResult::TimeOut) == 3,
        check_result_code_spec(CheckResult::NotChecked) == 4,
        check_result_of_code(check_result_code_spec(r)) == Some(r),
        r != other ==> check_result_code_spec(r) != check_result_code_spec(other),
{
}

/// Adding a group to a non-empty list adds exactly one comma and that
/// group's tuple `(user, group)` at the end; a single group is its tuple
/// alone. So every tuple after the first is preceded by exactly one comma.
pub proof fn law_group_tuples(userid: i64, group_ids: Seq<i64>, group_id: i64)
    ensures
        group_tuple(userid, group_id) == "("@ + int_decimal(userid as int) + ", "@ + int_decimal(
            group_id as int,
        ) + ")"@,
        group_tuples(userid, seq![group_id]) == group_tuple(userid, group_id),
        group_ids.len() > 0 ==> group_tuples(userid, group_ids.push(group_id)) == group_tuples(
            userid,
            group_ids,
        ) + ","@ + group_tuple(userid, group_id),
        group_tuples(userid, Seq::<i64>::empty()) == Seq::<char>::empty(),
{
    assert(seq![group_id][0] == group_id);
    if group_ids.len() > 0 {
        assert(group_ids.push(group_id).drop_last() =~= group_ids);
        assert(group_ids.push(group_id).last() == group_id);
    }
}

/// Toggling a paper's status always yields 0 or 1, and toggling twice
/// gives back a status that was 0 or 1.
pub proof fn law_toggle_status(status: i64)
    ensures
        toggled_status(status) == 0 || toggled_status(status) == 1,
        (status == 0 || status == 1) ==> toggled_status(toggled_status(status)) == status,
{
}

} // verus!
