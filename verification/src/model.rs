//! The records the server reads and writes: users, groups, roles,
//! papers, questions, answer sheets and results.

use vstd::prelude::*;
use chrono::NaiveDateTime;
use crate::text::{push_i64, int_decimal};

verus! {

#[verifier::external_type_specification]
#[verifier::external_body]
pub struct ExNaiveDateTime(NaiveDateTime);

/// `NaiveDateTime` is `Copy` (derived in chrono): a clone is the value itself.
pub assume_specification[ <NaiveDateTime as Clone>::clone ](t: &NaiveDateTime) -> (res: NaiveDateTime)
    ensures
        res == *t,
;

/// `NaiveDateTime::default()`: chrono documents it as the Unix epoch,
/// 1970-01-01 00:00:00; nothing about the opaque value is stated here.
pub assume_specification[ <NaiveDateTime as Default>::default ]() -> NaiveDateTime;

/// Server settings read from the configuration file.
#[derive(Clone, Debug)]
pub struct Config {
    pub server_port: i64,
    pub database_url: String,
    pub database_username: String,
    pub database_password: String,
    pub redis_url: String,
    pub redis_username: String,
    pub redis_password: String,
    pub redis_expire: i64,
}

/// A `count(..)` row.
#[derive(Clone, Copy, Debug)]
pub struct TableCount {
    pub count: i64,
}

/// A question of the older per-union question bank.
#[derive(Clone, Debug)]
pub struct Examination {
    pub id: i32,
    pub problem: String,
    pub answers: Vec<String>,
    pub correct_answer: i32,
    pub problem_type: i32,
    pub org_union: i32,
    pub status: i32,
    pub create_time: NaiveDateTime,
    pub update_time: NaiveDateTime,
}

#[derive(Clone, Debug)]
pub struct Examinations {
    pub examinations: Vec<Examination>,
}

#[derive(Clone, Debug)]
pub struct ExaminationAnswer {
    pub answer: Vec<String>,
}

impl Default for ExaminationAnswer {
    fn default() -> (res: Self)
        ensures
            res.answer@.len() == 0,
    {
        ExaminationAnswer { answer: Vec::new() }
    }
}

/// The editable part of an `Examination`.
#[derive(Clone, Debug)]
pub struct UpdateExamination {
    pub id: i32,
    pub problem: String,
    pub answers: Vec<String>,
    pub correct_answer: i32,
    pub problem_type: i32,
    pub org_union: i32,
}

/// A question of a paper.
#[derive(Clone, Debug)]
pub struct Examine {
    pub id: i64,
    pub problem: String,
    pub answers: Vec<String>,
    pub correct_answer: i64,
    pub problem_type: i64,
    pub paper_id: i64,
    pub status: i64,
    pub create_time: NaiveDateTime,
    pub update_time: NaiveDateTime,
}

impl Default for Examine {
    fn default() -> (res: Self)
        ensures
            res.id == 0,
            res.problem@ == Seq::<char>::empty(),
            res.answers@.len() == 0,
            res.correct_answer == 0,
            res.problem_type == 0,
            res.paper_id == 0,
            res.status == 0,
    {
        Examine {
            id: 0,
            problem: String::new(),
            answers: Vec::new(),
            correct_answer: 0,
            problem_type: 0,
            paper_id: 0,
            status: 0,
            create_time: NaiveDateTime::default(),
            update_time: NaiveDateTime::default(),
        }
    }
}

/// A new question: its text and the paper it belongs to.
#[derive(Clone, Debug)]
pub struct InsertExamine {
    pub problem: String,
    pub paper_id: i64,
}

/// The editable part of an `Examine`.
#[derive(Clone, Debug)]
pub struct UpdateExamine {
    pub id: i64,
    pub problem: String,
    pub answers: Vec<String>,
    pub correct_answer: i64,
    pub problem_type: i64,
    pub paper_id: i64,
}

/// Outcome of an answer sheet.
#[derive(Clone, Copy, Debug, PartialEq, Eq, Structural)]
pub enum CheckResult {
    Pass,
    UnPass,
    Overrun,
    TimeOut,
    NotChecked,
}

impl Default for CheckResult {
    fn default() -> (res: Self)
        ensures
            res == CheckResult::NotChecked,
    {
        CheckResult::NotChecked
    }
}

/// A graded answer sheet.
#[derive(Clone, Debug)]
pub struct ExamineResult {
    pub id: i64,
    pub user: String,
    pub union_id: i64,
    pub paper_id: i64,
    pub answers: Vec<i64>,
    pub result: CheckResult,
    pub create_time: NaiveDateTime,
}

/// An answer sheet handed in by a candidate.
#[derive(Clone, Debug)]
pub struct UpdateCheck {
    pub user: String,
    pub union_id: i64,
    pub paper_id: i64,
    pub ticket_size: i64,
    pub answers: Vec<i64>,
}

impl ExamineResult {
    /// The record of a graded sheet: the sheet's fields and the outcome,
    /// with id 0 and the default creation time.
    pub fn update_to(update_check: UpdateCheck, result: CheckResult) -> (res: Self)
        ensures
            res.id == 0,
            res.user == update_check.user,
            res.union_id == update_check.union_id,
            res.paper_id == update_check.paper_id,
            res.answers == update_check.answers,
            res.result == result,
    {
        ExamineResult {
            id: 0,
            user: update_check.user,
            union_id: update_check.union_id,
            paper_id: update_check.paper_id,
            answers: update_check.answers,
            result,
            create_time: NaiveDateTime::default(),
        }
    }
}

impl Default for ExamineResult {
    fn default() -> (res: Self)
        ensures
            res.id == 0,
            res.user@ == Seq::<char>::empty(),
            res.union_id == 0,
            res.paper_id == 0,
            res.answers@.len() == 0,
            res.result == CheckResult::NotChecked,
    {
        ExamineResult {
            id: 0,
            user: String::new(),
            union_id: 0,
            paper_id: 0,
            answers: Vec::new(),
            result: CheckResult::NotChecked,
            create_time: NaiveDateTime::default(),
        }
    }
}

/// An exam paper of a union.
#[derive(Clone, Debug)]
pub struct Paper {
    pub id: i64,
    pub title: String,
    pub status: i64,
    pub union_id: i64,
    pub create_time: NaiveDateTime,
    pub update_time: NaiveDateTime,
}

impl Default for Paper {
    fn default() -> (res: Self)
        ensures
            res.id == 0,
            res.title@ == Seq::<char>::empty(),
            res.status == 0,
            res.union_id == 0,
    {
        Paper {
            id: 0,
            title: String::new(),
            status: 0,
            union_id: 0,
            create_time: NaiveDateTime::default(),
            update_time: NaiveDateTime::default(),
        }
    }
}

/// The editable part of a `Paper`.
#[derive(Clone, Debug)]
pub struct UpdatePaper {
    pub id: i64,
    pub title: String,
    pub union_id: i64,
}

/// An organisation whose members sit exams.
#[derive(Clone, Debug)]
pub struct Union {
    pub id: i64,
    pub name: String,
    pub status: i64,
    pub create_time: NaiveDateTime,
    pub update_time: NaiveDateTime,
}

/// A user group.
#[derive(Clone, Debug)]
pub struct Group {
    pub id: i64,
    pub title: String,
    pub name: String,
    pub status: i64,
}

impl Default for Group {
    fn default() -> (res: Self)
        ensures
            res.id == 0,
            res.title@ == Seq::<char>::empty(),
            res.name@ == Seq::<char>::empty(),
            res.status == 0,
    {
        Group { id: 0, title: String::new(), name: String::new(), status: 0 }
    }
}

/// A role: a name and the URL prefix it grants.
#[derive(Clone, Debug)]
pub struct Role {
    pub id: i64,
    pub name: String,
    pub url: String,
    pub status: i64,
}

impl Default for Role {
    fn default() -> (res: Self)
        ensures
            res.id == 0,
            res.name@ == Seq::<char>::empty(),
            res.url@ == Seq::<char>::empty(),
            res.status == 0,
    {
        Role { id: 0, name: String::new(), url: String::new(), status: 0 }
    }
}

/// An account.
#[derive(Clone, Debug)]
pub struct User {
    pub id: i64,
    pub username: String,
    pub password: String,
    pub status: i64,
    pub user_type: i64,
    pub union_id: i64,
    pub expire_time: NaiveDateTime,
    pub create_time: NaiveDateTime,
}

pub open spec fn group_display(g: Group) -> Seq<char> {
    "Group ([ID: "@ + int_decimal(g.id as int) + "], [Title: "@ + g.title@ + "], [Name: "@
        + g.name@ + "], [Status: "@ + int_decimal(g.status as int) + "])"@
}

pub open spec fn role_display(r: Role) -> Seq<char> {
    "Rule ([ID: "@ + int_decimal(r.id as int) + "], [Rule: "@ + r.name@ + "], [Url: "@ + r.url@
        + "], [Status: "@ + int_decimal(r.status as int) + "])"@
}

pub open spec fn user_display(u: User) -> Seq<char> {
    "User ([ID: "@ + int_decimal(u.id as int) + "], [Username: "@ + u.username@
        + "], [Password: "@ + u.password@ + "], [Status: "@ + int_decimal(u.status as int)
        + "], [Type: "@ + int_decimal(u.user_type as int) + "])"@
}

impl Group {
    /// The text that displaying a group shows.
    pub fn to_display_string(&self) -> (res: String)
        ensures
            res@ == group_display(*self),
    {
        let mut s = String::new();
        s.append("Group ([ID: ");
        push_i64(&mut s, self.id);
        s.append("], [Title: ");
        s.append(self.title.as_str());
        s.append("], [Name: ");
        s.append(self.name.as_str());
        s.append("], [Status: ");
        push_i64(&mut s, self.status);
        s.append("])");
        assert(s@ =~= group_display(*self));
        s
    }
}

impl Role {
    /// The text that displaying a role shows.
    pub fn to_display_string(&self) -> (res: String)
        ensures
            res@ == role_display(*self),
    {
        let mut s = String::new();
        s.append("Rule ([ID: ");
        push_i64(&mut s, self.id);
        s.append("], [Rule: ");
        s.append(self.name.as_str());
        s.append("], [Url: ");
        s.append(self.url.as_str());
        s.append("], [Status: ");
        push_i64(&mut s, self.status);
        s.append("])");
        assert(s@ =~= role_display(*self));
        s
    }
}

impl User {
    /// The text that displaying a user shows.
    pub fn to_display_string(&self) -> (res: String)
        ensures
            res@ == user_display(*self),
    {
        let mut s = String::new();
        s.append("User ([ID: ");
        push_i64(&mut s, self.id);
        s.append("], [Username: ");
        s.append(self.username.as_str());
        s.append("], [Password: ");
        s.append(self.password.as_str());
        s.append("], [Status: ");
        push_i64(&mut s, self.status);
        s.append("], [Type: ");
        push_i64(&mut s, self.user_type);
        s.append("])");
        assert(s@ =~= user_display(*self));
        s
    }
}

impl Examinations {
    /// Wraps a list of questions.
    pub fn from(vec_examination: Vec<Examination>) -> (res: Self)
        ensures
            res.examinations == vec_examination,
    {
        Examinations { examinations: vec_examination }
    }
}

} // verus!
