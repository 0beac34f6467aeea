//! Grading of answer sheets and the lists derived from question rows.

use vstd::prelude::*;
use crate::model::{
    CheckResult, Examination, Examine, ExamineResult, Group, UpdateCheck, UpdateExamination,
};

verus! {

/// The correct answers of the questions of a paper, in row order.
pub open spec fn correct_answers_spec(examines: Seq<Examine>) -> Seq<i64> {
    examines.map_values(|e: Examine| e.correct_answer)
}

/// The correct answers of a paper's questions, in row order.
pub fn correct_answers(examines: &Vec<Examine>) -> (res: Vec<i64>)
    ensures
        res@ == correct_answers_spec(examines@),
{
    let mut res: Vec<i64> = Vec::new();
    for i in 0..examines.len()
        invariant
            res@ == correct_answers_spec(examines@.take(i as int)),
    {
        res.push(examines[i].correct_answer);
        assert(correct_answers_spec(examines@.take(i + 1)) =~= correct_answers_spec(
            examines@.take(i as int),
        ).push(examines@[i as int].correct_answer));
    }
    assert(examines@.take(examines@.len() as int) =~= examines@);
    res
}

fn same_i64s(a: &Vec<i64>, b: &Vec<i64>) -> (res: bool)
    ensures
        res == (a@ == b@),
{
    if a.len() != b.len() {
        return false;
    }
    let n = a.len();
    for i in 0..n
        invariant
            n == a@.len() == b@.len(),
            forall|k: int| 0 <= k < i ==> a@[k] == b@[k],
    {
        if a[i] != b[i] {
            return false;
        }
    }
    assert(a@ =~= b@);
    true
}

/// The grade of a sheet: it passes when its answers are exactly the
/// correct answers, in order, and fails otherwise.
pub open spec fn grade_spec(answers: Seq<i64>, examines: Seq<Examine>) -> CheckResult {
    if answers == correct_answers_spec(examines) {
        CheckResult::Pass
    } else {
        CheckResult::UnPass
    }
}

/// Grades a sheet against the questions of its paper and builds the
/// record of the outcome.
pub fn check_examine(update_check: UpdateCheck, examines: &Vec<Examine>) -> (res: (
    CheckResult,
    ExamineResult,
))
    ensures
        res.0 == grade_spec(update_check.answers@, examines@),
        res.1.id == 0,
        res.1.user == update_check.user,
        res.1.union_id == update_check.union_id,
        res.1.paper_id == update_check.paper_id,
        res.1.answers == update_check.answers,
        res.1.result == res.0,
{
    let correct = correct_answers(examines);
    let result = if same_i64s(&update_check.answers, &correct) {
        CheckResult::Pass
    } else {
        CheckResult::UnPass
    };
    let record = ExamineResult::update_to(update_check, result);
    (result, record)
}

/// What the answer to a graded sheet says.
pub open spec fn check_result_message_spec(r: CheckResult) -> Seq<char> {
    match r {
        CheckResult::Pass => "考试合格"@,
        CheckResult::UnPass => "考试不合格"@,
        CheckResult::Overrun => "次数用尽"@,
        CheckResult::TimeOut => "考试超时"@,
        CheckResult::NotChecked => "啥都不是"@,
    }
}

pub fn check_result_message(r: CheckResult) -> (res: String)
    ensures
        res@ == check_result_message_spec(r),
{
    match r {
        CheckResult::Pass => String::from_str("考试合格"),
        CheckResult::UnPass => String::from_str("考试不合格"),
        CheckResult::Overrun => String::from_str("次数用尽"),
        CheckResult::TimeOut => String::from_str("考试超时"),
        CheckResult::NotChecked => String::from_str("啥都不是"),
    }
}

/// Grades a sheet of the older question bank: true when the answers are
/// exactly the correct answers of the union's questions, in order.
pub fn check_examination(post_answers: &Vec<i32>, examinations: &Vec<Examination>) -> (res: bool)
    ensures
        res == (post_answers@ == examinations@.map_values(|e: Examination| e.correct_answer)),
{
    let ghost want = examinations@.map_values(|e: Examination| e.correct_answer);
    if post_answers.len() != examinations.len() {
        return false;
    }
    let n = post_answers.len();
    for i in 0..n
        invariant
            n == post_answers@.len() == examinations@.len(),
            want == examinations@.map_values(|e: Examination| e.correct_answer),
            forall|k: int| 0 <= k < i ==> post_answers@[k] == want[k],
    {
        if post_answers[i] != examinations[i].correct_answer {
            assert(want[i as int] == examinations@[i as int].correct_answer);
            return false;
        }
    }
    assert(post_answers@ =~= want);
    true
}

/// The editable part of each question, in order.
pub fn union_examinations(examinations: Vec<Examination>) -> (res: Vec<UpdateExamination>)
    ensures
        res@.len() == examinations@.len(),
        forall|i: int| 0 <= i < res@.len() ==> {
            let e = #[trigger] examinations@[i];
            let u = res@[i];
            &&& u.id == e.id
            &&& u.problem == e.problem
            &&& u.answers@ == e.answers@
            &&& u.correct_answer == e.correct_answer
            &&& u.problem_type == e.problem_type
            &&& u.org_union == e.org_union
        },
{
    let mut res: Vec<UpdateExamination> = Vec::new();
    let n = examinations.len();
    for i in 0..n
        invariant
            n == examinations@.len(),
            res@.len() == i,
            forall|k: int| 0 <= k < i ==> {
                let e = #[trigger] examinations@[k];
                let u = res@[k];
                &&& u.id == e.id
                &&& u.problem == e.problem
                &&& u.answers@ == e.answers@
                &&& u.correct_answer == e.correct_answer
                &&& u.problem_type == e.problem_type
                &&& u.org_union == e.org_union
            },
    {
        let e = &examinations[i];
        let answers = e.answers.clone();
        assert(answers@ =~= e.answers@);
        res.push(
            UpdateExamination {
                id: e.id,
                problem: e.problem.clone(),
                answers,
                correct_answer: e.correct_answer,
                problem_type: e.problem_type,
                org_union: e.org_union,
            },
        );
    }
    res
}

/// A user's groups with their ids alongside.
pub fn select_groups_by_user_id(groups: Vec<Group>) -> (res: (Vec<Group>, Vec<i64>))
    ensures
        res.0 == groups,
        res.1@ == groups@.map_values(|g: Group| g.id),
{
    let mut ids: Vec<i64> = Vec::new();
    for i in 0..groups.len()
        invariant
            ids@ == groups@.take(i as int).map_values(|g: Group| g.id),
    {
        ids.push(groups[i].id);
        assert(groups@.take(i + 1).map_values(|g: Group| g.id) =~= groups@.take(i as int).map_values(
            |g: Group| g.id,
        ).push(groups@[i as int].id));
    }
    assert(groups@.take(groups@.len() as int) =~= groups@);
    (groups, ids)
}

/// A sheet that gives the correct answers of its paper, in order, passes;
/// any other sheet fails. No sheet is graded `Overrun`, `TimeOut` or
/// `NotChecked`.
pub proof fn law_grading(answers: Seq<i64>, examines: Seq<Examine>)
    ensures
        grade_spec(correct_answers_spec(examines), examines) == CheckResult::Pass,
        answers != correct_answers_spec(examines) ==> grade_spec(answers, examines)
            == CheckResult::UnPass,
        grade_spec(answers, examines) == CheckResult::Pass || grade_spec(answers, examines)
            == CheckResult::UnPass,
{
}

/// The answer key of a paper is each question's own correct answer, in
/// row order, whatever the question's type; a sheet passes exactly when it
/// has one answer per question and each answer is that question's correct
/// answer.
pub proof fn law_answer_key(answers: Seq<i64>, examines: Seq<Examine>)
    ensures
        correct_answers_spec(examines).len() == examines.len(),
        forall|i: int| 0 <= i < examines.len() ==> #[trigger] correct_answers_spec(examines)[i]
            == examines[i].correct_answer,
        grade_spec(answers, examines) == CheckResult::Pass <==> (answers.len() == examines.len()
            && forall|i: int| 0 <= i < answers.len() ==> #[trigger] answers[i]
            == examines[i].correct_answer),
{
    let key = correct_answers_spec(examines);
    if answers.len() == examines.len() && forall|i: int| 0 <= i < answers.len() ==> #[trigger] answers[i]
        == examines[i].correct_answer {
        assert(answers =~= key);
    }
    if answers == key {
        assert forall|i: int| 0 <= i < answers.len() implies #[trigger] answers[i]
            == examines[i].correct_answer by {
            assert(key[i] == examines[i].correct_answer);
        }
    }
}

} // verus!
