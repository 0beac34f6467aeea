use exam_server::grading::{check_examination, check_examine, check_result_message, correct_answers, select_groups_by_user_id, union_examinations};
use exam_server::model::{CheckResult, Examination, Examine, ExaminationAnswer, ExamineResult, Group, InsertExamine, Paper, Role, UpdateCheck, UpdateExamination, UpdateExamine, UpdatePaper, User};
use exam_server::permission::{list_user, list_user_groups, list_user_roles, random_paper_id_by_union, show_user};
use exam_server::sql::{delete_paper_rows, update_group_rows, delete_examine, delete_group, delete_paper, insert_examine, insert_examine_request, insert_examine_results, insert_group, insert_paper, insert_paper_request, select_examines_by_paper, update_examination, update_examine, update_group, update_paper, update_paper_status, SqlArg};
use exam_server::views::{examine_update_page, page_title, paper_form, scope_of, ExamineUpdatePage, Page};

fn examine(correct: i64) -> Examine {
    Examine { correct_answer: correct, ..Examine::default() }
}

fn ints(args: &[SqlArg]) -> Vec<i64> {
    args.iter().filter_map(|a| if let SqlArg::Int(v) = a { Some(*v) } else { None }).collect()
}

#[test]
fn grading_pass_and_fail() {
    let qs = vec![examine(2), examine(1), examine(3)];
    assert_eq!(correct_answers(&qs), vec![2, 1, 3]);
    let sheet = UpdateCheck { user: "u".into(), union_id: 5, paper_id: 9, ticket_size: 0, answers: vec![2, 1, 3] };
    let (r, rec) = check_examine(sheet, &qs);
    assert_eq!(r, CheckResult::Pass);
    assert_eq!(rec.result, CheckResult::Pass);
    assert_eq!((rec.id, rec.union_id, rec.paper_id), (0, 5, 9));
    assert_eq!(rec.answers, vec![2, 1, 3]);
    let bad = UpdateCheck { user: "u".into(), union_id: 5, paper_id: 9, ticket_size: 0, answers: vec![2, 1] };
    assert_eq!(check_examine(bad, &qs).0, CheckResult::UnPass);
    let empty = UpdateCheck { user: "u".into(), union_id: 5, paper_id: 9, ticket_size: 0, answers: vec![] };
    assert_eq!(check_examine(empty, &vec![]).0, CheckResult::Pass);
}

#[test]
fn result_messages() {
    assert_eq!(check_result_message(CheckResult::Pass), "考试合格");
    assert_eq!(check_result_message(CheckResult::UnPass), "考试不合格");
    assert_eq!(check_result_message(CheckResult::Overrun), "次数用尽");
    assert_eq!(check_result_message(CheckResult::TimeOut), "考试超时");
    assert_eq!(check_result_message(CheckResult::NotChecked), "啥都不是");
    assert_eq!(CheckResult::default(), CheckResult::NotChecked);
}

fn examination(id: i32, correct: i32) -> Examination {
    Examination {
        id,
        problem: format!("q{id}"),
        answers: vec!["a".into(), "b".into()],
        correct_answer: correct,
        problem_type: 1,
        org_union: 2,
        status: 1,
        create_time: Default::default(),
        update_time: Default::default(),
    }
}

#[test]
fn older_bank() {
    let es = vec![examination(1, 0), examination(2, 1)];
    assert!(check_examination(&vec![0, 1], &es));
    assert!(!check_examination(&vec![1, 0], &es));
    assert!(!check_examination(&vec![0], &es));
    let us = union_examinations(es);
    assert_eq!(us.len(), 2);
    assert_eq!(us[1].id, 2);
    assert_eq!(us[1].problem, "q2");
    assert_eq!(us[1].answers, vec!["a".to_string(), "b".to_string()]);
    assert_eq!(us[1].org_union, 2);
    assert!(ExaminationAnswer::default().answer.is_empty());
}

#[test]
fn paper_statements() {
    let st = update_paper_status(4, 1);
    assert_eq!(st.sql, "update org_paper set status = ? where id = ?");
    assert_eq!(ints(&st.args), vec![0, 4]);
    assert_eq!(ints(&update_paper_status(4, 0).args), vec![1, 4]);
    assert_eq!(ints(&update_paper_status(4, 7).args), vec![1, 4]);

    assert_eq!(update_paper(3, "T", 5).sql, "update org_paper set title = 'T', union_id = 5, update_time = ? where id = ?");
    assert_eq!(update_paper(3, "", 5).sql, "update org_paper set union_id = 5, update_time = ? where id = ?");
    assert_eq!(update_paper(3, "T", 0).sql, "update org_paper set title = 'T', update_time = ? where id = ?");
    assert_eq!(update_paper(3, "", 0).sql, "update org_paper set update_time = ? where id = ?");
    assert_eq!(update_paper(3, "", -12).sql, "update org_paper set union_id = -12, update_time = ? where id = ?");
    assert!(matches!(update_paper(3, "", 0).args[..], [SqlArg::LocalNow, SqlArg::Int(3)]));

    let ins = insert_paper("P", 2);
    assert_eq!(ins.sql, "INSERT INTO org_paper (title, union_id, create_time, update_time) VALUES (?, ?, ?, ?)");
    assert!(matches!(&ins.args[..], [SqlArg::Text(t), SqlArg::Int(2), SqlArg::LocalNow, SqlArg::LocalNow] if t == "P"));

    assert!(insert_paper_request(&UpdatePaper { id: 0, title: "".into(), union_id: 3 }).is_none());
    let req = insert_paper_request(&UpdatePaper { id: 0, title: "P".into(), union_id: 0 }).unwrap();
    assert!(matches!(req.args[1], SqlArg::Int(1)));
    let req = insert_paper_request(&UpdatePaper { id: 0, title: "P".into(), union_id: 8 }).unwrap();
    assert!(matches!(req.args[1], SqlArg::Int(8)));

    let (a, b) = delete_paper(6);
    assert_eq!(a.sql, "delete from org_paper where id = ?");
    assert_eq!(b.sql, "delete from org_examine where paper_id = ?");
    assert_eq!(ints(&b.args), vec![6]);
}

#[test]
fn question_statements() {
    let st = insert_examine("Q?", 9);
    assert_eq!(st.sql, "INSERT INTO org_examine (problem, answers, correct_answer, paper_id, create_time, update_time) VALUES (?, ?, ?, ?, ?, ?)");
    assert!(matches!(&st.args[1], SqlArg::JsonTexts(v) if v == &vec!["默认答案，请删除本答案并添加".to_string()]));
    assert!(matches!(st.args[2], SqlArg::Int32(1)));
    assert!(insert_examine_request(&InsertExamine { problem: "".into(), paper_id: 1 }).is_none());
    assert!(insert_examine_request(&InsertExamine { problem: "x".into(), paper_id: 1 }).is_some());

    let u = UpdateExamine { id: 5, problem: "p".into(), answers: vec!["x".into()], correct_answer: 1, problem_type: 2, paper_id: 3 };
    let st = update_examine(&u);
    assert!(st.sql.starts_with("update org_examine set problem = ?"));
    assert_eq!(ints(&st.args), vec![1, 2, 3, 5]);
    assert_eq!(delete_examine(5).sql, "delete from org_examine where id = ?");
    assert_eq!(select_examines_by_paper(2).sql, "select * from org_examine where paper_id = ?");

    let ue = UpdateExamination { id: 1, problem: "p".into(), answers: vec!["a\"b".into(), "c".into()], correct_answer: 0, problem_type: 1, org_union: 2 };
    let st = update_examination(&ue);
    assert!(matches!(&st.args[1], SqlArg::Text(t) if t == r#"["a\"b","c"]"#));
    assert!(matches!(st.args[5], SqlArg::ShiftedNow));

    let rec = ExamineResult { user: "u".into(), union_id: 1, paper_id: 2, answers: vec![3, 4], result: CheckResult::UnPass, ..ExamineResult::default() };
    let st = insert_examine_results(&rec);
    assert!(matches!(st.args[4], SqlArg::Tiny(1)));
    assert!(matches!(&st.args[3], SqlArg::JsonInts(v) if v == &vec![3, 4]));
}

#[test]
fn group_statements() {
    assert_eq!(insert_group(7, &vec![1, 2]).sql, "INSERT INTO sys_user_group (user_id, group_id) VALUES (7, 1),(7, 2)");
    assert_eq!(insert_group(7, &vec![3]).sql, "INSERT INTO sys_user_group (user_id, group_id) VALUES (7, 3)");
    assert_eq!(insert_group(7, &vec![]).sql, "INSERT INTO sys_user_group (user_id, group_id) VALUES ");
    assert_eq!(delete_group(7).sql, "delete from sys_user_group where user_id = ?");
    let (d, i) = update_group(-1, &vec![5]);
    assert_eq!(ints(&d.args), vec![-1]);
    assert_eq!(i.sql, "INSERT INTO sys_user_group (user_id, group_id) VALUES (-1, 5)");
}

#[test]
fn lists_and_displays() {
    let groups = vec![Group { id: 2, title: "Admins".into(), name: "admin".into(), status: 1 }, Group::default()];
    let (titles, names) = list_user_groups(&groups);
    assert_eq!(titles, vec!["Admins".to_string(), "".to_string()]);
    assert_eq!(names, vec!["admin".to_string(), "".to_string()]);
    let roles = vec![Role { id: 1, name: "Lists".into(), url: "/list".into(), status: 1 }];
    let (rn, ru) = list_user_roles(&roles);
    assert_eq!((rn[0].as_str(), ru[0].as_str()), ("Lists", "/list"));
    let l = list_user("bob", &groups, &roles);
    assert_eq!(l.user_groups[0], "admin");
    assert_eq!(l.user_roles[0], "/list");
    let s = show_user("bob", &groups, &roles);
    assert_eq!(s.username, "bob");
    assert_eq!(s.user_groups[0], "Admins");
    assert_eq!(s.user_roles[0], "Lists");
    let (gs, ids) = select_groups_by_user_id(groups.clone());
    assert_eq!(gs.len(), 2);
    assert_eq!(ids, vec![2, 0]);

    assert_eq!(groups[0].to_display_string(), "Group ([ID: 2], [Title: Admins], [Name: admin], [Status: 1])");
    assert_eq!(Role::default().to_display_string(), "Rule ([ID: 0], [Rule: ], [Url: ], [Status: 0])");
    let u = User { id: 1, username: "a".into(), password: "p".into(), status: 1, user_type: -2, union_id: 0, expire_time: Default::default(), create_time: Default::default() };
    assert_eq!(u.to_display_string(), "User ([ID: 1], [Username: a], [Password: p], [Status: 1], [Type: -2])");
}

#[test]
fn random_paper_pick() {
    assert_eq!(random_paper_id_by_union(&vec![]), 0);
    let papers = vec![Paper { id: 4, ..Paper::default() }, Paper { id: 9, ..Paper::default() }];
    for _ in 0..20 {
        let id = random_paper_id_by_union(&papers);
        assert!(id == 4 || id == 9);
    }
    assert_eq!(random_paper_id_by_union(&vec![Paper { id: 5, ..Paper::default() }]), 5);
}

#[test]
fn page_choices() {
    assert_eq!(page_title(Page::Index), "首页");
    assert_eq!(page_title(Page::UpdateUser), "新增用户");
    assert!(matches!(examine_update_page(1), Some((ExamineUpdatePage::SingleChoice, ref t)) if t == "单选题配置"));
    assert!(matches!(examine_update_page(4), Some((ExamineUpdatePage::Essay, ref t)) if t == "问答题配置"));
    assert!(examine_update_page(5).is_none());
    assert!(examine_update_page(0).is_none());
    assert_eq!(scope_of(0), None);
    assert_eq!(scope_of(3), Some(3));
    assert_eq!(paper_form(Some("12"), Some("T")), (12, "T".to_string()));
    assert_eq!(paper_form(Some("x"), None), (0, "".to_string()));
    assert_eq!(paper_form(None, None), (0, "".to_string()));
}

#[test]
fn row_totals() {
    assert_eq!(delete_paper_rows(1, 4), 5);
    assert_eq!(delete_paper_rows(0, 0), 0);
    assert_eq!(update_group_rows(2, 3), 5);
}

#[test]
fn json_answer_escapes() {
    let line = UpdateExamination { id: 1, problem: "p".into(), answers: vec!["a\nb\u{1}c\\d/é\t".to_string(), String::new()], correct_answer: 0, problem_type: 1, org_union: 2 };
    let st = update_examination(&line);
    let want = "[\"a\\nb\\u0001c\\\\d/é\\t\",\"\"]";
    assert!(matches!(&st.args[1], SqlArg::Text(t) if t == want));
    let empty = UpdateExamination { answers: vec![], ..line };
    assert!(matches!(&update_examination(&empty).args[1], SqlArg::Text(t) if t == "[]"));
}
