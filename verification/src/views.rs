//! The choices the HTML pages make: which page, which title, which rows.

use vstd::prelude::*;
use crate::text::{parse_i64, parse_i64_spec};

verus! {

/// The home page.
#[derive(Clone, Debug)]
pub struct IndexTemplate {
    pub title: String,
}

/// The login page.
#[derive(Clone, Debug)]
pub struct LoginTemplate {
    pub title: String,
}

/// The page that shows the outcome of a sheet.
#[derive(Clone, Debug)]
pub struct ExamineCheckTemplate {
    pub title: String,
    pub result: String,
}

/// The account settings page.
#[derive(Clone, Debug)]
pub struct PublicSettingTemplate {
    pub title: String,
}

/// The pages the server renders.
#[derive(Clone, Copy, Debug, PartialEq, Eq, Structural)]
pub enum Page {
    Index,
    Login,
    Users,
    InsertUser,
    UpdateUser,
    ExamineStart,
    ExamineClient,
    ExamineResult,
    Papers,
    PublicSetting,
    Unions,
}

pub open spec fn page_title_spec(page: Page) -> Seq<char> {
    match page {
        Page::Index => "首页"@,
        Page::Login => "登录"@,
        Page::Users => "用户列表"@,
        Page::InsertUser => "新增用户"@,
        Page::UpdateUser => "新增用户"@,
        Page::ExamineStart => "开始考试"@,
        Page::ExamineClient => "考试题目"@,
        Page::ExamineResult => "考试记录"@,
        Page::Papers => "考卷列表"@,
        Page::PublicSetting => "账户设置"@,
        Page::Unions => "联盟列表"@,
    }
}

/// The title a page is shown with (the user edit page shares the title
/// of the user creation page).
pub fn page_title(page: Page) -> (res: String)
    ensures
        res@ == page_title_spec(page),
{
    match page {
        Page::Index => String::from_str("首页"),
        Page::Login => String::from_str("登录"),
        Page::Users => String::from_str("用户列表"),
        Page::InsertUser => String::from_str("新增用户"),
        Page::UpdateUser => String::from_str("新增用户"),
        Page::ExamineStart => String::from_str("开始考试"),
        Page::ExamineClient => String::from_str("考试题目"),
        Page::ExamineResult => String::from_str("考试记录"),
        Page::Papers => String::from_str("考卷列表"),
        Page::PublicSetting => String::from_str("账户设置"),
        Page::Unions => String::from_str("联盟列表"),
    }
}

/// The editor for each kind of question.
#[derive(Clone, Copy, Debug, PartialEq, Eq, Structural)]
pub enum ExamineUpdatePage {
    SingleChoice,
    MultipleChoice,
    FillInBlank,
    Essay,
}

pub open spec fn examine_update_spec(problem_type: i64) -> Option<(ExamineUpdatePage, Seq<char>)> {
    if problem_type == 1 {
        Some((ExamineUpdatePage::SingleChoice, "单选题配置"@))
    } else if problem_type == 2 {
        Some((ExamineUpdatePage::MultipleChoice, "多选题配置"@))
    } else if problem_type == 3 {
        Some((ExamineUpdatePage::FillInBlank, "填空题配置"@))
    } else if problem_type == 4 {
        Some((ExamineUpdatePage::Essay, "问答题配置"@))
    } else {
        None
    }
}

/// The editor and its title for a question type 1 to 4; `None` (the page
/// answers "404") for any other type.
pub fn examine_update_page(problem_type: i64) -> (res: Option<(ExamineUpdatePage, String)>)
    ensures
        match examine_update_spec(problem_type) {
            Some((p, t)) => res matches Some(r) && r.0 == p && r.1@ == t,
            None => res is None,
        },
{
    match problem_type {
        1 => Some((ExamineUpdatePage::SingleChoice, String::from_str("单选题配置"))),
        2 => Some((ExamineUpdatePage::MultipleChoice, String::from_str("多选题配置"))),
        3 => Some((ExamineUpdatePage::FillInBlank, String::from_str("填空题配置"))),
        4 => Some((ExamineUpdatePage::Essay, String::from_str("问答题配置"))),
        _ => None,
    }
}

/// Each question type 1 to 4 opens its own editor under its own title:
/// 1 single choice "单选题配置", 2 multiple choice "多选题配置", 3 fill in the
/// blank "填空题配置", 4 essay "问答题配置"; every other type opens none.
pub proof fn law_examine_update_pages(problem_type: i64)
    ensures
        examine_update_spec(1) == Some((ExamineUpdatePage::SingleChoice, "单选题配置"@)),
        examine_update_spec(2) == Some((ExamineUpdatePage::MultipleChoice, "多选题配置"@)),
        examine_update_spec(3) == Some((ExamineUpdatePage::FillInBlank, "填空题配置"@)),
        examine_update_spec(4) == Some((ExamineUpdatePage::Essay, "问答题配置"@)),
        (problem_type < 1 || problem_type > 4) ==> examine_update_spec(problem_type) is None,
{
}

/// Which rows a list shows: 0 stands for all rows, any other id for the
/// rows of that union (or paper).
pub fn scope_of(id: i64) -> (res: Option<i64>)
    ensures
        id == 0 ==> res is None,
        id != 0 ==> res == Some(id),
{
    match id {
        0 => None,
        _ => Some(id),
    }
}

/// The paper a question list is asked for: the `paper_id` form field read
/// as a number, 0 when it is missing or not a number; and the title field,
/// empty when missing.
pub fn paper_form(paper_id: Option<&str>, paper_title: Option<&str>) -> (res: (i64, String))
    ensures
        res.0 == match paper_id {
            Some(s) => match parse_i64_spec(s@) {
                Some(v) => v,
                None => 0,
            },
            None => 0,
        },
        res.1@ == match paper_title {
            Some(t) => t@,
            None => Seq::<char>::empty(),
        },
{
    let id = match paper_id {
        Some(s) => match parse_i64(s) {
            Some(v) => v,
            None => 0,
        },
        None => 0,
    };
    let title = match paper_title {
        Some(t) => t.to_owned(),
        None => String::new(),
    };
    (id, title)
}

} // verus!
