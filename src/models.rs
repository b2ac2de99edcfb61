//! Request and record shapes exchanged with the classroom service's callers.
use vstd::prelude::*;

verus! {

#[derive(Debug)]
pub struct CreateClassroom {
    pub name: String,
    pub description: Option<String>,
}

#[derive(Debug)]
pub struct UpdateClassroom {
    pub name: Option<String>,
    pub description: Option<String>,
}

#[derive(Debug)]
pub struct CreateCodeSession {
    pub language: String,
    pub code: String,
    pub time_limit_seconds: Option<i32>,
}

/// A request to run `code` in `language`.
#[derive(Debug)]
pub struct ExecuteCode {
    pub language: String,
    pub code: String,
}

#[derive(Debug)]
pub struct CreateCourse {
    pub name: String,
    pub description: Option<String>,
}

#[derive(Debug)]
pub struct UpdateCourse {
    pub name: Option<String>,
    pub description: Option<String>,
}

#[derive(Debug)]
pub struct CreateEbook {
    pub title: String,
    pub author: Option<String>,
}

#[derive(Debug)]
pub struct CreateFlashcard {
    pub front: String,
    pub back: String,
}

#[derive(Debug)]
pub struct UpdateFlashcard {
    pub front: Option<String>,
    pub back: Option<String>,
}

#[derive(Debug)]
pub struct CreateNote {
    pub title: String,
    pub content: String,
}

#[derive(Debug)]
pub struct UpdateNote {
    pub title: Option<String>,
    pub content: Option<String>,
}

#[derive(Debug)]
pub struct CreateProgress {
    pub activity_type: String,
    pub activity_id: String,
    pub completed: bool,
    pub time_spent_seconds: i32,
}

/// The kinds of question a questionnaire can hold.
#[derive(Debug, Clone, Copy, PartialEq, Eq, Structural)]
pub enum QuestionType {
    MultipleChoice,
    TrueFalse,
    FillInBlank,
}

#[derive(Debug)]
pub struct CreateQuestionnaire {
    pub title: String,
    pub description: Option<String>,
}

#[derive(Debug)]
pub struct CreateQuestion {
    pub question_text: String,
    pub question_type: String,
    pub options: Option<Vec<String>>,
    pub correct_answer: String,
    pub points: i32,
}

/// One submitted answer, to the question with id `question_id`.
#[derive(Debug)]
pub struct SubmitAnswer {
    pub question_id: String,
    pub answer: String,
}

/// What a session token asserts: the user it was issued to, and when it
/// expires, in seconds since the Unix epoch.
#[derive(Debug)]
pub struct Claims {
    pub sub: String,
    pub exp: usize,
}

} // verus!
