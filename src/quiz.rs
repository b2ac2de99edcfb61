//! Grading a questionnaire submission.
use vstd::prelude::*;
use crate::language::{lower_of, lowercase};
use crate::models::SubmitAnswer;
use crate::plan::strings_view;
use crate::text::{chars_of, string_from};

verus! {

/// A stored question, with its creation time in milliseconds since the Unix epoch.
#[derive(Debug)]
pub struct Question {
    pub id: String,
    pub questionnaire_id: String,
    pub question_text: String,
    pub question_type: String,
    /// The answer options, as a JSON array of strings.
    pub options: Option<String>,
    pub correct_answer: String,
    pub points: i32,
    pub created_at: i64,
}

/// The points a submission was worth and the points it earned.
#[derive(Debug, Clone, Copy, PartialEq, Eq, Structural)]
pub struct Score {
    pub total_points: i64,
    pub earned_points: i64,
}

/// Whether `c` is white space in the Unicode sense (the `White_Space` property).
pub open spec fn is_white(c: char) -> bool {
    ('\t' <= c <= '\r') || c == ' ' || c == '\u{85}' || c == '\u{a0}' || c == '\u{1680}' || (
    '\u{2000}' <= c <= '\u{200a}') || c == '\u{2028}' || c == '\u{2029}' || c == '\u{202f}'
        || c == '\u{205f}' || c == '\u{3000}'
}

/// `s` without its leading white space.
pub open spec fn trim_start(s: Seq<char>) -> Seq<char>
    decreases s.len(),
{
    if s.len() > 0 && is_white(s[0]) {
        trim_start(s.subrange(1, s.len() as int))
    } else {
        s
    }
}

/// `s` without its trailing white space.
pub open spec fn trim_end(s: Seq<char>) -> Seq<char>
    decreases s.len(),
{
    if s.len() > 0 && is_white(s.last()) {
        trim_end(s.drop_last())
    } else {
        s
    }
}

/// `s` without leading or trailing white space.
pub open spec fn trimmed(s: Seq<char>) -> Seq<char> {
    trim_end(trim_start(s))
}

/// The form in which answers are compared: trimmed, then lowercased.
pub open spec fn normal_form(s: Seq<char>) -> Seq<char> {
    lower_of(trimmed(s))
}

/// The first answer submitted for the question with id `qid`.
pub open spec fn answer_for(answers: Seq<SubmitAnswer>, qid: Seq<char>) -> Option<Seq<char>>
    decreases answers.len(),
{
    if answers.len() == 0 {
        None
    } else if answers[0].question_id@ == qid {
        Some(answers[0].answer@)
    } else {
        answer_for(answers.subrange(1, answers.len() as int), qid)
    }
}

/// Whether the submission earns question `q`'s points: its first answer to
/// `q` matches the correct answer, ignoring case and surrounding white space.
pub open spec fn earns(q: Question, answers: Seq<SubmitAnswer>) -> bool {
    match answer_for(answers, q.id@) {
        Some(a) => normal_form(a) == normal_form(q.correct_answer@),
        None => false,
    }
}

/// The points all of `qs` are worth.
pub open spec fn total_of(qs: Seq<Question>) -> int
    decreases qs.len(),
{
    if qs.len() == 0 {
        0
    } else {
        total_of(qs.drop_last()) + qs.last().points
    }
}

/// The points of `qs` that `answers` earn.
pub open spec fn earned_of(qs: Seq<Question>, answers: Seq<SubmitAnswer>) -> int
    decreases qs.len(),
{
    if qs.len() == 0 {
        0
    } else {
        earned_of(qs.drop_last(), answers) + if earns(qs.last(), answers) {
            qs.last().points as int
        } else {
            0
        }
    }
}

/// Whether `c` is white space in the Unicode sense.
pub fn is_white_char(c: char) -> (r: bool)
    ensures
        r == is_white(c),
{
    ('\t' <= c && c <= '\r') || c == ' ' || c == '\u{85}' || c == '\u{a0}' || c == '\u{1680}' || (
    '\u{2000}' <= c && c <= '\u{200a}') || c == '\u{2028}' || c == '\u{2029}' || c == '\u{202f}'
        || c == '\u{205f}' || c == '\u{3000}'
}

/// `s` without leading or trailing white space.
pub fn trim(s: &str) -> (r: String)
    ensures
        r@ == trimmed(s@),
{
    let v = chars_of(s);
    let n = v.len();
    let mut lo: usize = 0;
    assert(v@.subrange(0, n as int) =~= v@);
    while lo < n && is_white_char(v[lo])
        invariant
            lo <= n,
            n == v.len(),
            trim_start(v@) == trim_start(v@.subrange(lo as int, n as int)),
        decreases n - lo,
    {
        assert(v@.subrange(lo as int, n as int).subrange(1, n - lo) =~= v@.subrange(
            lo + 1,
            n as int,
        ));
        lo += 1;
    }
    let ghost start = v@.subrange(lo as int, n as int);
    assert(trim_start(start) == start);
    let mut hi: usize = n;
    assert(v@.subrange(lo as int, hi as int) =~= start);
    while hi > lo && is_white_char(v[hi - 1])
        invariant
            lo <= hi <= n,
            n == v.len(),
            trim_end(start) == trim_end(v@.subrange(lo as int, hi as int)),
        decreases hi - lo,
    {
        assert(v@.subrange(lo as int, hi as int).drop_last() =~= v@.subrange(
            lo as int,
            hi - 1,
        ));
        hi -= 1;
    }
    let ghost mid = v@.subrange(lo as int, hi as int);
    assert(trim_end(mid) == mid);
    let mut out: Vec<char> = Vec::new();
    let mut k: usize = lo;
    while k < hi
        invariant
            lo <= k <= hi,
            hi <= n,
            n == v.len(),
            out@ == v@.subrange(lo as int, k as int),
        decreases hi - k,
    {
        out.push(v[k]);
        k += 1;
        assert(out@ =~= v@.subrange(lo as int, k as int));
    }
    assert(v@ == s@);
    string_from(&out)
}

/// The form in which answers are compared: trimmed, then lowercased.
pub fn normalize_answer(s: &str) -> (r: String)
    ensures
        r@ == normal_form(s@),
{
    let t = trim(s);
    lowercase(t.as_str())
}

/// The first answer submitted for the question with id `qid`.
pub fn find_answer<'a>(answers: &'a Vec<SubmitAnswer>, qid: &String) -> (r: Option<&'a String>)
    ensures
        match answer_for(answers@, qid@) {
            None => r is None,
            Some(a) => r matches Some(s) && s@ == a,
        },
{
    let mut i: usize = 0;
    assert(answers@.subrange(0, answers.len() as int) =~= answers@);
    while i < answers.len()
        invariant
            i <= answers.len(),
            answer_for(answers@, qid@) == answer_for(
                answers@.subrange(i as int, answers.len() as int),
                qid@,
            ),
        decreases answers.len() - i,
    {
        assert(answers@.subrange(i as int, answers.len() as int).subrange(
            1,
            answers.len() - i,
        ) =~= answers@.subrange(i + 1, answers.len() as int));
        if answers[i].question_id == *qid {
            return Some(&answers[i].answer);
        }
        i += 1;
    }
    None
}

proof fn lemma_sums_bounded(qs: Seq<Question>, answers: Seq<SubmitAnswer>)
    ensures
        -2147483648 * qs.len() <= total_of(qs) <= 2147483647 * qs.len(),
        -2147483648 * qs.len() <= earned_of(qs, answers) <= 2147483647 * qs.len(),
    decreases qs.len(),
{
    if qs.len() > 0 {
        lemma_sums_bounded(qs.drop_last(), answers);
    }
}

/// Grades a submission: every question's points count toward the total,
/// and toward the earned points when the first answer given for it matches
/// the correct answer, ignoring case and surrounding white space.
pub fn score_answers(questions: &Vec<Question>, answers: &Vec<SubmitAnswer>) -> (r: Score)
    requires
        questions.len() <= 0xffff_ffff,
    ensures
        r.total_points == total_of(questions@),
        r.earned_points == earned_of(questions@, answers@),
{
    let mut total: i64 = 0;
    let mut earned: i64 = 0;
    let mut i: usize = 0;
    while i < questions.len()
        invariant
            i <= questions.len(),
            questions.len() <= 0xffff_ffff,
            total == total_of(questions@.subrange(0, i as int)),
            earned == earned_of(questions@.subrange(0, i as int), answers@),
        decreases questions.len() - i,
    {
        let q = &questions[i];
        let ghost next = questions@.subrange(0, i + 1);
        assert(next.drop_last() =~= questions@.subrange(0, i as int));
        proof {
            lemma_sums_bounded(questions@.subrange(0, i as int), answers@);
        }
        total = total + q.points as i64;
        match find_answer(answers, &q.id) {
            Some(a) => {
                let given = normalize_answer(a.as_str());
                let expected = normalize_answer(q.correct_answer.as_str());
                if given == expected {
                    earned = earned + q.points as i64;
                }
            },
            None => {},
        }
        i += 1;
    }
    assert(questions@.subrange(0, questions.len() as int) =~= questions@);
    Score { total_points: total, earned_points: earned }
}

#[verifier::external_type_specification]
#[verifier::external_body]
pub struct ExJsonError(serde_json::Error);

/// The JSON array of the strings `items`, as `serde_json::to_string` writes it.
pub uninterp spec fn json_string_array(items: Seq<Seq<char>>) -> Seq<char>;

/// Relies on `serde_json::to_string` on a list of strings: the compact JSON
/// array of those strings, which depends on them alone.
#[verifier::external_body]
fn encode_strings(items: &Vec<String>) -> (r: Result<String, serde_json::Error>)
    ensures
        r matches Ok(s) ==> s@ == json_string_array(strings_view(items@)),
{
    serde_json::to_string(items)
}

/// The answer options of a new question could not be encoded.
#[derive(Debug, Clone, Copy, PartialEq, Eq, Structural)]
pub struct OptionsNotEncoded;

/// How a new question's answer options are stored: as a JSON array of
/// strings when there are any, else not at all.
pub fn options_json(options: &Option<Vec<String>>) -> (r: Result<Option<String>, OptionsNotEncoded>)
    ensures
        match options {
            None => r matches Ok(None),
            Some(v) => match r {
                Ok(Some(s)) => s@ == json_string_array(strings_view(v@)),
                Ok(None) => false,
                Err(_) => true,
            },
        },
{
    match options {
        None => Ok(None),
        Some(v) => match encode_strings(v) {
            Ok(s) => Ok(Some(s)),
            Err(_) => Err(OptionsNotEncoded),
        },
    }
}

} // verus!
