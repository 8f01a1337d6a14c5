//! Lines of the connection: how a message is written as one, and what a line shows.

use vstd::prelude::*;

use crate::error::{outcome_view, ErrorView, HarnessError};
use crate::frame_laws::{
    law_answer_frame_names_its_parts, law_refusal_frame_names_its_parts,
    law_request_frame_names_its_parts,
};
use crate::ids::RequestId;
use crate::json::{json_text, member, object1, object2, text_value, to_json_text, Json, JsonTree};
use crate::number::{i64_text, signed_decimal};
use crate::requests::Fields;
use crate::text::{chars_of, contains, is_digit, occurs_in, string_of};

verus! {

/// The identifier of a request as a JSON value.
pub open spec fn id_tree(id: RequestId) -> JsonTree {
    match id {
        RequestId::String(text) => JsonTree::Text(text@),
        RequestId::Integer(n) => JsonTree::Number(signed_decimal(n as int)),
    }
}

/// The identifier of a request as a JSON value.
pub fn id_json(id: &RequestId) -> (json: Json)
    ensures
        json@ == id_tree(*id),
{
    match id {
        RequestId::String(text) => Json::Text(text.clone()),
        RequestId::Integer(n) => Json::Number(i64_text(*n)),
    }
}

/// A request as a JSON value.
pub open spec fn request_tree(id: RequestId, method: Seq<char>, params: JsonTree) -> JsonTree {
    JsonTree::Object(
        seq![("id"@, id_tree(id)), ("method"@, JsonTree::Text(method)), ("params"@, params)],
    )
}

/// A request as a JSON value.
pub fn request_frame(id: &RequestId, method: &str, params: Json) -> (frame: Json)
    ensures
        frame@ == request_tree(*id, method@, params@),
        member(frame@, "id"@) == Some(id_tree(*id)),
        member(frame@, "method"@) == Some(JsonTree::Text(method@)),
        member(frame@, "params"@) == Some(params@),
{
    proof {
        law_request_frame_names_its_parts(*id, method@, params@);
    }
    let frame = Fields::new().set("id", id_json(id)).text("method", method).set(
        "params",
        params,
    ).object();
    proof {
        assert(frame@->Object_0 =~= request_tree(*id, method@, params@)->Object_0);
    }
    frame
}

/// The answer to a request as a JSON value.
pub fn response_frame(id: &RequestId, result: Json) -> (frame: Json)
    ensures
        frame@ == JsonTree::Object(seq![("id"@, id_tree(*id)), ("result"@, result@)]),
        member(frame@, "id"@) == Some(id_tree(*id)),
        member(frame@, "result"@) == Some(result@),
        member(frame@, "error"@) is None,
{
    proof {
        law_answer_frame_names_its_parts(id_tree(*id), result@);
    }
    object2("id", id_json(id), "result", result)
}

/// The refusal of a request as a JSON value.
pub fn error_frame(id: &RequestId, code: i64, message: &str) -> (frame: Json)
    ensures
        frame@ == JsonTree::Object(
            seq![
                (
                    "error"@,
                    JsonTree::Object(
                        seq![
                            ("code"@, JsonTree::Number(signed_decimal(code as int))),
                            ("message"@, JsonTree::Text(message@)),
                        ],
                    ),
                ),
                ("id"@, id_tree(*id)),
            ],
        ),
        member(frame@, "id"@) == Some(id_tree(*id)),
        member(frame@, "result"@) is None,
        ({
            &&& member(frame@, "error"@) matches Some(error)
            &&& member(error, "code"@) == Some(JsonTree::Number(signed_decimal(code as int)))
            &&& member(error, "message"@) == Some(JsonTree::Text(message@))
        }),
{
    proof {
        law_refusal_frame_names_its_parts(id_tree(*id), code as int, message@);
    }
    let error = object2("code", Json::Number(i64_text(code)), "message", text_value(message));
    object2("error", error, "id", id_json(id))
}

/// Something to know, without more, as a JSON value.
pub fn notification_frame(method: &str) -> (frame: Json)
    ensures
        frame@ == JsonTree::Object(seq![("method"@, JsonTree::Text(method@))]),
{
    object1("method", text_value(method))
}

/// Whether a character ends a line.
pub open spec fn is_break(c: char) -> bool {
    c == '\r' || c == '\n'
}

/// Whether a text holds the end of a line.
pub open spec fn has_break(text: Seq<char>) -> bool {
    exists|i: int| 0 <= i < text.len() && is_break(#[trigger] text[i])
}

/// A text as a line. A text that would be more than one line is refused.
pub open spec fn one_line(text: Seq<char>) -> Result<Seq<char>, ErrorView> {
    if has_break(text) {
        Err(ErrorView::Protocol("raw app-server frame contains an embedded line break"@))
    } else {
        Ok(text)
    }
}

/// A text as a line. A text that would be more than one line is refused.
pub fn single_line(text: String) -> (line: Result<String, HarnessError>)
    ensures
        outcome_view(line) == one_line(text@),
{
    let chars = chars_of(text.as_str());
    let mut i: usize = 0;
    while i < chars.len()
        invariant
            i <= chars@.len(),
            chars@ == text@,
            forall|j: int| 0 <= j < i ==> !is_break(#[trigger] text@[j]),
        decreases chars@.len() - i,
    {
        if chars[i] == '\r' || chars[i] == '\n' {
            proof {
                assert(is_break(text@[i as int]));
            }
            return Err(
                HarnessError::Protocol(
                    "raw app-server frame contains an embedded line break".to_owned(),
                ),
            );
        }
        i = i + 1;
    }
    Ok(text)
}

/// A message as a line. Each message is one line: whatever texts it holds, it can be written, and the
/// line holds no end of a line.
pub fn serialize_line(frame: &Json) -> (line: Result<String, HarnessError>)
    ensures
        line matches Ok(text) && text@ == json_text(frame@) && !has_break(text@),
{
    single_line(to_json_text(frame))
}

/// A line without what ends it.
pub open spec fn without_line_ending(line: Seq<char>) -> Seq<char> {
    if line.len() > 0 && line.last() == '\n' {
        let rest = line.drop_last();
        if rest.len() > 0 && rest.last() == '\r' {
            rest.drop_last()
        } else {
            rest
        }
    } else {
        line
    }
}

/// Takes away what ends a line.
pub fn trim_line_ending(line: &mut String)
    ensures
        final(line)@ == without_line_ending(old(line)@),
{
    let n: usize = line.as_str().unicode_len();
    if n > 0 && line.as_str().get_char(n - 1) == '\n' {
        if n > 1 && line.as_str().get_char(n - 2) == '\r' {
            *line = line.as_str().substring_char(0, n - 2).to_owned();
            proof {
                assert(line@ =~= without_line_ending(old(line)@));
            }
        } else {
            *line = line.as_str().substring_char(0, n - 1).to_owned();
            proof {
                assert(line@ =~= without_line_ending(old(line)@));
            }
        }
    }
}

/// Whether a character stands inside a control sequence of a terminal.
pub open spec fn is_control_part(c: char) -> bool {
    is_digit(c) || c == ';'
}

/// How many characters a control sequence has after its beginning: its parts, and the one that ends
/// it.
pub open spec fn control_len(rest: Seq<char>) -> nat
    decreases rest.len(),
{
    if rest.len() == 0 {
        0
    } else if is_control_part(rest[0]) {
        1 + control_len(rest.drop_first())
    } else {
        1
    }
}

/// Whether a control sequence begins here.
pub open spec fn begins_control(text: Seq<char>) -> bool {
    text.len() > 1 && text[0] == '\u{1b}' && text[1] == '['
}

/// A text without the control sequences of a terminal.
pub open spec fn stripped(text: Seq<char>) -> Seq<char>
    decreases text.len(),
{
    if text.len() == 0 {
        Seq::empty()
    } else if begins_control(text) {
        proof {
            lemma_control_len(text.skip(2));
        }
        stripped(text.skip(2 + control_len(text.skip(2)) as int))
    } else {
        seq![text[0]] + stripped(text.drop_first())
    }
}

/// A control sequence ends with the text at the latest.
pub proof fn lemma_control_len(rest: Seq<char>)
    ensures
        control_len(rest) <= rest.len(),
    decreases rest.len(),
{
    if rest.len() > 0 && is_control_part(rest[0]) {
        lemma_control_len(rest.drop_first());
    }
}

/// A text without the control sequences of a terminal.
pub fn strip_ansi(value: &str) -> (text: String)
    ensures
        text@ == stripped(value@),
{
    let chars = chars_of(value);
    let n: usize = chars.len();
    let mut output: Vec<char> = Vec::new();
    let mut i: usize = 0;
    proof {
        assert(chars@.skip(0) =~= chars@);
        assert(output@ + stripped(chars@) =~= stripped(chars@));
    }
    while i < n
        invariant
            n == chars@.len(),
            i <= n,
            chars@ == value@,
            output@ + stripped(chars@.skip(i as int)) == stripped(value@),
        decreases n - i,
    {
        let ghost rest = chars@.skip(i as int);
        if chars[i] == '\u{1b}' && i + 1 < n && chars[i + 1] == '[' {
            let ghost begun = rest.skip(2);
            let mut j: usize = i + 2;
            let mut ended = false;
            proof {
                assert(begun =~= chars@.skip(i + 2));
            }
            while j < n && !ended
                invariant
                    n == chars@.len(),
                    i + 2 <= j <= n,
                    control_len(begun) == j - (i + 2) + if ended {
                        0
                    } else {
                        control_len(chars@.skip(j as int))
                    },
                decreases n - j, (if ended {
                    0int
                } else {
                    1int
                }),
            {
                proof {
                    assert(chars@.skip(j as int).drop_first() =~= chars@.skip(j + 1));
                }
                if !(('0' <= chars[j] && chars[j] <= '9') || chars[j] == ';') {
                    ended = true;
                }
                j = j + 1;
            }
            proof {
                lemma_control_len(begun);
                assert(control_len(begun) == j - (i + 2));
                assert(rest.skip(2 + control_len(begun) as int) =~= chars@.skip(j as int));
            }
            i = j;
        } else {
            output.push(chars[i]);
            proof {
                let before = output@.drop_last();
                assert(rest.drop_first() =~= chars@.skip(i + 1));
                assert(before + (seq![rest[0]] + stripped(chars@.skip(i + 1))) =~= output@
                    + stripped(chars@.skip(i + 1)));
            }
            i = i + 1;
        }
    }
    proof {
        assert(chars@.skip(n as int) =~= Seq::empty());
        assert(output@ + Seq::<char>::empty() =~= output@);
    }
    string_of(&output)
}

/// How much a line that the app-server wrote beside its messages matters.
#[derive(Clone, Copy, PartialEq, Eq, Structural, Debug)]
#[allow(inconsistent_fields)]
pub enum StderrLevel {
    /// Something failed.
    Error,
    /// Something may go wrong.
    Warn,
    /// Something helps to find faults.
    Debug,
    /// Anything else.
    Trace,
}

/// A text without the ends of lines at its end.
pub open spec fn without_breaks(text: Seq<char>) -> Seq<char>
    decreases text.len(),
{
    if text.len() > 0 && is_break(text.last()) {
        without_breaks(text.drop_last())
    } else {
        text
    }
}

/// How much a line matters, by the word that stands in it.
pub open spec fn level_of(line: Seq<char>) -> StderrLevel {
    if occurs_in(line, " ERROR "@) {
        StderrLevel::Error
    } else if occurs_in(line, " WARN "@) {
        StderrLevel::Warn
    } else if occurs_in(line, " DEBUG "@) {
        StderrLevel::Debug
    } else {
        StderrLevel::Trace
    }
}

/// What is told of a line that the app-server wrote beside its messages, and how much it matters.
pub fn stderr_line(raw: &str) -> (told: (StderrLevel, String))
    ensures
        told.1@ == without_breaks(stripped(raw@)),
        told.0 == level_of(told.1@),
{
    let plain = strip_ansi(raw);
    let mut end: usize = plain.as_str().unicode_len();
    proof {
        assert(plain@.take(end as int) =~= plain@);
    }
    while end > 0 && (plain.as_str().get_char(end - 1) == '\n' || plain.as_str().get_char(end - 1)
        == '\r')
        invariant
            end <= plain@.len(),
            without_breaks(plain@.take(end as int)) == without_breaks(plain@),
        decreases end,
    {
        proof {
            assert(plain@.take(end as int).drop_last() =~= plain@.take(end - 1));
        }
        end = end - 1;
    }
    let line = plain.as_str().substring_char(0, end).to_owned();
    proof {
        assert(line@ =~= plain@.take(end as int));
    }
    let level = if contains(line.as_str(), " ERROR ") {
        StderrLevel::Error
    } else if contains(line.as_str(), " WARN ") {
        StderrLevel::Warn
    } else if contains(line.as_str(), " DEBUG ") {
        StderrLevel::Debug
    } else {
        StderrLevel::Trace
    };
    (level, line)
}

/// A line that was written comes back as it was, with either end of a line.
pub proof fn law_line_comes_back(line: Seq<char>)
    requires
        !has_break(line),
    ensures
        without_line_ending(line.push('\n')) == line,
        without_line_ending(line.push('\r').push('\n')) == line,
        without_line_ending(line) == line,
{
    if line.len() > 0 {
        assert(!is_break(line[line.len() - 1]));
    }
    assert(line.push('\n').drop_last() =~= line);
    assert(line.push('\r').push('\n').drop_last() =~= line.push('\r'));
    assert(line.push('\r').drop_last() =~= line);
}

/// A text without the character that begins a control sequence is left as it is.
pub proof fn law_plain_text_is_kept(text: Seq<char>)
    requires
        forall|i: int| 0 <= i < text.len() ==> #[trigger] text[i] != '\u{1b}',
    ensures
        stripped(text) == text,
    decreases text.len(),
{
    if text.len() > 0 {
        assert(text[0] != '\u{1b}');
        assert forall|i: int| 0 <= i < text.drop_first().len() implies #[trigger] text.drop_first()[i]
            != '\u{1b}' by {
            assert(text[i + 1] != '\u{1b}');
        }
        law_plain_text_is_kept(text.drop_first());
        assert(seq![text[0]] + text.drop_first() =~= text);
    }
}

} // verus!
