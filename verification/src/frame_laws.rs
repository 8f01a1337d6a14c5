//! What is written to the app-server and read from it, line by line, and which thread a value names.

use vstd::prelude::*;

use crate::error::ErrorView;
use crate::frames::{
    begins_control, control_len, id_tree, is_control_part, level_of, one_line, request_tree,
    stripped,
};
use crate::handle::ThreadHandle;
use crate::ids::RequestId;
use crate::json::{
    display, escaped, escaped_text, json_text, law_member_is_the_first_entry, member,
    native_thread_of, quoted, string_field_of, string_field_or_meta_of, turn_keys, JsonTree,
};
use crate::number::signed_decimal;
use crate::paths::{came_first, holds_key, is_absolute, is_first, path_key, sorts};
use crate::requests::{absolute_roots, runtime_roots};
use crate::text::{is_blank, occurs_in, trimmed, views};
use crate::transport::{becomes, EnvelopeView, ReadStep};

verus! {

/// A request is written with its own number or name, its method and what it is about.
pub proof fn law_request_frame_names_its_parts(
    id: RequestId,
    method: Seq<char>,
    params: JsonTree,
)
    ensures
        member(request_tree(id, method, params), "id"@) == Some(id_tree(id)),
        member(request_tree(id, method, params), "method"@) == Some(JsonTree::Text(method)),
        member(request_tree(id, method, params), "params"@) == Some(params),
        id matches RequestId::String(text) ==> id_tree(id) == JsonTree::Text(text@),
        id matches RequestId::Integer(n) ==> id_tree(id) == JsonTree::Number(
            signed_decimal(n as int),
        ),
{
    reveal_strlit("id");
    assert("id"@.len() == 2);
    reveal_strlit("method");
    assert("method"@.len() == 6);
    reveal_strlit("params");
    assert("params"@.len() == 6);
    assert("method"@[0] != "params"@[0]);
    let entries = request_tree(id, method, params)->Object_0;
    law_member_is_the_first_entry(entries, "id"@, 0);
    law_member_is_the_first_entry(entries, "method"@, 1);
    law_member_is_the_first_entry(entries, "params"@, 2);
}

/// The answer to a request carries the number or name of the request and what is answered.
pub proof fn law_answer_frame_names_its_parts(id: JsonTree, result: JsonTree)
    ensures
        ({
            let frame = JsonTree::Object(seq![("id"@, id), ("result"@, result)]);
            &&& member(frame, "id"@) == Some(id)
            &&& member(frame, "result"@) == Some(result)
            &&& member(frame, "error"@) is None
        }),
{
    reveal_strlit("id");
    assert("id"@.len() == 2);
    reveal_strlit("result");
    assert("result"@.len() == 6);
    reveal_strlit("error");
    assert("error"@.len() == 5);
    let entries = seq![("id"@, id), ("result"@, result)];
    law_member_is_the_first_entry(entries, "id"@, 0);
    law_member_is_the_first_entry(entries, "result"@, 1);
    law_member_is_the_first_entry(entries, "error"@, 2);
}

/// The refusal of a request carries the number or name of the request, the code and why.
pub proof fn law_refusal_frame_names_its_parts(id: JsonTree, code: int, message: Seq<char>)
    ensures
        ({
            let error = JsonTree::Object(
                seq![
                    ("code"@, JsonTree::Number(signed_decimal(code))),
                    ("message"@, JsonTree::Text(message)),
                ],
            );
            let frame = JsonTree::Object(seq![("error"@, error), ("id"@, id)]);
            &&& member(frame, "id"@) == Some(id)
            &&& member(frame, "error"@) == Some(error)
            &&& member(frame, "result"@) is None
            &&& member(error, "code"@) == Some(JsonTree::Number(signed_decimal(code)))
            &&& member(error, "message"@) == Some(JsonTree::Text(message))
        }),
{
    reveal_strlit("id");
    assert("id"@.len() == 2);
    reveal_strlit("result");
    assert("result"@.len() == 6);
    reveal_strlit("error");
    assert("error"@.len() == 5);
    reveal_strlit("code");
    assert("code"@.len() == 4);
    reveal_strlit("message");
    assert("message"@.len() == 7);
    let parts = seq![
        ("code"@, JsonTree::Number(signed_decimal(code))),
        ("message"@, JsonTree::Text(message)),
    ];
    law_member_is_the_first_entry(parts, "code"@, 0);
    law_member_is_the_first_entry(parts, "message"@, 1);
    let entries = seq![("error"@, JsonTree::Object(parts)), ("id"@, id)];
    law_member_is_the_first_entry(entries, "error"@, 0);
    law_member_is_the_first_entry(entries, "id"@, 1);
    law_member_is_the_first_entry(entries, "result"@, 2);
}

/// A text is written as a line where it holds no end of one, as it is; otherwise it is refused.
pub proof fn law_line_is_written_whole(text: Seq<char>)
    ensures
        one_line(text) is Ok <==> forall|i: int|
            0 <= i < text.len() ==> #[trigger] text[i] != '\n' && text[i] != '\r',
        one_line(text) matches Ok(line) ==> line == text,
        one_line(text) matches Err(error) ==> error is Protocol,
{
    if one_line(text) is Ok {
        assert forall|i: int| 0 <= i < text.len() implies #[trigger] text[i] != '\n' && text[i]
            != '\r' by {
            if text[i] == '\n' || text[i] == '\r' {
                assert(crate::frames::is_break(text[i]));
            }
        }
    } else {
        let i = choose|i: int| 0 <= i < text.len() && crate::frames::is_break(#[trigger] text[i]);
        assert(text[i] == '\n' || text[i] == '\r');
    }
}

proof fn lemma_control(parts: Seq<char>, last: char, rest: Seq<char>)
    requires
        forall|i: int| 0 <= i < parts.len() ==> is_control_part(#[trigger] parts[i]),
        !is_control_part(last),
    ensures
        control_len(parts.push(last) + rest) == parts.len() + 1,
    decreases parts.len(),
{
    let s = parts.push(last) + rest;
    if parts.len() > 0 {
        let fewer = parts.drop_first();
        assert(s[0] == parts[0]);
        assert(s.drop_first() =~= fewer.push(last) + rest);
        assert forall|i: int| 0 <= i < fewer.len() implies is_control_part(#[trigger] fewer[i]) by {
            assert(fewer[i] == parts[i + 1]);
        }
        lemma_control(fewer, last, rest);
    } else {
        assert(s[0] == last);
    }
}

/// A control sequence of a terminal is taken out of a text, and what follows it is not.
pub proof fn law_control_sequence_is_taken_out(parts: Seq<char>, last: char, rest: Seq<char>)
    requires
        forall|i: int| 0 <= i < parts.len() ==> is_control_part(#[trigger] parts[i]),
        !is_control_part(last),
    ensures
        stripped(seq!['\u{1b}', '['] + parts.push(last) + rest) == stripped(rest),
{
    let text = seq!['\u{1b}', '['] + parts.push(last) + rest;
    assert(begins_control(text));
    assert(text.skip(2) =~= parts.push(last) + rest);
    lemma_control(parts, last, rest);
    assert(text.skip((2 + parts.len() + 1) as int) =~= rest);
}

/// What the app-server writes beside its messages is told at the level that it names; an error comes
/// before a warning, and what names none is least.
pub proof fn law_level_is_the_one_that_is_named(line: Seq<char>)
    ensures
        level_of(line) is Error <==> occurs_in(line, " ERROR "@),
        level_of(line) is Warn <==> occurs_in(line, " WARN "@) && !occurs_in(line, " ERROR "@),
        level_of(line) is Debug <==> occurs_in(line, " DEBUG "@) && !occurs_in(line, " ERROR "@)
            && !occurs_in(line, " WARN "@),
        level_of(line) is Trace <==> !occurs_in(line, " DEBUG "@) && !occurs_in(line, " ERROR "@)
            && !occurs_in(line, " WARN "@),
{
}

/// A line is taken for what it is. An answer and a refusal go to the request that they name; a
/// notification and a request are read by their method; and a line that is none of these is kept as
/// noise, unless it opens an object, which ends the stream.
pub proof fn law_line_is_taken_for_what_it_is(
    step: ReadStep,
    line: Seq<char>,
    parsed: Result<EnvelopeView, Seq<char>>,
)
    requires
        becomes(step, line, parsed),
    ensures
        parsed matches Ok(EnvelopeView::Response { id, result }) ==> {
            &&& step matches ReadStep::Deliver { id: to, result: Ok(answer) }
            &&& to@ == id
            &&& answer@ == result
        },
        parsed matches Ok(EnvelopeView::Error { id, code, message }) ==> {
            &&& step matches ReadStep::Deliver { id: to, result: Err(error) }
            &&& to@ == id
            &&& error@ == ErrorView::Transport(
                "JSON-RPC error ("@ + signed_decimal(code as int) + "): "@ + message,
            )
        },
        parsed matches Ok(EnvelopeView::Notification { method, .. }) ==> {
            &&& step matches ReadStep::Decode { id, method: asked, line: whole, .. }
            &&& id is None
            &&& asked@ == method
            &&& whole@ == line
        },
        parsed matches Ok(EnvelopeView::Request { id, method, .. }) ==> {
            &&& step matches ReadStep::Decode { id: Some(from), method: asked, line: whole, .. }
            &&& from@ == id
            &&& asked@ == method
            &&& whole@ == line
        },
        parsed is Err ==> (step is Append || step is End),
        parsed is Err && crate::transport::opens_object(line) ==> step is End,
{
}

/// A text is shown as it is, and every other value as it is written.
pub proof fn law_text_is_shown_as_it_is(tree: JsonTree)
    ensures
        tree matches JsonTree::Text(text) ==> display(tree) == text,
        !(tree is Text) ==> display(tree) == json_text(tree),
{
}

/// A text is quoted character by character: quotes and back slashes behind a back slash, control
/// characters by what stands for them, and every other character as it is.
pub proof fn law_text_is_quoted_character_by_character(s: Seq<char>, c: char)
    ensures
        quoted(Seq::empty()) == seq!['"', '"'],
        escaped_text(s.push(c)) == escaped_text(s) + escaped(c),
        quoted(s).len() == escaped_text(s).len() + 2,
        quoted(s)[0] == '"',
        quoted(s).last() == '"',
        c == '"' ==> escaped(c) == seq!['\\', '"'],
        c == '\\' ==> escaped(c) == seq!['\\', '\\'],
        c == '\n' ==> escaped(c) == seq!['\\', 'n'],
        c == '\r' ==> escaped(c) == seq!['\\', 'r'],
        c == '\t' ==> escaped(c) == seq!['\\', 't'],
        c >= ' ' && c != '"' && c != '\\' ==> escaped(c) == seq![c],
{
    assert(s.push(c).drop_last() =~= s);
    assert(quoted(Seq::empty()) =~= seq!['"', '"']);
}

/// Whether a value names something under a name, and not with white space alone.
pub open spec fn names(tree: JsonTree, key: Seq<char>, name: Seq<char>) -> bool {
    member(tree, key) == Some(JsonTree::Text(name)) && !is_blank(name)
}

/// Whether a value has no text under a name.
pub open spec fn silent(tree: JsonTree, key: Seq<char>) -> bool {
    member(tree, key) is None || !(member(tree, key)->Some_0 is Text)
}

/// The thread of a value is the one under `threadId`, and otherwise, in turn, the one under
/// `thread_id`, `conversationId` and `conversation_id`, the one of its entry `thread`, and the one
/// of its entry `_meta`. White space around the name does not count.
pub proof fn law_thread_is_found_by_its_names(tree: JsonTree, name: Seq<char>)
    ensures
        names(tree, "threadId"@, name) ==> native_thread_of(tree) == Some(trimmed(name)),
        silent(tree, "threadId"@) && names(tree, "thread_id"@, name) ==> native_thread_of(tree)
            == Some(trimmed(name)),
        silent(tree, "threadId"@) && silent(tree, "thread_id"@) && names(
            tree,
            "conversationId"@,
            name,
        ) ==> native_thread_of(tree) == Some(trimmed(name)),
        silent(tree, "threadId"@) && silent(tree, "thread_id"@) && silent(tree, "conversationId"@)
            && names(tree, "conversation_id"@, name) ==> native_thread_of(tree) == Some(
            trimmed(name),
        ),
        silent(tree, "threadId"@) && silent(tree, "thread_id"@) && silent(tree, "conversationId"@)
            && silent(tree, "conversation_id"@) ==> {
            &&& names(tree, "thread"@, name) ==> native_thread_of(tree) == Some(trimmed(name))
            &&& member(tree, "thread"@) matches Some(thread) ==> (!(thread is Text) && names(
                thread,
                "id"@,
                name,
            ) ==> native_thread_of(tree) == Some(trimmed(name)))
            &&& member(tree, "thread"@) is None ==> (member(tree, "_meta"@) matches Some(meta)
                ==> native_thread_of(tree) == native_thread_of(meta))
            &&& member(tree, "thread"@) is None && member(tree, "_meta"@) is None
                ==> native_thread_of(tree) is None
        },
{
    reveal_with_fuel(string_field_of, 5);
    let keys = crate::json::thread_keys();
    assert(keys.drop_first()[0] == "thread_id"@);
    assert(keys.drop_first().drop_first()[0] == "conversationId"@);
    assert(keys.drop_first().drop_first().drop_first()[0] == "conversation_id"@);
    assert(keys.drop_first().drop_first().drop_first().drop_first().len() == 0);
    match tree {
        JsonTree::Object(entries) => {
            lemma_index(entries, "_meta"@);
        },
        _ => {},
    }
}

proof fn lemma_index(entries: Seq<(Seq<char>, JsonTree)>, key: Seq<char>)
    ensures
        0 <= crate::json::entry_index(entries, key) <= entries.len(),
    decreases entries.len(),
{
    if entries.len() > 0 && entries[0].0 != key {
        lemma_index(entries.drop_first(), key);
    }
}

/// The turn of a value is the one under `turnId`, and otherwise the one under `turn_id`.
pub proof fn law_turn_is_found_by_its_names(tree: JsonTree, name: Seq<char>)
    ensures
        names(tree, "turnId"@, name) ==> string_field_of(tree, turn_keys()) == Some(trimmed(name)),
        silent(tree, "turnId"@) && names(tree, "turn_id"@, name) ==> string_field_of(
            tree,
            turn_keys(),
        ) == Some(trimmed(name)),
        silent(tree, "turnId"@) && silent(tree, "turn_id"@) ==> string_field_of(
            tree,
            turn_keys(),
        ) is None,
        string_field_of(tree, turn_keys()) is Some ==> string_field_or_meta_of(tree, turn_keys())
            == string_field_of(tree, turn_keys()),
{
    reveal_with_fuel(string_field_of, 3);
    assert(turn_keys().drop_first()[0] == "turn_id"@);
    assert(turn_keys().drop_first().drop_first().len() == 0);
}

/// The root of the workspace is always among the roots that may be written, as it is written;
/// nothing but it and what is configured is, and of what is configured nothing is lost but what
/// leads to the same place.
pub proof fn law_workspace_is_always_a_root(
    thread: ThreadHandle,
    configured: Seq<String>,
    found: Seq<Seq<char>>,
)
    requires
        sorts(found, runtime_roots(thread, configured)),
    ensures
        found.contains(thread.workspace_root@),
        forall|i: int|
            0 <= i < found.len() ==> #[trigger] found[i] == thread.workspace_root@ || views(
                configured,
            ).contains(found[i]),
        forall|j: int|
            0 <= j < configured.len() ==> holds_key(found, path_key(#[trigger] configured[j]@)),
{
    let paths = runtime_roots(thread, configured);
    assert(paths[0] == thread.workspace_root@);
    assert(holds_key(found, path_key(paths[0])));
    let i = choose|i: int|
        0 <= i < found.len() && path_key(#[trigger] found[i]) == path_key(paths[0]);
    assert(came_first(paths, found[i]));
    let j = choose|j: int| #[trigger] is_first(paths, j) && paths[j] == found[i];
    if j > 0 {
        assert(path_key(paths[0]) != path_key(paths[j]));
    }
    assert(found[i] == thread.workspace_root@);
    assert forall|i: int| 0 <= i < found.len() implies #[trigger] found[i]
        == thread.workspace_root@ || views(configured).contains(found[i]) by {
        assert(came_first(paths, found[i]));
        let j = choose|j: int| #[trigger] is_first(paths, j) && paths[j] == found[i];
        if j > 0 {
            assert(views(configured)[j - 1] == found[i]);
        }
    }
    assert forall|j: int| 0 <= j < configured.len() implies holds_key(
        found,
        path_key(#[trigger] configured[j]@),
    ) by {
        assert(paths[j + 1] == views(configured)[j]);
        assert(holds_key(found, path_key(paths[j + 1])));
    }
}

/// Of the configured roots those count that start at the root of the file system, in order.
pub proof fn law_relative_roots_are_left_out(roots: Seq<String>)
    ensures
        absolute_roots(roots) == views(roots.filter(|root: String| is_absolute(root@))),
        forall|path: Seq<char>| #[trigger]
            is_absolute(path) <==> path.len() > 0 && path[0] == '/',
    decreases roots.len(),
{
    reveal(Seq::filter);
    let kept = |root: String| is_absolute(root@);
    if roots.len() > 0 {
        let before = roots.drop_last();
        law_relative_roots_are_left_out(before);
        assert(absolute_roots(roots) =~= views(roots.filter(kept)));
    } else {
        assert(absolute_roots(roots) =~= views(roots.filter(kept)));
    }
    reveal_strlit("/");
    assert("/"@.len() == 1);
    assert("/"@ =~= seq!['/']);
    assert forall|path: Seq<char>| #[trigger]
        is_absolute(path) <==> path.len() > 0 && path[0] == '/' by {
        if path.len() > 0 {
            assert(path.subrange(0, 1)[0] == path[0]);
            if path[0] == '/' {
                assert(path.subrange(0, 1) =~= seq!['/']);
            }
        }
    }
}

} // verus!
