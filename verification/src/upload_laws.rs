//! What becomes of the files that a user sends.

use vstd::prelude::*;

use crate::ids::ThreadId;
use crate::json::{member, JsonTree};
use crate::modes::{AttachmentKind, UserAttachment, UserInput};
use crate::number::{decimal, padded_hex, two_digits};
use crate::request_laws::law_file_requests_name_the_path;
use crate::text::{begins_with, is_blank, is_digit, is_space, occurs_at, occurs_in, trimmed};
use crate::text_laws::{
    law_hexadecimal_tells_numbers_apart, law_two_digits_stand_for_the_number, lemma_hex_len,
    lemma_powers_of_sixteen,
};
use crate::uploads::{
    below, files_of, images_of, is_pad, is_safe, lines_of_files, prepared_text, removal_of, safe_name,
    sanitized, unpadded_end, unpadded_start, upload_dir_path, upload_path, uploads_as, writes_of,
    UploadPlan,
};

verus! {

/// A name that is safe already is kept, and one that is not keeps its safe characters in place.
pub proof fn law_safe_names_are_kept(name: Seq<char>)
    requires
        0 < name.len() <= 96,
        forall|i: int| 0 <= i < name.len() ==> is_safe(#[trigger] name[i]),
        !is_pad(name[0]),
        !is_pad(name.last()),
    ensures
        safe_name(name) == name,
{
    assert(sanitized(name) =~= name);
    assert(is_safe(name[0]) && is_safe(name.last()));
    assert(!is_space(name[0]) && !is_space(name.last()));
    assert(trimmed(name) == name);
}

/// Characters that are not safe are replaced, one for one.
pub proof fn law_other_characters_are_replaced(name: Seq<char>, i: int)
    requires
        0 <= i < name.len(),
    ensures
        sanitized(name).len() == name.len(),
        is_safe(name[i]) ==> sanitized(name)[i] == name[i],
        !is_safe(name[i]) ==> sanitized(name)[i] == '_',
        is_safe(name[i]) <==> ('0' <= name[i] <= '9' || 'A' <= name[i] <= 'Z' || 'a' <= name[i]
            <= 'z' || name[i] == '.' || name[i] == '-' || name[i] == '_'),
        is_pad(name[i]) <==> (name[i] == '.' || name[i] == '_'),
{
}

/// A path below a directory is the directory, a slash and the name; a slash that is there already
/// is not doubled.
pub proof fn law_path_is_directory_and_name(dir: Seq<char>, name: Seq<char>)
    ensures
        dir.len() == 0 ==> below(dir, name) == name,
        dir.len() > 0 && dir.last() != '/' ==> below(dir, name) == dir + "/"@ + name,
        dir.len() > 0 && dir.last() == '/' ==> below(dir, name) == dir + name,
{
}

/// Uploads of one thread go to a directory of that thread, and two directories that were drawn
/// apart are apart.
pub proof fn law_upload_directories_are_apart(
    temp_dir: Seq<char>,
    thread: ThreadId,
    a: (u64, u64),
    b: (u64, u64),
)
    requires
        temp_dir.len() > 0,
        upload_dir_path(temp_dir, thread, a.0, a.1) == upload_dir_path(
            temp_dir,
            thread,
            b.0,
            b.1,
        ),
    ensures
        a == b,
        begins_with(
            upload_dir_path(temp_dir, thread, a.0, a.1),
            below(below(temp_dir, "giskard-codex-uploads"@), thread.chars() + "-"@),
        ),
{
    let parent = below(temp_dir, "giskard-codex-uploads"@);
    reveal_strlit("giskard-codex-uploads");
    reveal_strlit("/");
    let start = thread.chars() + "-"@;
    let h = padded_hex(a.0 as nat, 16);
    let l = padded_hex(a.1 as nat, 16);
    let k = padded_hex(b.0 as nat, 16);
    let m = padded_hex(b.1 as nat, 16);
    let head = below(parent, start);
    lemma_hex_len(a.0 as nat, 16);
    lemma_hex_len(a.1 as nat, 16);
    lemma_hex_len(b.0 as nat, 16);
    lemma_hex_len(b.1 as nat, 16);
    let path = upload_dir_path(temp_dir, thread, a.0, a.1);
    let other = upload_dir_path(temp_dir, thread, b.0, b.1);
    assert(path =~= head + h + l);
    assert(other =~= head + k + m);
    let n = head.len() as int;
    assert(path.subrange(n, n + 16) =~= h);
    assert(other.subrange(n, n + 16) =~= k);
    assert(path.subrange(n + 16, n + 32) =~= l);
    assert(other.subrange(n + 16, n + 32) =~= m);
    law_hexadecimal_tells_numbers_apart(a.0 as nat, b.0 as nat, 16);
    law_hexadecimal_tells_numbers_apart(a.1 as nat, b.1 as nat, 16);
    lemma_powers_of_sixteen();
    assert(path.subrange(0, n) =~= head);
    assert(occurs_at(path, head, 0));
}

/// Whether one of the requests writes a file at a path with its bytes.
pub open spec fn writes(
    calls: Seq<crate::requests::CallView>,
    path: Seq<char>,
    data: Seq<char>,
) -> bool {
    exists|k: int|
        0 <= k < calls.len() && (#[trigger] calls[k]).method == "fs/writeFile"@ && member(
            calls[k].params,
            "path"@,
        ) == Some(JsonTree::Text(path)) && member(calls[k].params, "dataBase64"@) == Some(
            JsonTree::Text(data),
        )
}

/// Each file is written, with its own bytes and under a path of its own, and nothing else is. The
/// user's words tell the path.
pub proof fn law_every_file_is_written(
    attachments: Seq<UserAttachment>,
    dir: Seq<char>,
    nonces: Seq<u64>,
    i: int,
)
    requires
        0 <= i < attachments.len(),
        attachments[i].kind == AttachmentKind::File,
        nonces.len() == attachments.len(),
    ensures
        writes(
            writes_of(attachments, dir, nonces),
            upload_path(dir, i as nat, nonces[i], attachments[i].name@),
            attachments[i].data_base64@,
        ),
        occurs_in(
            lines_of_files(attachments, dir, nonces),
            upload_path(dir, i as nat, nonces[i], attachments[i].name@),
        ),
    decreases attachments.len(), 1int,
{
    let last = attachments.len() - 1;
    let path = upload_path(dir, i as nat, nonces[i], attachments[i].name@);
    let data = attachments[i].data_base64@;
    let shorter = attachments.drop_last();
    let calls = writes_of(attachments, dir, nonces);
    let before = writes_of(shorter, dir, nonces);
    let lines = lines_of_files(attachments, dir, nonces);
    let above = lines_of_files(shorter, dir, nonces);
    if i == last {
        law_file_requests_name_the_path(path, data);
        assert(calls[before.len() as int] == crate::requests::write_file_request(path, data));
        let head = above + "- "@ + safe_name(attachments[i].name@) + ": "@;
        assert(lines =~= head + path + "\n"@);
        assert(lines.subrange(head.len() as int, head.len() + path.len() as int) =~= path);
        assert(occurs_at(lines, path, head.len() as int));
    } else {
        lemma_files_apart(attachments, dir, nonces, i);
        let k = choose|k: int|
            0 <= k < before.len() && (#[trigger] before[k]).method == "fs/writeFile"@ && member(
                before[k].params,
                "path"@,
            ) == Some(JsonTree::Text(path)) && member(before[k].params, "dataBase64"@) == Some(
                JsonTree::Text(data),
            );
        assert(calls[k] == before[k]);
        let at = choose|at: int| occurs_at(above, path, at);
        assert(lines.take(above.len() as int) =~= above);
        assert(lines.subrange(at, at + path.len() as int) =~= above.subrange(
            at,
            at + path.len() as int,
        ));
        assert(occurs_at(lines, path, at));
    }
}

proof fn lemma_files_apart(
    attachments: Seq<UserAttachment>,
    dir: Seq<char>,
    nonces: Seq<u64>,
    i: int,
)
    requires
        0 <= i < attachments.len() - 1,
        attachments[i].kind == AttachmentKind::File,
        nonces.len() == attachments.len(),
    ensures
        ({
            let shorter = attachments.drop_last();
            let path = upload_path(dir, i as nat, nonces[i], attachments[i].name@);
            &&& writes(writes_of(shorter, dir, nonces), path, attachments[i].data_base64@)
            &&& occurs_in(lines_of_files(shorter, dir, nonces), path)
        }),
    decreases attachments.len(), 0int,
{
    let shorter = attachments.drop_last();
    let fewer = nonces.drop_last();
    law_every_file_is_written(shorter, dir, fewer, i);
    lemma_later_numbers_do_not_matter(shorter, dir, nonces, fewer);
}

proof fn lemma_later_numbers_do_not_matter(
    attachments: Seq<UserAttachment>,
    dir: Seq<char>,
    nonces: Seq<u64>,
    fewer: Seq<u64>,
)
    requires
        fewer.len() >= attachments.len(),
        nonces.len() >= attachments.len(),
        forall|i: int| 0 <= i < attachments.len() ==> #[trigger] nonces[i] == fewer[i],
    ensures
        writes_of(attachments, dir, nonces) == writes_of(attachments, dir, fewer),
        lines_of_files(attachments, dir, nonces) == lines_of_files(attachments, dir, fewer),
    decreases attachments.len(),
{
    if attachments.len() > 0 {
        lemma_later_numbers_do_not_matter(attachments.drop_last(), dir, nonces, fewer);
        let last = attachments.len() - 1;
        assert(nonces[last] == fewer[last]);
    }
}

/// As many files are written as were sent, and every image stays with the words, in order.
pub proof fn law_nothing_else_is_written(
    attachments: Seq<UserAttachment>,
    dir: Seq<char>,
    nonces: Seq<u64>,
)
    ensures
        writes_of(attachments, dir, nonces).len() == attachments.filter(
            |attachment: UserAttachment| attachment.kind == AttachmentKind::File,
        ).len(),
        images_of(attachments) == attachments.filter(
            |attachment: UserAttachment| attachment.kind == AttachmentKind::Image,
        ),
        files_of(attachments) <==> exists|i: int|
            0 <= i < attachments.len() && (#[trigger] attachments[i]).kind == AttachmentKind::File,
    decreases attachments.len(),
{
    reveal(Seq::filter);
    if attachments.len() > 0 {
        law_nothing_else_is_written(attachments.drop_last(), dir, nonces);
    }
}

/// What the user said stays as it was where no file was sent, and otherwise comes first, before the
/// list of files, apart from it by an empty line.
pub proof fn law_words_come_before_the_files(input: UserInput, dir: Seq<char>, nonces: Seq<u64>)
    ensures
        !files_of(input.attachments@) ==> prepared_text(input, dir, nonces) == input.text@,
        begins_with(prepared_text(input, dir, nonces), input.text@),
        files_of(input.attachments@) && is_blank(input.text@) ==> prepared_text(input, dir, nonces)
            == input.text@ + "Attached files available on the harness host:\n"@ + lines_of_files(
            input.attachments@,
            dir,
            nonces,
        ),
        files_of(input.attachments@) && !is_blank(input.text@) ==> prepared_text(input, dir, nonces)
            == input.text@ + "\n\n"@ + "Attached files available on the harness host:\n"@
            + lines_of_files(input.attachments@, dir, nonces),
{
    let told = prepared_text(input, dir, nonces);
    assert(told.subrange(0, input.text@.len() as int) =~= input.text@);
    assert(occurs_at(told, input.text@, 0));
    if is_blank(input.text@) {
        assert(input.text@ + Seq::<char>::empty() =~= input.text@);
    }
}

/// The directory of uploads is made before anything is written into it, and is the one that is
/// removed.
pub proof fn law_directory_is_made_first(
    plan: UploadPlan,
    input: UserInput,
    dir: Seq<char>,
    nonces: Seq<u64>,
)
    requires
        uploads_as(plan, input, dir, nonces),
        files_of(input.attachments@),
    ensures
        plan.calls@.len() > 0,
        plan.calls@[0]@.method == "fs/createDirectory"@,
        member(plan.calls@[0]@.params, "path"@) == Some(JsonTree::Text(dir)),
        plan.upload_dir matches Some(made) ==> {
            &&& made@ == dir
            &&& removal_of(plan.upload_dir) matches Some(call)
            &&& call.method == "fs/remove"@
            &&& member(call.params, "path"@) == Some(JsonTree::Text(dir))
        },
        removal_of(None) is None,
{
    law_file_requests_name_the_path(dir, Seq::empty());
    let views = crate::uploads::call_views(plan.calls@);
    assert(views[0] == crate::requests::make_directory_request(dir));
    assert(views.len() == plan.calls@.len());
    assert(views[0] == plan.calls@[0]@);
}

/// A file is written under its place in the message, a number that was drawn for it, and its safe
/// name, so that two files of one message never share a path.
pub proof fn law_file_has_a_path_of_its_own(
    dir: Seq<char>,
    index: nat,
    nonce: u64,
    name: Seq<char>,
    other: (nat, u64, Seq<char>),
)
    requires
        dir.len() > 0,
        dir.last() != '/',
    ensures
        upload_path(dir, index, nonce, name) == dir + "/"@ + (two_digits(index) + "-"@ + decimal(
            nonce as nat,
        ) + "-"@ + safe_name(name)),
        index != other.0 ==> upload_path(dir, index, nonce, name) != upload_path(
            dir,
            other.0,
            other.1,
            other.2,
        ),
{
    reveal_strlit("/");
    reveal_strlit("-");
    let a = two_digits(index);
    let b = two_digits(other.0);
    let x = upload_path(dir, index, nonce, name);
    let y = upload_path(dir, other.0, other.1, other.2);
    law_two_digits_stand_for_the_number(index);
    law_two_digits_stand_for_the_number(other.0);
    let n: int = dir.len() + 1int;
    if x == y {
        assert(x[n + a.len()] == '-');
        assert(y[n + b.len()] == '-');
        if a.len() < b.len() {
            assert(y[n + a.len()] == b[a.len() as int]);
            assert(is_digit(b[a.len() as int]));
        }
        if b.len() < a.len() {
            assert(x[n + b.len()] == a[b.len() as int]);
            assert(is_digit(a[b.len() as int]));
        }
        assert(x.subrange(n, n + a.len()) =~= a);
        assert(y.subrange(n, n + b.len()) =~= b);
    }
}

/// Each file is listed on a line of its own, with its name and its path; an image is not listed.
pub proof fn law_each_file_has_a_line(
    attachments: Seq<UserAttachment>,
    more: UserAttachment,
    dir: Seq<char>,
    nonces: Seq<u64>,
)
    requires
        nonces.len() == attachments.len() + 1,
    ensures
        lines_of_files(Seq::empty(), dir, nonces).len() == 0,
        more.kind == AttachmentKind::Image ==> lines_of_files(attachments.push(more), dir, nonces)
            == lines_of_files(attachments, dir, nonces),
        more.kind == AttachmentKind::File ==> lines_of_files(attachments.push(more), dir, nonces)
            == lines_of_files(attachments, dir, nonces) + "- "@ + safe_name(more.name@) + ": "@
            + upload_path(dir, attachments.len(), nonces.last(), more.name@) + "\n"@,
{
    assert(attachments.push(more).drop_last() =~= attachments);
}

/// Dots and underscores are taken away from both ends of a name, and nothing else is.
pub proof fn law_padding_is_taken_away(s: Seq<char>) -> (cut: (int, int))
    ensures
        0 <= cut.0 <= s.len(),
        unpadded_start(s) == s.skip(cut.0),
        forall|i: int| 0 <= i < cut.0 ==> is_pad(#[trigger] s[i]),
        cut.0 < s.len() ==> !is_pad(s[cut.0]),
        0 <= cut.1 <= s.len(),
        unpadded_end(s) == s.take(cut.1),
        forall|i: int| cut.1 <= i < s.len() ==> is_pad(#[trigger] s[i]),
        cut.1 > 0 ==> !is_pad(s[cut.1 - 1]),
    decreases s.len(),
{
    let a = if s.len() > 0 && is_pad(s[0]) {
        let rest = s.drop_first();
        let cut = law_padding_is_taken_away(rest);
        assert(s.skip(cut.0 + 1) =~= rest.skip(cut.0));
        assert forall|i: int| 0 <= i < cut.0 + 1 implies is_pad(#[trigger] s[i]) by {
            if i > 0 {
                assert(rest[i - 1] == s[i]);
            }
        }
        cut.0 + 1
    } else {
        assert(s.skip(0) =~= s);
        0
    };
    let b = if s.len() > 0 && is_pad(s.last()) {
        let rest = s.drop_last();
        let cut = law_padding_is_taken_away(rest);
        assert(s.take(cut.1) =~= rest.take(cut.1));
        assert forall|i: int| cut.1 <= i < s.len() implies is_pad(#[trigger] s[i]) by {
            if i < s.len() - 1 {
                assert(rest[i] == s[i]);
            }
        }
        cut.1
    } else {
        assert(s.take(s.len() as int) =~= s);
        s.len() as int
    };
    (a, b)
}

/// A name is cut to ninety-six characters, and one of which nothing is left is `attachment`.
pub proof fn law_long_names_are_cut(name: Seq<char>)
    ensures
        ({
            let kept = trimmed(unpadded_end(unpadded_start(sanitized(name))));
            &&& kept.len() == 0 ==> safe_name(name) == "attachment"@
            &&& 0 < kept.len() <= 96 ==> safe_name(name) == kept
            &&& kept.len() > 96 ==> safe_name(name) == kept.take(96)
        }),
{
}

} // verus!
