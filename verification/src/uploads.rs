//! Files that go along with a turn: where they are put, and what the agent is told of them.

use vstd::prelude::*;

use crate::error::HarnessError;
use crate::handle::ThreadHandle;
use crate::ids::ThreadId;
use crate::modes::{AttachmentKind, UserAttachment, UserInput};
use crate::number::{decimal, digit_char, hex_text, padded_hex, two_digit_text, two_digits, u64_text};
use crate::requests::{
    make_directory_call, make_directory_request, remove_call, remove_request, write_file_call,
    write_file_request, Call, CallView,
};
use crate::text::{
    blank, char_is_alphanumeric, concat, is_alphanumeric, is_blank, trim, trimmed,
};

verus! {

/// Whether a character may stand in the name of an uploaded file.
pub open spec fn is_safe(c: char) -> bool {
    is_alphanumeric(c) || c == '.' || c == '-' || c == '_'
}

/// A character that may stand in the name of an uploaded file.
pub open spec fn safe_char(c: char) -> char {
    if is_safe(c) {
        c
    } else {
        '_'
    }
}

/// A text with a low line for each character that is not safe.
pub open spec fn sanitized(s: Seq<char>) -> Seq<char> {
    s.map_values(|c: char| safe_char(c))
}

/// Whether a character may not stand at either end of the name of an uploaded file.
pub open spec fn is_pad(c: char) -> bool {
    c == '.' || c == '_'
}

/// A text without the dots and low lines at its start.
pub open spec fn unpadded_start(s: Seq<char>) -> Seq<char>
    decreases s.len(),
{
    if s.len() > 0 && is_pad(s[0]) {
        unpadded_start(s.drop_first())
    } else {
        s
    }
}

/// A text without the dots and low lines at its end.
pub open spec fn unpadded_end(s: Seq<char>) -> Seq<char>
    decreases s.len(),
{
    if s.len() > 0 && is_pad(s.last()) {
        unpadded_end(s.drop_last())
    } else {
        s
    }
}

/// The name of an uploaded file: no more than 96 safe characters, with neither a dot nor a low line
/// at the start; `attachment` where nothing else is left.
pub open spec fn safe_name(name: Seq<char>) -> Seq<char> {
    let kept = trimmed(unpadded_end(unpadded_start(sanitized(name))));
    if kept.len() == 0 {
        "attachment"@
    } else if kept.len() <= 96 {
        kept
    } else {
        kept.take(96)
    }
}

fn sanitize(name: &str) -> (text: String)
    ensures
        text@ == sanitized(name@),
{
    let mut text = String::new();
    let n: usize = name.unicode_len();
    let mut i: usize = 0;
    while i < n
        invariant
            n == name@.len(),
            i <= n,
            text@ == sanitized(name@).take(i as int),
        decreases n - i,
    {
        let c = name.get_char(i);
        if char_is_alphanumeric(c) || c == '.' || c == '-' || c == '_' {
            text.push(c);
        } else {
            text.push('_');
        }
        proof {
            assert(sanitized(name@).take(i + 1) =~= sanitized(name@).take(i as int).push(
                safe_char(name@[i as int]),
            ));
        }
        i = i + 1;
    }
    proof {
        assert(sanitized(name@).take(n as int) =~= sanitized(name@));
    }
    text
}

fn unpad<'a>(s: &'a str) -> (rest: &'a str)
    ensures
        rest@ == unpadded_end(unpadded_start(s@)),
{
    let n: usize = s.unicode_len();
    let mut from: usize = 0;
    proof {
        assert(s@.skip(0) =~= s@);
    }
    while from < n && (s.get_char(from) == '.' || s.get_char(from) == '_')
        invariant
            n == s@.len(),
            from <= n,
            unpadded_start(s@) == unpadded_start(s@.skip(from as int)),
        decreases n - from,
    {
        proof {
            assert(s@.skip(from as int)[0] == s@[from as int]);
            assert(s@.skip(from as int).drop_first() =~= s@.skip(from + 1));
        }
        from = from + 1;
    }
    proof {
        if from < n {
            assert(s@.skip(from as int)[0] == s@[from as int]);
        }
    }
    let ghost inner = s@.skip(from as int);
    let mut to: usize = n;
    proof {
        assert(inner.take((to - from) as int) =~= inner);
    }
    while to > from && (s.get_char(to - 1) == '.' || s.get_char(to - 1) == '_')
        invariant
            n == s@.len(),
            from <= to <= n,
            inner == s@.skip(from as int),
            unpadded_end(inner) == unpadded_end(inner.take((to - from) as int)),
        decreases to - from,
    {
        proof {
            assert(inner.take((to - from) as int).last() == s@[to - 1]);
            assert(inner.take((to - from) as int).drop_last() =~= inner.take(
                (to - 1 - from) as int,
            ));
        }
        to = to - 1;
    }
    proof {
        if to > from {
            assert(inner.take((to - from) as int).last() == s@[to - 1]);
        }
    }
    let rest = s.substring_char(from, to);
    proof {
        assert(rest@ =~= inner.take((to - from) as int));
    }
    rest
}

/// The name of an uploaded file.
pub fn safe_upload_file_name(name: &str) -> (text: String)
    ensures
        text@ == safe_name(name@),
{
    let sanitized = sanitize(name);
    let kept = trim(unpad(sanitized.as_str()));
    let n: usize = kept.unicode_len();
    if n == 0 {
        "attachment".to_owned()
    } else if n <= 96 {
        kept.to_owned()
    } else {
        let short = kept.substring_char(0, 96);
        proof {
            assert(short@ =~= kept@.take(96));
        }
        short.to_owned()
    }
}

proof fn lemma_unpadded_start(s: Seq<char>)
    ensures
        unpadded_start(s).len() > 0 ==> !is_pad(unpadded_start(s)[0]),
        forall|i: int|
            0 <= i < unpadded_start(s).len() ==> s.contains(#[trigger] unpadded_start(s)[i]),
    decreases s.len(),
{
    if s.len() > 0 && is_pad(s[0]) {
        lemma_unpadded_start(s.drop_first());
        assert forall|i: int| 0 <= i < unpadded_start(s).len() implies s.contains(
            #[trigger] unpadded_start(s)[i],
        ) by {
            let c = unpadded_start(s.drop_first())[i];
            assert(s.drop_first().contains(c));
            let j = choose|j: int| 0 <= j < s.drop_first().len() && s.drop_first()[j] == c;
            assert(s[j + 1] == c);
        }
    }
}

proof fn lemma_unpadded_end(s: Seq<char>)
    ensures
        unpadded_end(s).len() <= s.len(),
        unpadded_end(s) == s.take(unpadded_end(s).len() as int),
    decreases s.len(),
{
    if s.len() > 0 && is_pad(s.last()) {
        lemma_unpadded_end(s.drop_last());
        assert(s.drop_last().take(unpadded_end(s).len() as int) =~= s.take(
            unpadded_end(s).len() as int,
        ));
    } else {
        assert(s.take(s.len() as int) =~= s);
    }
}

proof fn lemma_spaceless_is_trimmed(s: Seq<char>)
    requires
        forall|i: int| 0 <= i < s.len() ==> !crate::text::is_space(#[trigger] s[i]),
    ensures
        trimmed(s) == s,
{
    if s.len() > 0 {
        assert(!crate::text::is_space(s[0]));
        assert(!crate::text::is_space(s.last()));
    }
}

/// The name of an uploaded file is safe whatever it was before: it is not empty, no longer than 96
/// characters, made of safe characters alone, so that it leads into no other directory, and it does
/// not start with a dot.
pub proof fn law_upload_name_is_safe(name: Seq<char>)
    ensures
        0 < safe_name(name).len() <= 96,
        forall|i: int| 0 <= i < safe_name(name).len() ==> is_safe(#[trigger] safe_name(name)[i]),
        safe_name(name)[0] != '.',
        safe_name(name)[0] != '_',
{
    let clean = sanitized(name);
    let start = unpadded_start(clean);
    let kept = unpadded_end(start);
    lemma_unpadded_start(clean);
    lemma_unpadded_end(start);
    assert forall|i: int| 0 <= i < kept.len() implies is_safe(#[trigger] kept[i]) by {
        assert(kept[i] == start[i]);
        assert(clean.contains(start[i]));
    }
    lemma_spaceless_is_trimmed(kept);
    reveal_strlit("attachment");
    assert(is_safe('a') && is_safe('t') && is_safe('c') && is_safe('h') && is_safe('m') && is_safe(
        'e',
    ) && is_safe('n'));
}

/// A directory or a file below a directory.
pub open spec fn below(dir: Seq<char>, name: Seq<char>) -> Seq<char> {
    if dir.len() == 0 {
        name
    } else if dir.last() == '/' {
        dir + name
    } else {
        dir + "/"@ + name
    }
}

fn path_below(dir: &str, name: &str) -> (path: String)
    ensures
        path@ == below(dir@, name@),
{
    let n: usize = dir.unicode_len();
    if n == 0 {
        name.to_owned()
    } else if dir.get_char(n - 1) == '/' {
        concat(dir, name)
    } else {
        crate::text::concat3(dir, "/", name)
    }
}

/// `rand::RngCore::next_u64` of the thread's generator gives some number. Nothing more is said of
/// it: it is drawn by chance.
#[verifier::external_body]
pub(crate) fn random_u64() -> (number: u64) {
    rand::RngCore::next_u64(&mut rand::thread_rng())
}

/// The directory for the files of a turn: its own, by the thread and by numbers that were drawn.
pub open spec fn upload_dir_path(temp_dir: Seq<char>, thread: ThreadId, high: u64, low: u64) -> Seq<
    char,
> {
    below(
        below(temp_dir, "giskard-codex-uploads"@),
        thread.chars() + "-"@ + padded_hex(high as nat, 16) + padded_hex(low as nat, 16),
    )
}

/// The directory for the files of a turn with given numbers.
pub fn upload_dir_of(temp_dir: &str, thread: ThreadId, high: u64, low: u64) -> (path: String)
    ensures
        path@ == upload_dir_path(temp_dir@, thread, high, low),
{
    let mut name = thread.text();
    name.append("-");
    name.append(hex_text(high, 16).as_str());
    name.append(hex_text(low, 16).as_str());
    path_below(path_below(temp_dir, "giskard-codex-uploads").as_str(), name.as_str())
}

/// Whether a directory is one for the files of a turn, with some numbers.
pub open spec fn is_upload_dir(dir: Seq<char>, temp_dir: Seq<char>, thread: ThreadId) -> bool {
    exists|high: u64, low: u64| dir == #[trigger] upload_dir_path(temp_dir, thread, high, low)
}

/// A directory for the files of a turn.
pub fn codex_upload_dir(temp_dir: &str, thread: &ThreadHandle) -> (path: String)
    ensures
        is_upload_dir(path@, temp_dir@, thread.thread),
{
    let high: u64 = random_u64();
    let low: u64 = random_u64();
    upload_dir_of(temp_dir, thread.thread, high, low)
}

/// Where a file goes: by its place among the attachments, a number that was drawn, and its name.
pub open spec fn upload_path(dir: Seq<char>, index: nat, nonce: u64, name: Seq<char>) -> Seq<char> {
    below(dir, two_digits(index) + "-"@ + decimal(nonce as nat) + "-"@ + safe_name(name))
}

/// Where a file goes with a given number.
pub fn upload_path_of(dir: &str, index: usize, nonce: u64, name: &str) -> (path: String)
    ensures
        path@ == upload_path(dir@, index as nat, nonce, name@),
{
    let mut file = two_digit_text(index as u64);
    file.append("-");
    file.append(u64_text(nonce).as_str());
    file.append("-");
    file.append(safe_upload_file_name(name).as_str());
    path_below(dir, file.as_str())
}

/// Where a file goes.
pub fn codex_upload_path(dir: &str, index: usize, attachment: &UserAttachment) -> (path: String)
    ensures
        exists|nonce: u64|
            path@ == #[trigger] upload_path(dir@, index as nat, nonce, attachment.name@),
{
    let nonce: u64 = random_u64();
    upload_path_of(dir, index, nonce, attachment.name.as_str())
}

/// What is to be done before a turn with attachments starts.
#[derive(Debug)]
pub struct UploadPlan {
    /// The directory of the files, where there are any.
    pub upload_dir: Option<String>,
    /// What the app-server is asked to do, one after another: to make the directory, then to write
    /// each file.
    pub calls: Vec<Call>,
    /// What the user said, with the files as words and the images as they came.
    pub input: UserInput,
}

/// The requests of a plan.
pub open spec fn call_views(calls: Seq<Call>) -> Seq<CallView> {
    calls.map_values(|call: Call| call@)
}

/// The files among attachments.
pub open spec fn files_of(attachments: Seq<UserAttachment>) -> bool {
    exists|i: int|
        0 <= i < attachments.len() && (#[trigger] attachments[i]).kind == AttachmentKind::File
}

/// The requests that write the files among attachments.
pub open spec fn writes_of(attachments: Seq<UserAttachment>, dir: Seq<char>, nonces: Seq<u64>) -> Seq<
    CallView,
>
    decreases attachments.len(),
{
    if attachments.len() == 0 {
        Seq::empty()
    } else {
        let i = (attachments.len() - 1) as nat;
        let rest = writes_of(attachments.drop_last(), dir, nonces);
        let last = attachments.last();
        if last.kind == AttachmentKind::File {
            rest.push(
                write_file_request(
                    upload_path(dir, i, nonces[i as int], last.name@),
                    last.data_base64@,
                ),
            )
        } else {
            rest
        }
    }
}

/// The files among attachments in words, one line each.
pub open spec fn lines_of_files(attachments: Seq<UserAttachment>, dir: Seq<char>, nonces: Seq<u64>) -> Seq<
    char,
>
    decreases attachments.len(),
{
    if attachments.len() == 0 {
        Seq::empty()
    } else {
        let i = (attachments.len() - 1) as nat;
        let rest = lines_of_files(attachments.drop_last(), dir, nonces);
        let last = attachments.last();
        if last.kind == AttachmentKind::File {
            rest + "- "@ + safe_name(last.name@) + ": "@ + upload_path(
                dir,
                i,
                nonces[i as int],
                last.name@,
            ) + "\n"@
        } else {
            rest
        }
    }
}

/// The images among attachments.
pub open spec fn images_of(attachments: Seq<UserAttachment>) -> Seq<UserAttachment>
    decreases attachments.len(),
{
    if attachments.len() == 0 {
        Seq::empty()
    } else if attachments.last().kind == AttachmentKind::Image {
        images_of(attachments.drop_last()).push(attachments.last())
    } else {
        images_of(attachments.drop_last())
    }
}

/// What the user said, with the files in words.
pub open spec fn prepared_text(input: UserInput, dir: Seq<char>, nonces: Seq<u64>) -> Seq<char> {
    if files_of(input.attachments@) {
        input.text@ + (if is_blank(input.text@) {
            Seq::empty()
        } else {
            "\n\n"@
        }) + "Attached files available on the harness host:\n"@ + lines_of_files(
            input.attachments@,
            dir,
            nonces,
        )
    } else {
        input.text@
    }
}

proof fn lemma_files_step(attachments: Seq<UserAttachment>, i: int)
    requires
        0 <= i < attachments.len(),
    ensures
        attachments.take(i + 1).drop_last() == attachments.take(i),
        attachments.take(i + 1).last() == attachments[i],
        files_of(attachments.take(i + 1)) == (files_of(attachments.take(i)) || attachments[i].kind
            == AttachmentKind::File),
{
    let now = attachments.take(i + 1);
    assert(now.drop_last() =~= attachments.take(i));
    if files_of(attachments.take(i)) {
        let j = choose|j: int|
            0 <= j < attachments.take(i).len() && (#[trigger] attachments.take(i)[j]).kind
                == AttachmentKind::File;
        assert(now[j].kind == AttachmentKind::File);
    }
    if attachments[i].kind == AttachmentKind::File {
        assert(now[i].kind == AttachmentKind::File);
    }
    if files_of(now) && attachments[i].kind != AttachmentKind::File {
        let j = choose|j: int| 0 <= j < now.len() && (#[trigger] now[j]).kind == AttachmentKind::File;
        assert(attachments.take(i)[j].kind == AttachmentKind::File);
    }
}

/// What is to be done before a turn starts, with a directory and a number for each attachment.
/// Images go along as they are. Files are written below the directory, which is made first and once,
/// and the agent is told where each is.
pub fn plan_uploads(input: &UserInput, dir: &String, nonces: &Vec<u64>) -> (plan: UploadPlan)
    requires
        nonces@.len() == input.attachments@.len(),
    ensures
        plan.upload_dir == (if files_of(input.attachments@) {
            Some(*dir)
        } else {
            None
        }),
        call_views(plan.calls@) == (if files_of(input.attachments@) {
            seq![make_directory_request(dir@)]
        } else {
            Seq::empty()
        }) + writes_of(input.attachments@, dir@, nonces@),
        plan.input.text@ == prepared_text(*input, dir@, nonces@),
        plan.input.attachments@ == images_of(input.attachments@),
{
    let attachments = &input.attachments;
    let mut calls: Vec<Call> = Vec::new();
    let mut images: Vec<UserAttachment> = Vec::new();
    let mut lines = String::new();
    let mut any = false;
    let mut i: usize = 0;
    proof {
        assert(attachments@.take(0) =~= Seq::<UserAttachment>::empty());
        assert(call_views(calls@) =~= Seq::<CallView>::empty() + writes_of(
            attachments@.take(0),
            dir@,
            nonces@,
        ));
        assert(images@ =~= images_of(attachments@.take(0)));
        assert(lines@ =~= lines_of_files(attachments@.take(0), dir@, nonces@));
    }
    while i < attachments.len()
        invariant
            nonces@.len() == attachments@.len(),
            i <= attachments@.len(),
            any == files_of(attachments@.take(i as int)),
            call_views(calls@) == (if any {
                seq![make_directory_request(dir@)]
            } else {
                Seq::empty()
            }) + writes_of(attachments@.take(i as int), dir@, nonces@),
            !any ==> writes_of(attachments@.take(i as int), dir@, nonces@).len() == 0,
            images@ == images_of(attachments@.take(i as int)),
            lines@ == lines_of_files(attachments@.take(i as int), dir@, nonces@),
        decreases attachments@.len() - i,
    {
        proof {
            lemma_files_step(attachments@, i as int);
        }
        let attachment = &attachments[i];
        let ghost before = calls@;
        match attachment.kind {
            AttachmentKind::Image => {
                images.push(attachment.copy());
            },
            AttachmentKind::File => {
                let path = upload_path_of(
                    dir.as_str(),
                    i,
                    nonces[i],
                    attachment.name.as_str(),
                );
                if !any {
                    calls.push(make_directory_call(dir.as_str()));
                    any = true;
                    proof {
                        assert(call_views(calls@) =~= call_views(before).push(
                            make_directory_request(dir@),
                        ));
                        assert(call_views(calls@) =~= seq![make_directory_request(dir@)]
                            + writes_of(attachments@.take(i as int), dir@, nonces@));
                    }
                }
                let ghost made = calls@;
                calls.push(write_file_call(path.as_str(), attachment.data_base64.as_str()));
                lines.append("- ");
                lines.append(safe_upload_file_name(attachment.name.as_str()).as_str());
                lines.append(": ");
                lines.append(path.as_str());
                lines.append("\n");
                proof {
                    let one = write_file_request(
                        upload_path(dir@, i as nat, nonces@[i as int], attachment.name@),
                        attachment.data_base64@,
                    );
                    assert(call_views(calls@) =~= call_views(made).push(one));
                    assert(call_views(calls@) =~= seq![make_directory_request(dir@)] + writes_of(
                        attachments@.take(i + 1),
                        dir@,
                        nonces@,
                    ));
                }
            },
        }
        i = i + 1;
    }
    proof {
        assert(attachments@.take(attachments@.len() as int) =~= attachments@);
    }
    let mut text = input.text.clone();
    if any {
        if !blank(input.text.as_str()) {
            text.append("\n\n");
        }
        text.append("Attached files available on the harness host:\n");
        text.append(lines.as_str());
    }
    proof {
        assert(text@ =~= prepared_text(*input, dir@, nonces@));
    }
    UploadPlan {
        upload_dir: if any {
            Some(dir.clone())
        } else {
            None
        },
        calls,
        input: UserInput { text, attachments: images },
    }
}

/// Whether this is what is to be done before a turn starts, with a directory and numbers.
pub open spec fn uploads_as(
    plan: UploadPlan,
    input: UserInput,
    dir: Seq<char>,
    nonces: Seq<u64>,
) -> bool {
    &&& nonces.len() == input.attachments@.len()
    &&& plan.input.text@ == prepared_text(input, dir, nonces)
    &&& call_views(plan.calls@) == (if files_of(input.attachments@) {
        seq![make_directory_request(dir)]
    } else {
        Seq::empty()
    }) + writes_of(input.attachments@, dir, nonces)
    &&& plan.upload_dir matches Some(made) ==> made@ == dir
}

/// What is to be done before a turn starts, with a directory of its own and numbers that are drawn.
/// What the user said is left as it is where nothing is attached.
pub fn prepare_user_input_for_codex_uploads(
    temp_dir: &str,
    thread: &ThreadHandle,
    input: &UserInput,
) -> (plan: UploadPlan)
    ensures
        exists|dir: Seq<char>, nonces: Seq<u64>|
            is_upload_dir(dir, temp_dir@, thread.thread) && #[trigger] uploads_as(
                plan,
                *input,
                dir,
                nonces,
            ),
        plan.upload_dir is Some <==> files_of(input.attachments@),
        plan.input.attachments@ == images_of(input.attachments@),
{
    let dir = codex_upload_dir(temp_dir, thread);
    let mut nonces: Vec<u64> = Vec::new();
    let n: usize = input.attachments.len();
    let mut i: usize = 0;
    while i < n
        invariant
            i <= n,
            nonces@.len() == i,
        decreases n - i,
    {
        nonces.push(random_u64());
        i = i + 1;
    }
    let plan = plan_uploads(input, &dir, &nonces);
    proof {
        assert(uploads_as(plan, *input, dir@, nonces@));
    }
    plan
}

/// The request to remove the directory of uploads, where there is one.
pub open spec fn removal_of(upload_dir: Option<String>) -> Option<CallView> {
    match upload_dir {
        Some(dir) => Some(remove_request(dir@)),
        None => None,
    }
}

/// Asks to remove the directory of uploads, where there is one.
pub fn removal_call(upload_dir: &Option<String>) -> (call: Option<Call>)
    ensures
        (match call {
            Some(call) => Some(call@),
            None => None,
        }) == removal_of(*upload_dir),
{
    match upload_dir {
        Some(dir) => Some(remove_call(dir.as_str())),
        None => None,
    }
}

/// What is done where a request of a plan, or the turn that it prepared, failed: the directory of
/// uploads is removed, where there is one, and then the failure is told as it is.
pub fn upload_failed(plan: &UploadPlan, error: HarnessError) -> (step: (Option<Call>, HarnessError))
    ensures
        (match step.0 {
            Some(call) => Some(call@),
            None => None,
        }) == removal_of(plan.upload_dir),
        step.1 == error,
{
    (removal_call(&plan.upload_dir), error)
}

/// A request of a plan that fails is followed by the removal of the very directory that the plan puts
/// its files in: a plan without a directory has no request.
pub proof fn law_failed_upload_leaves_nothing(
    plan: UploadPlan,
    input: UserInput,
    dir: Seq<char>,
    nonces: Seq<u64>,
)
    requires
        uploads_as(plan, input, dir, nonces),
        plan.upload_dir is Some <==> files_of(input.attachments@),
        plan.calls@.len() > 0,
    ensures
        removal_of(plan.upload_dir) == Some(remove_request(dir)),
{
    if !files_of(input.attachments@) {
        lemma_no_files_no_writes(input.attachments@, dir, nonces);
        assert(call_views(plan.calls@).len() == 0);
    }
}

proof fn lemma_no_files_no_writes(attachments: Seq<UserAttachment>, dir: Seq<char>, nonces: Seq<u64>)
    requires
        !files_of(attachments),
    ensures
        writes_of(attachments, dir, nonces).len() == 0,
    decreases attachments.len(),
{
    if attachments.len() > 0 {
        lemma_no_files_no_writes(attachments.drop_last(), dir, nonces);
    }
}

proof fn lemma_decimal_is_digits(n: nat)
    ensures
        forall|i: int| 0 <= i < decimal(n).len() ==> is_safe(#[trigger] decimal(n)[i]),
    decreases n,
{
    if n >= 10 {
        lemma_decimal_is_digits(n / 10);
        assert forall|i: int| 0 <= i < decimal(n).len() implies is_safe(#[trigger] decimal(n)[i]) by {
            if i < decimal(n).len() - 1 {
                assert(decimal(n)[i] == decimal(n / 10)[i]);
            } else {
                assert(decimal(n)[i] == digit_char((n % 10) as int));
                assert(0 <= n % 10 < 10);
            }
        }
    } else {
        assert(decimal(n)[0] == digit_char(n as int));
    }
}

/// The name under which a file is written.
pub open spec fn file_name(index: nat, nonce: u64, name: Seq<char>) -> Seq<char> {
    two_digits(index) + "-"@ + decimal(nonce as nat) + "-"@ + safe_name(name)
}

/// Each file lies directly below its directory, whatever it is called: the name under which it is
/// written is made of safe characters, so it holds no slash.
pub proof fn law_files_lie_below_their_directory(
    dir: Seq<char>,
    index: nat,
    nonce: u64,
    name: Seq<char>,
)
    ensures
        upload_path(dir, index, nonce, name) == below(dir, file_name(index, nonce, name)),
        forall|i: int|
            0 <= i < file_name(index, nonce, name).len() ==> is_safe(
                #[trigger] file_name(index, nonce, name)[i],
            ),
        !is_safe('/'),
{
    law_upload_name_is_safe(name);
    lemma_decimal_is_digits(index);
    lemma_decimal_is_digits(nonce as nat);
    reveal_strlit("-");
    let start = two_digits(index);
    let number = decimal(nonce as nat);
    let end = safe_name(name);
    let all = file_name(index, nonce, name);
    assert forall|i: int| 0 <= i < all.len() implies is_safe(#[trigger] all[i]) by {
        if i < start.len() {
            assert(all[i] == start[i]);
            assert(is_safe(start[i]));
        } else if i == start.len() {
            assert(all[i] == '-');
        } else if i < start.len() + 1 + number.len() {
            assert(all[i] == number[i - start.len() - 1]);
            assert(is_safe(number[i - start.len() - 1]));
        } else if i == start.len() + 1 + number.len() {
            assert(all[i] == '-');
        } else {
            assert(all[i] == end[i - start.len() - 2 - number.len()]);
            assert(is_safe(end[i - start.len() - 2 - number.len()]));
        }
    }
}

} // verus!
