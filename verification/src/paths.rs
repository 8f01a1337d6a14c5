//! Paths by their components, and the order that these give them.

use vstd::prelude::*;

use crate::split::{parts_of, slices_view, split};
use crate::text::{begins_with, same_text, starts_with, views};

verus! {

/// A path from the root.
pub open spec fn is_absolute(path: Seq<char>) -> bool {
    begins_with(path, "/"@)
}

/// Whether a path starts at the root.
pub fn absolute(path: &str) -> (found: bool)
    ensures
        found == is_absolute(path@),
{
    starts_with(path, "/")
}

/// The numbers of characters, set off from the numbers that stand for kinds of components.
pub open spec fn char_key(name: Seq<char>) -> Seq<nat> {
    name.map_values(|c: char| (c as nat + 10) as nat)
}

/// What a part between slashes adds to the order of a path: nothing where it is empty, and nothing
/// where it is a dot that does not lead the path; a leading dot comes before two dots, and these
/// before any name. The end of a component comes before every character.
pub open spec fn part_key(part: Seq<char>, leads: bool) -> Seq<nat> {
    if part.len() == 0 {
        Seq::empty()
    } else if part == "."@ {
        if leads {
            seq![2nat, 0nat]
        } else {
            Seq::empty()
        }
    } else if part == ".."@ {
        seq![3nat, 0nat]
    } else {
        seq![4nat] + char_key(part) + seq![0nat]
    }
}

/// What the parts of a path add to its order.
pub open spec fn parts_key(parts: Seq<Seq<char>>) -> Seq<nat>
    decreases parts.len(),
{
    if parts.len() == 0 {
        Seq::empty()
    } else {
        parts_key(parts.drop_last()) + part_key(parts.last(), parts.len() == 1)
    }
}

/// The numbers by which paths are ordered: the root, where the path starts there, then component
/// by component. Two paths are the same where these are.
pub open spec fn path_key(path: Seq<char>) -> Seq<nat> {
    (if is_absolute(path) {
        seq![1nat, 0nat]
    } else {
        Seq::empty()
    }) + parts_key(parts_of(path, '/'))
}

/// The order of a dictionary.
pub open spec fn before(a: Seq<nat>, b: Seq<nat>) -> bool
    decreases a.len(),
{
    if b.len() == 0 {
        false
    } else if a.len() == 0 {
        true
    } else {
        a[0] < b[0] || (a[0] == b[0] && before(a.drop_first(), b.drop_first()))
    }
}

proof fn lemma_not_before_itself(a: Seq<nat>)
    ensures
        !before(a, a),
    decreases a.len(),
{
    if a.len() > 0 {
        lemma_not_before_itself(a.drop_first());
    }
}

/// No path comes before itself, of two paths one comes first unless they are the same, and a path
/// before another comes before all that the other comes before.
pub proof fn law_paths_are_ordered(a: Seq<nat>, b: Seq<nat>, c: Seq<nat>)
    ensures
        !before(a, a),
        a == b || before(a, b) || before(b, a),
        !(before(a, b) && before(b, a)),
        before(a, b) && before(b, c) ==> before(a, c),
    decreases a.len() + b.len() + c.len(),
{
    lemma_not_before_itself(a);
    if a.len() > 0 && b.len() > 0 {
        law_paths_are_ordered(
            a.drop_first(),
            b.drop_first(),
            if c.len() > 0 {
                c.drop_first()
            } else {
                c
            },
        );
        if a[0] == b[0] && a.drop_first() == b.drop_first() {
            assert(a =~= seq![a[0]] + a.drop_first());
            assert(b =~= seq![b[0]] + b.drop_first());
        }
    }
    if a.len() == 0 && b.len() == 0 {
        assert(a =~= b);
    }
}

/// The numbers as far as they were read.
pub open spec fn nats(key: Seq<u32>) -> Seq<nat> {
    key.map_values(|n: u32| n as nat)
}

fn push_part(key: &mut Vec<u32>, part: &str, leads: bool)
    ensures
        nats(final(key)@) == nats(old(key)@) + part_key(part@, leads),
{
    if part.is_empty() {
        proof {
            assert(nats(key@) =~= nats(old(key)@) + Seq::<nat>::empty());
        }
        return ;
    }
    if same_text(part, ".") {
        if leads {
            key.push(2);
            key.push(0);
        }
        proof {
            assert(nats(key@) =~= nats(old(key)@) + part_key(part@, leads));
        }
        return ;
    }
    if same_text(part, "..") {
        key.push(3);
        key.push(0);
        proof {
            assert(nats(key@) =~= nats(old(key)@) + part_key(part@, leads));
        }
        return ;
    }
    key.push(4);
    let ghost start = nats(old(key)@) + seq![4nat];
    proof {
        assert(nats(key@) =~= start);
        assert(char_key(part@.take(0)) =~= Seq::<nat>::empty());
        assert(nats(key@) =~= start + char_key(part@.take(0)));
    }
    let n: usize = part.unicode_len();
    let mut i: usize = 0;
    while i < n
        invariant
            n == part@.len(),
            i <= n,
            nats(key@) == start + char_key(part@.take(i as int)),
        decreases n - i,
    {
        let c = part.get_char(i);
        let ghost done = key@;
        key.push(c as u32 + 10);
        proof {
            assert(part@.take(i + 1) =~= part@.take(i as int).push(c));
            assert(char_key(part@.take(i + 1)) =~= char_key(part@.take(i as int)).push(
                (c as nat + 10) as nat,
            ));
            assert(nats(key@) =~= nats(done).push((c as nat + 10) as nat));
            assert(nats(key@) =~= start + char_key(part@.take(i + 1)));
        }
        i = i + 1;
    }
    let ghost done = key@;
    key.push(0);
    proof {
        assert(part@.take(part@.len() as int) =~= part@);
        assert(nats(key@) =~= nats(done).push(0nat));
        assert(nats(key@) =~= nats(old(key)@) + part_key(part@, leads));
    }
}

/// The numbers by which a path is ordered.
pub fn ordering_key(path: &str) -> (key: Vec<u32>)
    ensures
        nats(key@) == path_key(path@),
{
    let mut key: Vec<u32> = Vec::new();
    if absolute(path) {
        key.push(1);
        key.push(0);
    }
    let ghost root = nats(key@);
    proof {
        assert(root =~= (if is_absolute(path@) {
            seq![1nat, 0nat]
        } else {
            Seq::empty()
        }));
    }
    let parts = split(path, '/');
    let ghost all = slices_view(parts@);
    proof {
        assert(all.take(0) =~= Seq::<Seq<char>>::empty());
        assert(nats(key@) =~= root + parts_key(all.take(0)));
    }
    let mut i: usize = 0;
    while i < parts.len()
        invariant
            i <= parts@.len(),
            all == slices_view(parts@),
            nats(key@) == root + parts_key(all.take(i as int)),
        decreases parts@.len() - i,
    {
        push_part(&mut key, parts[i], i == 0);
        proof {
            assert(all.take(i + 1).drop_last() =~= all.take(i as int));
            assert(all.take(i + 1).last() == parts@[i as int]@);
            assert(nats(key@) =~= root + parts_key(all.take(i + 1)));
        }
        i = i + 1;
    }
    proof {
        assert(all.take(parts@.len() as int) =~= all);
    }
    key
}

/// How two paths stand to each other.
#[derive(Clone, Copy, PartialEq, Eq, Structural, Debug)]
pub enum Rank {
    /// The first comes first.
    Before,
    /// They are the same.
    Same,
    /// The first comes last.
    After,
}

proof fn lemma_before_at(a: Seq<nat>, b: Seq<nat>, i: int)
    requires
        0 <= i <= a.len(),
        i <= b.len(),
        a.take(i) == b.take(i),
    ensures
        before(a, b) == before(a.skip(i), b.skip(i)),
        a.skip(i) == b.skip(i) ==> a == b,
    decreases i,
{
    if i == 0 {
        assert(a.skip(0) =~= a);
        assert(b.skip(0) =~= b);
    } else {
        assert(a[0] == a.take(i)[0]);
        assert(b[0] == b.take(i)[0]);
        assert(a.drop_first().take(i - 1) =~= a.take(i).drop_first());
        assert(b.drop_first().take(i - 1) =~= b.take(i).drop_first());
        lemma_before_at(a.drop_first(), b.drop_first(), i - 1);
        assert(a.drop_first().skip(i - 1) =~= a.skip(i));
        assert(b.drop_first().skip(i - 1) =~= b.skip(i));
        if a.skip(i) == b.skip(i) {
            assert(a =~= seq![a[0]] + a.drop_first());
            assert(b =~= seq![b[0]] + b.drop_first());
        }
    }
}

fn rank(a: &Vec<u32>, b: &Vec<u32>) -> (found: Rank)
    ensures
        found == Rank::Before <==> before(nats(a@), nats(b@)),
        found == Rank::Same <==> nats(a@) == nats(b@),
        found == Rank::After <==> before(nats(b@), nats(a@)),
{
    let ghost x = nats(a@);
    let ghost y = nats(b@);
    let mut i: usize = 0;
    proof {
        law_paths_are_ordered(x, y, x);
        law_paths_are_ordered(y, x, y);
    }
    while i < a.len() && i < b.len()
        invariant
            x == nats(a@),
            y == nats(b@),
            i <= x.len(),
            i <= y.len(),
            x.take(i as int) == y.take(i as int),
            !before(x, x),
            !before(y, y),
            x == y || before(x, y) || before(y, x),
            !(before(x, y) && before(y, x)),
        decreases x.len() - i,
    {
        proof {
            lemma_before_at(x, y, i as int);
            lemma_before_at(y, x, i as int);
            assert(x.skip(i as int)[0] == a@[i as int]);
            assert(y.skip(i as int)[0] == b@[i as int]);
        }
        if a[i] < b[i] {
            return Rank::Before;
        }
        if a[i] > b[i] {
            return Rank::After;
        }
        proof {
            assert(x.take(i + 1) =~= x.take(i as int).push(x[i as int]));
            assert(y.take(i + 1) =~= y.take(i as int).push(y[i as int]));
        }
        i = i + 1;
    }
    proof {
        lemma_before_at(x, y, i as int);
        lemma_before_at(y, x, i as int);
        if i == x.len() && i == y.len() {
            assert(x.skip(i as int) =~= y.skip(i as int));
        }
    }
    if i < b.len() {
        Rank::Before
    } else if i < a.len() {
        Rank::After
    } else {
        Rank::Same
    }
}

/// Whether a path is the first of a list that is the same path.
pub open spec fn is_first(paths: Seq<Seq<char>>, i: int) -> bool {
    &&& 0 <= i < paths.len()
    &&& forall|j: int| 0 <= j < i ==> path_key(#[trigger] paths[j]) != path_key(paths[i])
}

/// Whether paths are in order, each once.
pub open spec fn in_order(paths: Seq<Seq<char>>) -> bool {
    forall|i: int, j: int|
        0 <= i < j < paths.len() ==> before(
            path_key(#[trigger] paths[i]),
            path_key(#[trigger] paths[j]),
        )
}

/// Whether a path is one of a list as it was written first.
pub open spec fn came_first(paths: Seq<Seq<char>>, path: Seq<char>) -> bool {
    exists|j: int| #[trigger] is_first(paths, j) && paths[j] == path
}

/// Whether a list holds a path of the given key.
pub open spec fn holds_key(paths: Seq<Seq<char>>, key: Seq<nat>) -> bool {
    exists|i: int| 0 <= i < paths.len() && path_key(#[trigger] paths[i]) == key
}

/// Whether paths are those of a list, in order, each once, and as it was written first.
pub open spec fn sorts(sorted: Seq<Seq<char>>, paths: Seq<Seq<char>>) -> bool {
    &&& in_order(sorted)
    &&& forall|i: int| 0 <= i < sorted.len() ==> #[trigger] came_first(paths, sorted[i])
    &&& forall|j: int| 0 <= j < paths.len() ==> #[trigger] holds_key(sorted, path_key(paths[j]))
}

proof fn lemma_first_stays(paths: Seq<Seq<char>>, more: Seq<char>, j: int)
    requires
        is_first(paths, j),
    ensures
        is_first(paths.push(more), j),
        paths.push(more)[j] == paths[j],
{
    assert forall|k: int| 0 <= k < j implies path_key(#[trigger] paths.push(more)[k]) != path_key(
        paths.push(more)[j],
    ) by {
        assert(paths.push(more)[k] == paths[k]);
    }
}

/// Takes a path into a list in order, unless it is there.
fn place(sorted: &mut Vec<String>, path: &String, Ghost(paths): Ghost<Seq<Seq<char>>>)
    requires
        sorts(views(old(sorted)@), paths),
    ensures
        sorts(views(final(sorted)@), paths.push(path@)),
{
    let key = ordering_key(path.as_str());
    let ghost was = views(sorted@);
    let ghost all = paths.push(path@);
    let mut at: usize = 0;
    let mut found = false;
    while at < sorted.len() && !found
        invariant
            at <= sorted@.len(),
            was == views(sorted@),
            nats(key@) == path_key(path@),
            in_order(was),
            forall|i: int| 0 <= i < at && !found ==> before(path_key(#[trigger] was[i]), nats(key@)),
            found ==> at < was.len() && (path_key(was[at as int]) == nats(key@) || (before(
                nats(key@),
                path_key(was[at as int]),
            ) && forall|i: int|
                0 <= i < at ==> before(path_key(#[trigger] was[i]), nats(key@)))),
        decreases sorted@.len() - at, (if found {
            0int
        } else {
            1int
        }),
    {
        let other = ordering_key(sorted[at].as_str());
        proof {
            assert(was[at as int] == sorted@[at as int]@);
        }
        match rank(&other, &key) {
            Rank::Before => {
                at = at + 1;
            },
            Rank::Same => {
                found = true;
            },
            Rank::After => {
                found = true;
            },
        }
    }
    if found {
        let other = ordering_key(sorted[at].as_str());
        proof {
            assert(was[at as int] == sorted@[at as int]@);
            law_paths_are_ordered(nats(key@), nats(other@), nats(key@));
        }
        match rank(&other, &key) {
            Rank::Same => {
                proof {
                    lemma_placed_same(was, paths, path@, at as int);
                }
                return ;
            },
            _ => {},
        }
    }
    sorted.insert(at, path.clone());
    proof {
        assert(views(sorted@) =~= was.insert(at as int, path@));
        lemma_placed_new(was, paths, path@, at as int);
    }
}

proof fn lemma_placed_same(was: Seq<Seq<char>>, paths: Seq<Seq<char>>, path: Seq<char>, at: int)
    requires
        sorts(was, paths),
        0 <= at < was.len(),
        path_key(was[at]) == path_key(path),
    ensures
        sorts(was, paths.push(path)),
{
    let all = paths.push(path);
    assert forall|i: int| 0 <= i < was.len() implies #[trigger] came_first(all, was[i]) by {
        assert(came_first(paths, was[i]));
        let j = choose|j: int| #[trigger] is_first(paths, j) && paths[j] == was[i];
        lemma_first_stays(paths, path, j);
    }
    assert forall|j: int| 0 <= j < all.len() implies #[trigger] holds_key(
        was,
        path_key(all[j]),
    ) by {
        if j < paths.len() {
            assert(holds_key(was, path_key(paths[j])));
        }
    }
}

proof fn lemma_in_order_placed(was: Seq<Seq<char>>, path: Seq<char>, at: int)
    requires
        in_order(was),
        0 <= at <= was.len(),
        forall|i: int| 0 <= i < at ==> before(path_key(#[trigger] was[i]), path_key(path)),
        at < was.len() ==> before(path_key(path), path_key(was[at])),
    ensures
        in_order(was.insert(at, path)),
        !holds_key(was, path_key(path)),
{
    let now = was.insert(at, path);
    assert forall|k: int| at <= k < was.len() implies before(
        path_key(path),
        path_key(#[trigger] was[k]),
    ) by {
        if k != at {
            assert(before(path_key(was[at]), path_key(was[k])));
            law_paths_are_ordered(path_key(path), path_key(was[at]), path_key(was[k]));
        }
    }
    assert forall|i: int, j: int| 0 <= i < j < now.len() implies before(
        path_key(#[trigger] now[i]),
        path_key(#[trigger] now[j]),
    ) by {
        let a = if i < at {
            i
        } else {
            i - 1
        };
        let b = if j < at {
            j
        } else {
            j - 1
        };
        if i != at {
            assert(now[i] == was[a]);
        }
        if j != at {
            assert(now[j] == was[b]);
        }
        if i != at && j != at {
            assert(before(path_key(was[a]), path_key(was[b])));
        }
    }
    if holds_key(was, path_key(path)) {
        let k = choose|k: int| 0 <= k < was.len() && path_key(#[trigger] was[k]) == path_key(path);
        lemma_not_before_itself(path_key(path));
        assert(false);
    }
}

proof fn lemma_placed_new(was: Seq<Seq<char>>, paths: Seq<Seq<char>>, path: Seq<char>, at: int)
    requires
        sorts(was, paths),
        0 <= at <= was.len(),
        forall|i: int| 0 <= i < at ==> before(path_key(#[trigger] was[i]), path_key(path)),
        at < was.len() ==> before(path_key(path), path_key(was[at])),
    ensures
        sorts(was.insert(at, path), paths.push(path)),
{
    let all = paths.push(path);
    let now = was.insert(at, path);
    lemma_in_order_placed(was, path, at);
    assert(is_first(all, paths.len() as int)) by {
        assert forall|j: int| 0 <= j < paths.len() implies path_key(#[trigger] all[j]) != path_key(
            all[paths.len() as int],
        ) by {
            assert(all[j] == paths[j]);
            assert(holds_key(was, path_key(paths[j])));
        }
    }
    assert forall|i: int| 0 <= i < now.len() implies #[trigger] came_first(all, now[i]) by {
        if i == at {
            assert(all[paths.len() as int] == now[i]);
        } else {
            let a = if i < at {
                i
            } else {
                i - 1
            };
            assert(now[i] == was[a]);
            assert(came_first(paths, was[a]));
            let j = choose|j: int| #[trigger] is_first(paths, j) && paths[j] == was[a];
            lemma_first_stays(paths, path, j);
        }
    }
    assert forall|j: int| 0 <= j < all.len() implies #[trigger] holds_key(
        now,
        path_key(all[j]),
    ) by {
        if j < paths.len() {
            assert(holds_key(was, path_key(paths[j])));
            let i = choose|i: int|
                0 <= i < was.len() && path_key(#[trigger] was[i]) == path_key(paths[j]);
            let m = if i < at {
                i
            } else {
                i + 1
            };
            assert(now[m] == was[i]);
        } else {
            assert(now[at] == path);
        }
    }
}

/// The paths of a list in order, each once.
pub fn sorted_paths(paths: &Vec<String>) -> (sorted: Vec<String>)
    ensures
        sorts(views(sorted@), views(paths@)),
{
    let mut sorted: Vec<String> = Vec::new();
    let mut i: usize = 0;
    proof {
        assert(views(paths@).take(0) =~= Seq::<Seq<char>>::empty());
    }
    while i < paths.len()
        invariant
            i <= paths@.len(),
            sorts(views(sorted@), views(paths@).take(i as int)),
        decreases paths@.len() - i,
    {
        place(&mut sorted, &paths[i], Ghost(views(paths@).take(i as int)));
        proof {
            assert(views(paths@).take(i + 1) =~= views(paths@).take(i as int).push(
                paths@[i as int]@,
            ));
        }
        i = i + 1;
    }
    proof {
        assert(views(paths@).take(paths@.len() as int) =~= views(paths@));
    }
    sorted
}

/// Paths in order are determined by what they are: no two ways of sorting differ.
pub proof fn law_sorted_paths_are_determined(
    a: Seq<Seq<char>>,
    b: Seq<Seq<char>>,
    paths: Seq<Seq<char>>,
    i: int,
)
    requires
        sorts(a, paths),
        sorts(b, paths),
        0 <= i < a.len(),
    ensures
        b.contains(a[i]),
{
    assert(came_first(paths, a[i]));
    let j = choose|j: int| #[trigger] is_first(paths, j) && paths[j] == a[i];
    assert(holds_key(b, path_key(paths[j])));
    let k = choose|k: int| 0 <= k < b.len() && path_key(#[trigger] b[k]) == path_key(paths[j]);
    assert(came_first(paths, b[k]));
    let m = choose|m: int| #[trigger] is_first(paths, m) && paths[m] == b[k];
    assert(j == m) by {
        if j < m {
            assert(path_key(paths[j]) != path_key(paths[m]));
        }
        if m < j {
            assert(path_key(paths[m]) != path_key(paths[j]));
        }
    }
}

proof fn lemma_before_behind(start: Seq<nat>, a: Seq<nat>, b: Seq<nat>)
    requires
        before(a, b),
    ensures
        before(start + a, start + b),
    decreases start.len(),
{
    if start.len() == 0 {
        assert(start + a =~= a);
        assert(start + b =~= b);
    } else {
        lemma_before_behind(start.drop_first(), a, b);
        assert((start + a).drop_first() =~= start.drop_first() + a);
        assert((start + b).drop_first() =~= start.drop_first() + b);
    }
}

proof fn lemma_key_of_one_part(name: Seq<char>)
    requires
        name.len() > 0,
        !name.contains('/'),
        name != "."@,
        name != ".."@,
    ensures
        path_key(seq!['/'] + name) == seq![1nat, 0nat, 4nat] + char_key(name) + seq![0nat],
{
    let path = seq!['/'] + name;
    let none = Seq::<char>::empty();
    reveal_strlit("/");
    assert("/"@ =~= seq!['/']);
    assert(path.subrange(0, 1) =~= seq!['/']);
    assert(is_absolute(path));
    crate::text_laws::law_cut_is_at_the_first_place(name, '/');
    crate::text_laws::law_cut_is_at_the_first_place(path, '/');
    assert(path[0] == '/');
    assert(path.contains('/'));
    let (head, tail) = crate::split::cut_at(path, '/')->Some_0;
    assert(path == head.push('/') + tail);
    if head.len() > 0 {
        assert((head.push('/') + tail)[0] == head[0]);
        assert(head.contains('/'));
    }
    assert(head =~= none);
    assert(tail =~= name) by {
        assert(path.skip(1) =~= tail);
        assert(path.skip(1) =~= name);
    }
    assert(parts_of(name, '/') == seq![name]);
    let parts = parts_of(path, '/');
    assert(parts =~= seq![none, name]);
    assert(parts.drop_last() =~= seq![none]);
    assert(seq![none].drop_last() =~= Seq::<Seq<char>>::empty());
    assert(parts_key(Seq::<Seq<char>>::empty()) =~= Seq::<nat>::empty());
    assert(parts_key(seq![none]) =~= Seq::<nat>::empty());
    assert(parts_key(parts) =~= seq![4nat] + char_key(name) + seq![0nat]);
    assert(path_key(path) =~= seq![1nat, 0nat, 4nat] + char_key(name) + seq![0nat]);
}

/// Of two places below the root of the file system the one comes first whose name does: by the
/// first character that differs, and where one name begins the other, the shorter one.
pub proof fn law_places_are_ordered_by_name(a: Seq<char>, b: Seq<char>, i: int)
    requires
        !a.contains('/') && !b.contains('/'),
        a.len() > 0 && a != "."@ && a != ".."@,
        b.len() > 0 && b != "."@ && b != ".."@,
        0 <= i <= a.len(),
        i < b.len(),
        a.take(i) == b.take(i),
        i < a.len() ==> (a[i] as nat) < (b[i] as nat),
    ensures
        before(path_key(seq!['/'] + a), path_key(seq!['/'] + b)),
{
    lemma_key_of_one_part(a);
    lemma_key_of_one_part(b);
    let start = seq![1nat, 0nat, 4nat] + char_key(a.take(i));
    let rest = char_key(a.skip(i)) + seq![0nat];
    let more = char_key(b.skip(i)) + seq![0nat];
    assert(seq![1nat, 0nat, 4nat] + char_key(a) + seq![0nat] =~= start + rest);
    assert(seq![1nat, 0nat, 4nat] + char_key(b) + seq![0nat] =~= start + more) by {
        assert(char_key(b.take(i)) == char_key(a.take(i)));
        assert(char_key(b) =~= char_key(b.take(i)) + char_key(b.skip(i)));
    }
    assert(more[0] == b[i] as nat + 10);
    if i < a.len() {
        assert(rest[0] == a[i] as nat + 10);
    } else {
        assert(rest[0] == 0);
    }
    lemma_before_behind(start, rest, more);
}

} // verus!
