//! The virtual directory hierarchy of a container: enumeration of the
//! files it holds and a line-drawing rendering of it.
use vstd::prelude::*;

verus! {

/// The flags that the archive engine keeps for one stored file.
#[derive(Clone, Copy, Debug, PartialEq, Eq)]
pub struct FileFlags {
    pub has_content: bool,
    pub has_key: bool,
    pub has_digest: bool,
    pub is_signed: bool,
}

/// One directory of the container: its files and its subdirectories,
/// each keyed by name, in the engine's traversal order.
#[derive(Debug)]
pub struct DirNode {
    pub files: Vec<(String, FileFlags)>,
    pub dirs: Vec<(String, DirNode)>,
}

/// The segments of a path joined with `/`.
pub open spec fn join_path(segs: Seq<Seq<char>>) -> Seq<char>
    decreases segs.len(),
{
    if segs.len() == 0 {
        Seq::empty()
    } else if segs.len() == 1 {
        segs[0]
    } else {
        join_path(segs.drop_last()) + "/"@ + segs.last()
    }
}

/// The full path (as segments) of every file below `n`, where `n` itself
/// stands at `pre`: the files of `n` first, then each subdirectory in turn.
pub open spec fn paths_under(n: DirNode, pre: Seq<Seq<char>>) -> Seq<Seq<Seq<char>>>
    decreases n, n.dirs@.len() + 1,
{
    n.files@.map_values(|f: (String, FileFlags)| pre.push(f.0@)) + dir_paths_under(
        n,
        pre,
        n.dirs@.len() as int,
    )
}

/// The file paths below the first `k` subdirectories of `n`.
pub open spec fn dir_paths_under(n: DirNode, pre: Seq<Seq<char>>, k: int) -> Seq<Seq<Seq<char>>>
    decreases n, k,
{
    if k <= 0 || k > n.dirs@.len() {
        Seq::empty()
    } else {
        dir_paths_under(n, pre, k - 1) + paths_under(n.dirs[k - 1].1, pre.push(n.dirs[k - 1].0@))
    }
}

/// Every file of the tree as its path from the root, as segments.
pub open spec fn leaf_paths(n: DirNode) -> Seq<Seq<Seq<char>>> {
    paths_under(n, Seq::empty())
}

/// Sibling names are unique, in every directory of the tree.
pub open spec fn well_formed(n: DirNode) -> bool
    decreases n,
{
    &&& forall|i: int, j: int|
        0 <= i < j < n.files@.len() ==> #[trigger] n.files@[i].0@ != #[trigger] n.files@[j].0@
    &&& forall|i: int, j: int|
        0 <= i < j < n.dirs@.len() ==> #[trigger] n.dirs@[i].0@ != #[trigger] n.dirs@[j].0@
    &&& forall|i: int| 0 <= i < n.dirs@.len() ==> well_formed(#[trigger] n.dirs[i].1)
}

/// `p` leads from `n` through subdirectories to a file.
pub open spec fn has_file(n: DirNode, p: Seq<Seq<char>>) -> bool
    decreases n, p.len(),
{
    if p.len() == 0 {
        false
    } else if p.len() == 1 {
        exists|j: int| 0 <= j < n.files@.len() && #[trigger] n.files@[j].0@ == p[0]
    } else {
        exists|i: int|
            0 <= i < n.dirs@.len() && #[trigger] n.dirs[i].0@ == p[0] && has_file(
                n.dirs[i].1,
                p.drop_first(),
            )
    }
}

proof fn lemma_paths_under(n: DirNode, pre: Seq<Seq<char>>)
    requires
        well_formed(n),
    ensures
        forall|e: Seq<Seq<char>>|
            #[trigger] paths_under(n, pre).contains(e) ==> e.len() > pre.len() && e.subrange(
                0,
                pre.len() as int,
            ) == pre && has_file(n, e.subrange(pre.len() as int, e.len() as int)),
        forall|q: Seq<Seq<char>>| #[trigger] has_file(n, q) ==> paths_under(n, pre).contains(pre + q),
        paths_under(n, pre).no_duplicates(),
    decreases n, n.dirs@.len() + 1,
{
    let fs = n.files@.map_values(|f: (String, FileFlags)| pre.push(f.0@));
    let ds = dir_paths_under(n, pre, n.dirs@.len() as int);
    lemma_dir_paths_under(n, pre, n.dirs@.len() as int);
    let all = paths_under(n, pre);
    assert(all == fs + ds);
    assert forall|e: Seq<Seq<char>>| #[trigger] all.contains(e) implies e.len() > pre.len()
        && e.subrange(0, pre.len() as int) == pre && has_file(
        n,
        e.subrange(pre.len() as int, e.len() as int),
    ) by {
        let x = choose|x: int| 0 <= x < all.len() && all[x] == e;
        if x < fs.len() {
            assert(e.subrange(0, pre.len() as int) =~= pre);
            let q = e.subrange(pre.len() as int, e.len() as int);
            assert(q =~= seq![n.files@[x].0@]);
            assert(n.files@[x].0@ == q[0]);
        } else {
            assert(ds[x - fs.len()] == e);
            assert(ds.contains(e));
            let i = choose|i: int|
                0 <= i < n.dirs@.len() && e[pre.len() as int] == #[trigger] n.dirs[i].0@
                    && has_file(n.dirs[i].1, e.subrange(pre.len() as int + 1, e.len() as int));
            let q = e.subrange(pre.len() as int, e.len() as int);
            assert(q.drop_first() =~= e.subrange(pre.len() as int + 1, e.len() as int));
            assert(n.dirs[i].0@ == q[0]);
        }
    }
    assert forall|q: Seq<Seq<char>>| #[trigger] has_file(n, q) implies all.contains(pre + q) by {
        if q.len() == 1 {
            let j = choose|j: int| 0 <= j < n.files@.len() && #[trigger] n.files@[j].0@ == q[0];
            assert(pre + q =~= pre.push(n.files@[j].0@));
            assert(all[j] == fs[j]);
        } else {
            let i = choose|i: int|
                0 <= i < n.dirs@.len() && #[trigger] n.dirs[i].0@ == q[0] && has_file(
                    n.dirs[i].1,
                    q.drop_first(),
                );
            assert(pre.push(n.dirs[i].0@) + q.drop_first() =~= pre + q);
            assert(ds.contains(pre + q));
            let y = choose|y: int| 0 <= y < ds.len() && ds[y] == pre + q;
            assert(all[fs.len() + y] == pre + q);
        }
    }
    assert forall|a: int, b: int| 0 <= a < all.len() && 0 <= b < all.len() && a != b implies all[a]
        != all[b] by {
        if a < fs.len() && b < fs.len() {
            assert(fs[a][pre.len() as int] == n.files@[a].0@);
            assert(fs[b][pre.len() as int] == n.files@[b].0@);
            if a < b {
                assert(n.files@[a].0@ != n.files@[b].0@);
            } else {
                assert(n.files@[b].0@ != n.files@[a].0@);
            }
        } else if a >= fs.len() && b >= fs.len() {
            assert(all[a] == ds[a - fs.len()]);
            assert(all[b] == ds[b - fs.len()]);
        } else if a < fs.len() {
            assert(all[b] == ds[b - fs.len()]);
            assert(ds.contains(all[b]));
        } else {
            assert(all[a] == ds[a - fs.len()]);
            assert(ds.contains(all[a]));
        }
    }
}

proof fn lemma_dir_paths_under(n: DirNode, pre: Seq<Seq<char>>, k: int)
    requires
        well_formed(n),
        0 <= k <= n.dirs@.len(),
    ensures
        forall|e: Seq<Seq<char>>|
            #[trigger] dir_paths_under(n, pre, k).contains(e) ==> e.len() > pre.len() + 1
                && e.subrange(0, pre.len() as int) == pre && exists|i: int|
                0 <= i < k && e[pre.len() as int] == #[trigger] n.dirs[i].0@ && has_file(
                    n.dirs[i].1,
                    e.subrange(pre.len() as int + 1, e.len() as int),
                ),
        forall|i: int, q: Seq<Seq<char>>|
            0 <= i < k && #[trigger] has_file(n.dirs[i].1, q) ==> dir_paths_under(
                n,
                pre,
                k,
            ).contains(pre.push(n.dirs[i].0@) + q),
        dir_paths_under(n, pre, k).no_duplicates(),
    decreases n, k,
{
    if k > 0 {
        lemma_dir_paths_under(n, pre, k - 1);
        let child = n.dirs[k - 1].1;
        let cpre = pre.push(n.dirs[k - 1].0@);
        lemma_paths_under(child, cpre);
        let left = dir_paths_under(n, pre, k - 1);
        let right = paths_under(child, cpre);
        let all = dir_paths_under(n, pre, k);
        assert(all == left + right);
        assert forall|e: Seq<Seq<char>>| #[trigger] right.contains(e) implies e.len() > pre.len()
            + 1 && e.subrange(0, pre.len() as int) == pre && e[pre.len() as int] == n.dirs[k
            - 1].0@ && has_file(child, e.subrange(pre.len() as int + 1, e.len() as int)) by {
            assert(e.subrange(0, cpre.len() as int) == cpre);
            assert(e.subrange(0, pre.len() as int) =~= cpre.subrange(0, pre.len() as int));
            assert(cpre.subrange(0, pre.len() as int) =~= pre);
            assert(e[pre.len() as int] == e.subrange(0, cpre.len() as int)[pre.len() as int]);
        }
        assert forall|e: Seq<Seq<char>>| #[trigger] all.contains(e) implies e.len() > pre.len() + 1
            && e.subrange(0, pre.len() as int) == pre && exists|i: int|
            0 <= i < k && e[pre.len() as int] == #[trigger] n.dirs[i].0@ && has_file(
                n.dirs[i].1,
                e.subrange(pre.len() as int + 1, e.len() as int),
            ) by {
            let x = choose|x: int| 0 <= x < all.len() && all[x] == e;
            if x < left.len() {
                assert(left[x] == e);
                assert(left.contains(e));
            } else {
                assert(right[x - left.len()] == e);
                assert(right.contains(e));
                assert(e[pre.len() as int] == n.dirs[k - 1].0@);
            }
        }
        assert forall|i: int, q: Seq<Seq<char>>|
            0 <= i < k && #[trigger] has_file(n.dirs[i].1, q) implies all.contains(
            pre.push(n.dirs[i].0@) + q,
        ) by {
            if i < k - 1 {
                let y = choose|y: int| 0 <= y < left.len() && left[y] == pre.push(n.dirs[i].0@) + q;
                assert(all[y] == left[y]);
            } else {
                let y = choose|y: int| 0 <= y < right.len() && right[y] == cpre + q;
                assert(all[left.len() + y] == right[y]);
            }
        }
        assert forall|a: int, b: int| 0 <= a < all.len() && 0 <= b < all.len() && a != b implies all[a]
            != all[b] by {
            if a < left.len() && b < left.len() {
                assert(all[a] == left[a] && all[b] == left[b]);
            } else if a >= left.len() && b >= left.len() {
                assert(all[a] == right[a - left.len()] && all[b] == right[b - left.len()]);
            } else {
                let (l, r) = if a < left.len() { (a, b) } else { (b, a) };
                assert(all[l] == left[l] && left.contains(all[l]));
                assert(all[r] == right[r - left.len()] && right.contains(all[r]));
                let i = choose|i: int|
                    0 <= i < k - 1 && all[l][pre.len() as int] == #[trigger] n.dirs[i].0@ && has_file(
                        n.dirs[i].1,
                        all[l].subrange(pre.len() as int + 1, all[l].len() as int),
                    );
                assert(n.dirs@[i].0@ != n.dirs@[k - 1].0@);
            }
        }
    }
}

/// Enumeration is exact: on a tree whose sibling names are unique, every
/// path it yields leads to a file, every file is reached by a path it
/// yields, and no path is yielded twice.
pub proof fn lemma_enumerate_exact(n: DirNode)
    requires
        well_formed(n),
    ensures
        forall|i: int| 0 <= i < leaf_paths(n).len() ==> has_file(n, #[trigger] leaf_paths(n)[i]),
        forall|q: Seq<Seq<char>>| #[trigger] has_file(n, q) ==> leaf_paths(n).contains(q),
        leaf_paths(n).no_duplicates(),
{
    let pre = Seq::<Seq<char>>::empty();
    lemma_paths_under(n, pre);
    assert forall|i: int| 0 <= i < leaf_paths(n).len() implies has_file(
        n,
        #[trigger] leaf_paths(n)[i],
    ) by {
        let e = leaf_paths(n)[i];
        assert(paths_under(n, pre).contains(e));
        assert(e.subrange(0, e.len() as int) =~= e);
    }
    assert forall|q: Seq<Seq<char>>| #[trigger] has_file(n, q) implies leaf_paths(n).contains(q) by {
        assert(pre + q =~= q);
    }
}

/// No name anywhere in the tree holds a `/`.
pub open spec fn slash_free_names(n: DirNode) -> bool
    decreases n,
{
    &&& forall|j: int| 0 <= j < n.files@.len() ==> slash_free(#[trigger] n.files@[j].0@)
    &&& forall|i: int| 0 <= i < n.dirs@.len() ==> slash_free(#[trigger] n.dirs[i].0@)
    &&& forall|i: int| 0 <= i < n.dirs@.len() ==> slash_free_names(#[trigger] n.dirs[i].1)
}

pub open spec fn slash_free(s: Seq<char>) -> bool {
    forall|k: int| 0 <= k < s.len() ==> s[k] != '/'
}

proof fn lemma_has_file_slash_free(n: DirNode, q: Seq<Seq<char>>)
    requires
        slash_free_names(n),
        has_file(n, q),
    ensures
        forall|k: int| 0 <= k < q.len() ==> slash_free(#[trigger] q[k]),
    decreases n, q.len(),
{
    if q.len() == 1 {
        let j = choose|j: int| 0 <= j < n.files@.len() && #[trigger] n.files@[j].0@ == q[0];
        assert(slash_free(n.files@[j].0@));
    } else {
        let i = choose|i: int|
            0 <= i < n.dirs@.len() && #[trigger] n.dirs[i].0@ == q[0] && has_file(
                n.dirs[i].1,
                q.drop_first(),
            );
        assert(slash_free(n.dirs[i].0@));
        lemma_has_file_slash_free(n.dirs[i].1, q.drop_first());
        assert forall|k: int| 0 <= k < q.len() implies slash_free(#[trigger] q[k]) by {
            if k > 0 {
                assert(q[k] == q.drop_first()[k - 1]);
            }
        }
    }
}

proof fn lemma_join_has_slash(p: Seq<Seq<char>>)
    requires
        p.len() >= 2,
    ensures
        !slash_free(join_path(p)),
{
    reveal_strlit("/");
    assert("/"@.len() == 1 && "/"@[0] == '/');
    let a = join_path(p.drop_last());
    assert(join_path(p)[a.len() as int] == '/');
}

proof fn lemma_split_at_last_slash(a: Seq<char>, b: Seq<char>, c: Seq<char>, d: Seq<char>)
    requires
        slash_free(b),
        slash_free(d),
        a + "/"@ + b == c + "/"@ + d,
    ensures
        a == c,
        b == d,
{
    reveal_strlit("/");
    assert("/"@.len() == 1 && "/"@[0] == '/');
    let s = a + "/"@ + b;
    assert(s.len() == a.len() + 1 + b.len());
    assert(s.len() == c.len() + 1 + d.len());
    assert(s[a.len() as int] == '/');
    assert(s[c.len() as int] == '/');
    if a.len() < c.len() {
        assert(s[c.len() as int] == b[c.len() - a.len() - 1]);
    } else if a.len() > c.len() {
        assert(s[a.len() as int] == d[a.len() - c.len() - 1]);
    }
    assert(a =~= s.subrange(0, a.len() as int));
    assert(c =~= s.subrange(0, c.len() as int));
    assert(b =~= s.subrange(a.len() as int + 1, s.len() as int));
    assert(d =~= s.subrange(c.len() as int + 1, s.len() as int));
}

/// Joining segments that hold no `/` loses nothing: equal joins come from equal segments.
pub proof fn lemma_join_injective(p: Seq<Seq<char>>, q: Seq<Seq<char>>)
    requires
        p.len() >= 1,
        q.len() >= 1,
        forall|k: int| 0 <= k < p.len() ==> slash_free(#[trigger] p[k]),
        forall|k: int| 0 <= k < q.len() ==> slash_free(#[trigger] q[k]),
        join_path(p) == join_path(q),
    ensures
        p == q,
    decreases p.len(),
{
    if p.len() == 1 && q.len() == 1 {
        assert(p =~= q);
    } else if p.len() == 1 {
        lemma_join_has_slash(q);
    } else if q.len() == 1 {
        lemma_join_has_slash(p);
    } else {
        lemma_split_at_last_slash(
            join_path(p.drop_last()),
            p.last(),
            join_path(q.drop_last()),
            q.last(),
        );
        lemma_join_injective(p.drop_last(), q.drop_last());
        assert(p =~= p.drop_last().push(p.last()));
        assert(q =~= q.drop_last().push(q.last()));
    }
}

/// Enumeration is exact on the joined paths too: on a tree whose sibling
/// names are unique and hold no `/`, every file's slash-joined path is
/// yielded, each yielded path leads to a file, and none is yielded twice.
pub proof fn lemma_enumerate_strings_exact(n: DirNode)
    requires
        well_formed(n),
        slash_free_names(n),
    ensures
        forall|q: Seq<Seq<char>>| #[trigger] has_file(n, q) ==> joined(leaf_paths(n)).contains(
            join_path(q),
        ),
        joined(leaf_paths(n)).len() == leaf_paths(n).len(),
        forall|i: int|
            0 <= i < joined(leaf_paths(n)).len() ==> #[trigger] joined(leaf_paths(n))[i]
                == join_path(leaf_paths(n)[i]) && has_file(n, leaf_paths(n)[i]),
        joined(leaf_paths(n)).no_duplicates(),
{
    lemma_enumerate_exact(n);
    let ps = leaf_paths(n);
    let js = joined(ps);
    assert forall|q: Seq<Seq<char>>| #[trigger] has_file(n, q) implies js.contains(join_path(q)) by {
        let x = choose|x: int| 0 <= x < ps.len() && ps[x] == q;
        assert(js[x] == join_path(q));
    }
    assert forall|i: int| 0 <= i < js.len() implies #[trigger] js[i] == join_path(ps[i]) && has_file(
        n,
        ps[i],
    ) by {
        assert(has_file(n, ps[i]));
    }
    assert forall|a: int, b: int| 0 <= a < js.len() && 0 <= b < js.len() && a != b implies js[a]
        != js[b] by {
        assert(has_file(n, ps[a]) && has_file(n, ps[b]));
        lemma_has_file_slash_free(n, ps[a]);
        lemma_has_file_slash_free(n, ps[b]);
        if js[a] == js[b] {
            lemma_join_injective(ps[a], ps[b]);
        }
    }
}

pub open spec fn string_views(v: Seq<String>) -> Seq<Seq<char>> {
    v.map_values(|s: String| s@)
}

pub open spec fn joined(ps: Seq<Seq<Seq<char>>>) -> Seq<Seq<char>> {
    ps.map_values(|p: Seq<Seq<char>>| join_path(p))
}

/// The path of `name` below the directory whose path is `prefix`.
fn child_path(prefix: &String, top: bool, Ghost(pre): Ghost<Seq<Seq<char>>>, name: &String) -> (r:
    String)
    requires
        prefix@ == join_path(pre),
        top == (pre.len() == 0),
    ensures
        r@ == join_path(pre.push(name@)),
{
    assert(pre.push(name@).drop_last() =~= pre);
    if top {
        name.clone()
    } else {
        let r = prefix.clone().concat("/").concat(name.as_str());
        r
    }
}

fn list_of_files_helper(
    content: &DirNode,
    prefix: &String,
    top: bool,
    Ghost(pre): Ghost<Seq<Seq<char>>>,
    out: &mut Vec<String>,
)
    requires
        prefix@ == join_path(pre),
        top == (pre.len() == 0),
    ensures
        string_views(final(out)@) == string_views(old(out)@) + joined(paths_under(*content, pre)),
    decreases content,
{
    let ghost start = string_views(out@);
    let mut i: usize = 0;
    while i < content.files.len()
        invariant
            0 <= i <= content.files@.len(),
            prefix@ == join_path(pre),
            top == (pre.len() == 0),
            string_views(out@) == start + joined(
                content.files@.subrange(0, i as int).map_values(
                    |f: (String, FileFlags)| pre.push(f.0@),
                ),
            ),
        decreases content.files@.len() - i,
    {
        let p = child_path(prefix, top, Ghost(pre), &content.files[i].0);
        let ghost before = out@;
        out.push(p);
        assert(content.files@.subrange(0, i + 1) =~= content.files@.subrange(0, i as int).push(
            content.files@[i as int],
        ));
        assert(string_views(out@) =~= string_views(before).push(p@));
        assert(joined(
            content.files@.subrange(0, i + 1).map_values(|f: (String, FileFlags)| pre.push(f.0@)),
        ) =~= joined(
            content.files@.subrange(0, i as int).map_values(
                |f: (String, FileFlags)| pre.push(f.0@),
            ),
        ).push(p@));
        i = i + 1;
    }
    assert(content.files@.subrange(0, i as int) =~= content.files@);
    let ghost mid = string_views(out@);
    let mut k: usize = 0;
    while k < content.dirs.len()
        invariant
            0 <= k <= content.dirs@.len(),
            prefix@ == join_path(pre),
            top == (pre.len() == 0),
            string_views(out@) == mid + joined(dir_paths_under(*content, pre, k as int)),
        decreases content.dirs@.len() - k,
    {
        let child = &content.dirs[k];
        let p = child_path(prefix, top, Ghost(pre), &child.0);
        let ghost before = string_views(out@);
        list_of_files_helper(&child.1, &p, false, Ghost(pre.push(child.0@)), out);
        assert(joined(dir_paths_under(*content, pre, k + 1)) =~= joined(
            dir_paths_under(*content, pre, k as int),
        ) + joined(paths_under(child.1, pre.push(child.0@))));
        k = k + 1;
    }
    assert(joined(paths_under(*content, pre)) =~= joined(
        content.files@.map_values(|f: (String, FileFlags)| pre.push(f.0@)),
    ) + joined(dir_paths_under(*content, pre, content.dirs@.len() as int)));
}

/// Every file of the tree as its slash-joined path from the root,
/// depth-first: the files of a directory before its subdirectories.
pub fn list_of_files(content: &DirNode) -> (r: Vec<String>)
    ensures
        string_views(r@) == joined(leaf_paths(*content)),
{
    let mut out: Vec<String> = Vec::new();
    let prefix = String::new();
    assert(string_views(out@) =~= Seq::<Seq<char>>::empty());
    list_of_files_helper(content, &prefix, true, Ghost(Seq::empty()), &mut out);
    assert(string_views(out@) =~= joined(leaf_paths(*content)));
    out
}

} // verus!

verus! {

pub open spec fn connector(last: bool) -> Seq<char> {
    if last {
        "\u{2514}"@
    } else {
        "\u{251c}"@
    }
}

/// What is carried into the prefix of the entries below a directory line.
pub open spec fn guide(last: bool) -> Seq<char> {
    if last {
        " "@
    } else {
        "\u{2502}"@
    }
}

pub open spec fn bool_text(b: bool) -> Seq<char> {
    if b {
        "true"@
    } else {
        "false"@
    }
}

pub open spec fn dir_text(name: Seq<char>) -> Seq<char> {
    "<DIR> "@ + name
}

pub open spec fn dir_line(prefix: Seq<char>, last: bool, name: Seq<char>) -> Seq<char> {
    prefix + connector(last) + dir_text(name)
}

/// A file's name followed by its four flags.
pub open spec fn file_text(name: Seq<char>, f: FileFlags) -> Seq<char> {
    "<FILE> "@ + name + " has_content: "@ + bool_text(f.has_content) + ", has_key: "@ + bool_text(
        f.has_key,
    ) + ", has_digest: "@ + bool_text(f.has_digest) + ", has_signature: "@ + bool_text(f.is_signed)
}

pub open spec fn file_line(prefix: Seq<char>, last: bool, name: Seq<char>, f: FileFlags) -> Seq<
    char,
> {
    prefix + connector(last) + file_text(name, f)
}

/// The `i`-th subdirectory closes its directory: there are no files and it is the last one.
pub open spec fn dir_is_terminal(n: DirNode, i: int) -> bool {
    n.files@.len() == 0 && i == n.dirs@.len() - 1
}

/// The `j`-th file closes its directory: it is the last one.
pub open spec fn file_is_terminal(n: DirNode, j: int) -> bool {
    j == n.files@.len() - 1
}

/// The rendering of the entries of `n`, each line starting with `prefix`:
/// subdirectories (each followed by its own entries) before files.
pub open spec fn render_lines(n: DirNode, prefix: Seq<char>) -> Seq<Seq<char>>
    decreases n, n.dirs@.len() + 1,
{
    render_dirs(n, prefix, n.dirs@.len() as int) + Seq::new(
        n.files@.len(),
        |j: int| file_line(prefix, file_is_terminal(n, j), n.files@[j].0@, n.files@[j].1),
    )
}

/// The rendering of the first `k` subdirectories of `n` and their entries.
pub open spec fn render_dirs(n: DirNode, prefix: Seq<char>, k: int) -> Seq<Seq<char>>
    decreases n, k,
{
    if k <= 0 || k > n.dirs@.len() {
        Seq::empty()
    } else {
        let last = dir_is_terminal(n, k - 1);
        render_dirs(n, prefix, k - 1) + seq![dir_line(prefix, last, n.dirs[k - 1].0@)]
            + render_lines(n.dirs[k - 1].1, prefix + guide(last))
    }
}

/// `line` begins with `prefix` and goes on past it.
pub open spec fn opens_with(line: Seq<char>, prefix: Seq<char>) -> bool {
    prefix.len() < line.len() && line.subrange(0, prefix.len() as int) == prefix
}

/// `line` is an entry drawn right after `prefix` with the closing connector.
pub open spec fn is_terminal_line(line: Seq<char>, prefix: Seq<char>) -> bool {
    opens_with(line, prefix) && line[prefix.len() as int] == '\u{2514}'
}

proof fn lemma_connector_chars()
    ensures
        connector(true).len() == 1 && connector(true)[0] == '\u{2514}',
        connector(false).len() == 1 && connector(false)[0] == '\u{251c}',
        guide(true).len() == 1 && guide(true)[0] == ' ',
        guide(false).len() == 1 && guide(false)[0] == '\u{2502}',
{
    reveal_strlit("\u{2514}");
    reveal_strlit("\u{251c}");
    reveal_strlit(" ");
    reveal_strlit("\u{2502}");
}

proof fn lemma_opens(prefix: Seq<char>, c: Seq<char>, tail: Seq<char>)
    requires
        c.len() == 1,
    ensures
        opens_with(prefix + c + tail, prefix),
        (prefix + c + tail)[prefix.len() as int] == c[0],
{
    let l = prefix + c + tail;
    assert(l.subrange(0, prefix.len() as int) =~= prefix);
}

proof fn lemma_opens_longer(line: Seq<char>, prefix: Seq<char>, g: Seq<char>)
    requires
        g.len() == 1,
        opens_with(line, prefix + g),
    ensures
        opens_with(line, prefix),
        line[prefix.len() as int] == g[0],
{
    assert(line.subrange(0, prefix.len() as int) =~= line.subrange(0, prefix.len() as int + 1).subrange(
        0,
        prefix.len() as int,
    ));
    assert((prefix + g).subrange(0, prefix.len() as int) =~= prefix);
    assert(line[prefix.len() as int] == line.subrange(0, prefix.len() as int + 1)[prefix.len() as int]);
}

proof fn lemma_file_line_opens(prefix: Seq<char>, last: bool, name: Seq<char>, f: FileFlags)
    ensures
        opens_with(file_line(prefix, last, name, f), prefix),
        file_line(prefix, last, name, f)[prefix.len() as int] == connector(last)[0],
{
    lemma_connector_chars();
    lemma_opens(prefix, connector(last), file_text(name, f));
}

proof fn lemma_dir_line_opens(prefix: Seq<char>, last: bool, name: Seq<char>)
    ensures
        opens_with(dir_line(prefix, last, name), prefix),
        dir_line(prefix, last, name)[prefix.len() as int] == connector(last)[0],
{
    lemma_connector_chars();
    lemma_opens(prefix, connector(last), dir_text(name));
}

proof fn lemma_render_opens(n: DirNode, prefix: Seq<char>)
    ensures
        forall|i: int|
            0 <= i < render_lines(n, prefix).len() ==> opens_with(
                #[trigger] render_lines(n, prefix)[i],
                prefix,
            ),
    decreases n, n.dirs@.len() + 1,
{
    lemma_render_dirs_terminal(n, prefix, n.dirs@.len() as int);
    let d = render_dirs(n, prefix, n.dirs@.len() as int);
    let lines = render_lines(n, prefix);
    assert forall|i: int| 0 <= i < lines.len() implies opens_with(#[trigger] lines[i], prefix) by {
        if i >= d.len() {
            let j = i - d.len();
            lemma_file_line_opens(prefix, file_is_terminal(n, j), n.files@[j].0@, n.files@[j].1);
        } else {
            assert(lines[i] == d[i]);
        }
    }
}

/// Within the first `k` subdirectories' rendering, a line closes the
/// directory exactly when it is the last subdirectory's own line and there are no files.
proof fn lemma_render_dirs_terminal(n: DirNode, prefix: Seq<char>, k: int)
    requires
        0 <= k <= n.dirs@.len(),
    ensures
        forall|i: int|
            0 <= i < render_dirs(n, prefix, k).len() ==> opens_with(
                #[trigger] render_dirs(n, prefix, k)[i],
                prefix,
            ),
        forall|i: int|
            0 <= i < render_dirs(n, prefix, k).len() ==> (is_terminal_line(
                #[trigger] render_dirs(n, prefix, k)[i],
                prefix,
            ) <==> (n.files@.len() == 0 && k == n.dirs@.len() && i == render_dirs(
                n,
                prefix,
                k - 1,
            ).len())),
    decreases n, k,
{
    lemma_connector_chars();
    if k > 0 {
        lemma_render_dirs_terminal(n, prefix, k - 1);
        let last = dir_is_terminal(n, k - 1);
        let left = render_dirs(n, prefix, k - 1);
        let own = dir_line(prefix, last, n.dirs[k - 1].0@);
        let g = guide(last);
        let child = render_lines(n.dirs[k - 1].1, prefix + g);
        lemma_render_opens(n.dirs[k - 1].1, prefix + g);
        lemma_dir_line_opens(prefix, last, n.dirs[k - 1].0@);
        let all = render_dirs(n, prefix, k);
        assert(all == left + seq![own] + child);
        assert forall|i: int| 0 <= i < all.len() implies opens_with(#[trigger] all[i], prefix)
            && (is_terminal_line(all[i], prefix) <==> (n.files@.len() == 0 && k == n.dirs@.len()
            && i == left.len())) by {
            if i < left.len() {
                assert(all[i] == left[i]);
            } else if i == left.len() {
                assert(all[i] == own);
            } else {
                let j = i - left.len() - 1;
                assert(all[i] == child[j]);
                lemma_opens_longer(child[j], prefix, g);
            }
        }
    }
}

/// In the rendering of a directory, exactly one line is drawn at its level
/// with the closing connector: the line of its last file, or of its last
/// subdirectory when it holds no files. An empty directory draws nothing.
pub proof fn lemma_render_single_terminal(n: DirNode, prefix: Seq<char>)
    ensures
        n.files@.len() == 0 && n.dirs@.len() == 0 ==> render_lines(n, prefix).len() == 0,
        n.files@.len() > 0 ==> forall|i: int|
            0 <= i < render_lines(n, prefix).len() ==> (is_terminal_line(
                #[trigger] render_lines(n, prefix)[i],
                prefix,
            ) <==> i == render_lines(n, prefix).len() - 1),
        n.files@.len() > 0 ==> render_lines(n, prefix).last() == file_line(
            prefix,
            true,
            n.files@.last().0@,
            n.files@.last().1,
        ),
        n.files@.len() == 0 && n.dirs@.len() > 0 ==> forall|i: int|
            0 <= i < render_lines(n, prefix).len() ==> (is_terminal_line(
                #[trigger] render_lines(n, prefix)[i],
                prefix,
            ) <==> i == render_dirs(n, prefix, n.dirs@.len() - 1).len()),
        n.files@.len() == 0 && n.dirs@.len() > 0 ==> render_lines(n, prefix)[render_dirs(
            n,
            prefix,
            n.dirs@.len() - 1,
        ).len() as int] == dir_line(prefix, true, n.dirs@.last().0@),
{
    lemma_connector_chars();
    let nd = n.dirs@.len() as int;
    lemma_render_dirs_terminal(n, prefix, nd);
    let d = render_dirs(n, prefix, nd);
    let lines = render_lines(n, prefix);
    assert forall|i: int| 0 <= i < lines.len() implies (is_terminal_line(#[trigger] lines[i], prefix)
        <==> (if n.files@.len() > 0 {
        i == lines.len() - 1
    } else {
        i == render_dirs(n, prefix, nd - 1).len()
    })) by {
        if i >= d.len() {
            let j = i - d.len();
            lemma_file_line_opens(prefix, file_is_terminal(n, j), n.files@[j].0@, n.files@[j].1);
        } else {
            assert(lines[i] == d[i]);
        }
    }
    if n.files@.len() == 0 && nd > 0 {
        assert(d == render_dirs(n, prefix, nd - 1) + seq![
            dir_line(prefix, true, n.dirs[nd - 1].0@),
        ] + render_lines(n.dirs[nd - 1].1, prefix + guide(true)));
        assert(lines[render_dirs(n, prefix, nd - 1).len() as int] == d[render_dirs(
            n,
            prefix,
            nd - 1,
        ).len() as int]);
    }
}

fn connector_str(last: bool) -> (r: &'static str)
    ensures
        r@ == connector(last),
{
    if last {
        "\u{2514}"
    } else {
        "\u{251c}"
    }
}

fn guide_str(last: bool) -> (r: &'static str)
    ensures
        r@ == guide(last),
{
    if last {
        " "
    } else {
        "\u{2502}"
    }
}

fn bool_str(b: bool) -> (r: &'static str)
    ensures
        r@ == bool_text(b),
{
    if b {
        "true"
    } else {
        "false"
    }
}

fn file_line_string(prefix: &String, last: bool, name: &String, f: FileFlags) -> (r: String)
    ensures
        r@ == file_line(prefix@, last, name@, f),
{
    let text = String::from_str("<FILE> ").concat(name.as_str()).concat(" has_content: ").concat(
        bool_str(f.has_content),
    ).concat(", has_key: ").concat(bool_str(f.has_key)).concat(", has_digest: ").concat(
        bool_str(f.has_digest),
    ).concat(", has_signature: ").concat(bool_str(f.is_signed));
    prefix.clone().concat(connector_str(last)).concat(text.as_str())
}

fn list_content_helper(content: &DirNode, prefix: &String, out: &mut Vec<String>)
    ensures
        string_views(final(out)@) == string_views(old(out)@) + render_lines(*content, prefix@),
    decreases content,
{
    let ghost start = string_views(out@);
    let nf = content.files.len();
    let nd = content.dirs.len();
    let mut k: usize = 0;
    while k < nd
        invariant
            0 <= k <= nd,
            nd == content.dirs@.len(),
            nf == content.files@.len(),
            string_views(out@) == start + render_dirs(*content, prefix@, k as int),
        decreases nd - k,
    {
        let last = nf == 0 && k + 1 == nd;
        let name = &content.dirs[k].0;
        let text = String::from_str("<DIR> ").concat(name.as_str());
        let line = prefix.clone().concat(connector_str(last)).concat(text.as_str());
        let ghost before = string_views(out@);
        out.push(line);
        assert(string_views(out@) =~= before.push(line@));
        let child_prefix = prefix.clone().concat(guide_str(last));
        list_content_helper(&content.dirs[k].1, &child_prefix, out);
        assert(render_dirs(*content, prefix@, k + 1) =~= render_dirs(*content, prefix@, k as int)
            + seq![line@] + render_lines(content.dirs[k as int].1, child_prefix@));
        k = k + 1;
    }
    let ghost mid = string_views(out@);
    let mut j: usize = 0;
    while j < nf
        invariant
            0 <= j <= nf,
            nf == content.files@.len(),
            string_views(out@) == mid + Seq::new(
                j as nat,
                |x: int|
                    file_line(
                        prefix@,
                        file_is_terminal(*content, x),
                        content.files@[x].0@,
                        content.files@[x].1,
                    ),
            ),
        decreases nf - j,
    {
        let line = file_line_string(
            prefix,
            j + 1 == nf,
            &content.files[j].0,
            content.files[j].1,
        );
        let ghost before = string_views(out@);
        out.push(line);
        assert(string_views(out@) =~= before.push(line@));
        j = j + 1;
    }
    assert(string_views(out@) =~= string_views(old(out)@) + render_lines(*content, prefix@));
}

/// The line-drawing rendering of the whole tree, closed by an empty line.
pub fn list_content(content: &DirNode) -> (r: Vec<String>)
    ensures
        string_views(r@) == render_lines(*content, Seq::empty()) + seq![Seq::<char>::empty()],
{
    let mut out: Vec<String> = Vec::new();
    let prefix = String::new();
    assert(string_views(out@) =~= Seq::<Seq<char>>::empty());
    list_content_helper(content, &prefix, &mut out);
    let ghost before = string_views(out@);
    out.push(String::new());
    assert(string_views(out@) =~= before.push(Seq::<char>::empty()));
    out
}

} // verus!

verus! {

fn has_file_from(n: &DirNode, segs: &Vec<String>, k: usize) -> (r: bool)
    requires
        k <= segs@.len(),
    ensures
        r == has_file(*n, string_views(segs@).subrange(k as int, segs@.len() as int)),
    decreases n,
{
    let ghost p = string_views(segs@).subrange(k as int, segs@.len() as int);
    if k >= segs.len() {
        return false;
    }
    assert(p[0] == segs@[k as int]@);
    if k + 1 == segs.len() {
        let mut j: usize = 0;
        while j < n.files.len()
            invariant
                0 <= j <= n.files@.len(),
                k < segs@.len(),
                p == string_views(segs@).subrange(k as int, segs@.len() as int),
                p.len() == 1,
                p[0] == segs@[k as int]@,
                forall|x: int| 0 <= x < j ==> #[trigger] n.files@[x].0@ != p[0],
            decreases n.files@.len() - j,
        {
            if n.files[j].0 == segs[k] {
                assert(n.files@[j as int].0@ == p[0]);
                return true;
            }
            j = j + 1;
        }
        return false;
    }
    let ghost rest = string_views(segs@).subrange(k + 1, segs@.len() as int);
    assert(p.drop_first() =~= rest);
    let next = k + 1;
    let mut i: usize = 0;
    while i < n.dirs.len()
        invariant
            0 <= i <= n.dirs@.len(),
            next == k + 1,
            next < segs@.len(),
            p == string_views(segs@).subrange(k as int, segs@.len() as int),
            p.len() >= 2,
            p[0] == segs@[k as int]@,
            p.drop_first() == rest,
            rest == string_views(segs@).subrange(k + 1, segs@.len() as int),
            forall|x: int|
                0 <= x < i ==> !(#[trigger] n.dirs[x].0@ == p[0] && has_file(n.dirs[x].1, rest)),
        decreases n.dirs@.len() - i,
    {
        if n.dirs[i].0 == segs[k] {
            if has_file_from(&n.dirs[i].1, segs, next) {
                assert(n.dirs[i as int].0@ == p[0]);
                return true;
            }
        }
        i = i + 1;
    }
    false
}

/// Whether the path `segs` leads from the root of `tree` to a file.
pub fn contains_file(tree: &DirNode, segs: &Vec<String>) -> (r: bool)
    ensures
        r == has_file(*tree, string_views(segs@)),
{
    assert(string_views(segs@).subrange(0, segs@.len() as int) =~= string_views(segs@));
    has_file_from(tree, segs, 0)
}

/// The position of the first of `paths` that leads to no file of `tree`,
/// or `None` when every one of them does.
pub fn first_missing(tree: &DirNode, paths: &Vec<Vec<String>>) -> (r: Option<usize>)
    ensures
        r matches Some(i) ==> i < paths@.len() && !has_file(*tree, string_views(paths@[i as int]@))
            && forall|j: int| 0 <= j < i ==> has_file(*tree, string_views(#[trigger] paths@[j]@)),
        r is None ==> forall|j: int|
            0 <= j < paths@.len() ==> has_file(*tree, string_views(#[trigger] paths@[j]@)),
{
    let mut i: usize = 0;
    while i < paths.len()
        invariant
            0 <= i <= paths@.len(),
            forall|j: int| 0 <= j < i ==> has_file(*tree, string_views(#[trigger] paths@[j]@)),
        decreases paths@.len() - i,
    {
        if !contains_file(tree, &paths[i]) {
            return Some(i);
        }
        i = i + 1;
    }
    None
}

} // verus!
