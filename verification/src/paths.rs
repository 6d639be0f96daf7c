//! File-system paths as byte strings, with the two operations the service
//! needs: appending a name to a directory, and taking the last component.
use vstd::prelude::*;

verus! {

/// The separator byte `/`.
pub open spec fn sep() -> u8 {
    47u8
}

/// `name` appended to `root` the way a Unix path is extended: an absolute
/// `name` replaces `root`; otherwise a separator is put between the two
/// unless `root` is empty or already ends with one.
pub open spec fn join_path(root: Seq<u8>, name: Seq<u8>) -> Seq<u8> {
    if name.len() > 0 && name[0] == sep() {
        name
    } else if root.len() > 0 && root.last() != sep() {
        root + seq![sep()] + name
    } else {
        root + name
    }
}

/// Start of the component that ends at `end` (just after the previous
/// separator, or 0).
pub open spec fn seg_start(p: Seq<u8>, end: int) -> int
    decreases end,
{
    if end <= 0 {
        0
    } else if p[end - 1] == sep() {
        end
    } else {
        seg_start(p, end - 1)
    }
}

pub proof fn lemma_seg_start_bounds(p: Seq<u8>, end: int)
    requires
        0 <= end,
    ensures
        0 <= seg_start(p, end) <= end,
        end > 0 && p[end - 1] != sep() ==> seg_start(p, end) < end,
        forall|k: int| seg_start(p, end) <= k < end ==> p[k] != sep(),
    decreases end,
{
    if end > 0 && p[end - 1] != sep() {
        lemma_seg_start_bounds(p, end - 1);
    }
}

/// The last component of `p[0..end]`, ignoring empty and `.` components;
/// `None` when there is none or when it is `..`.
pub open spec fn file_name_before(p: Seq<u8>, end: int) -> Option<Seq<u8>>
    decreases end,
{
    if end <= 0 || end > p.len() {
        None
    } else if p[end - 1] == sep() {
        file_name_before(p, end - 1)
    } else {
        let start = seg_start(p, end);
        let seg = p.subrange(start, end);
        if seg == seq![46u8] {
            proof {
                lemma_seg_start_bounds(p, end);
            }
            file_name_before(p, start)
        } else if seg == seq![46u8, 46u8] {
            None
        } else {
            Some(seg)
        }
    }
}

/// The file name of a whole path.
pub open spec fn file_name_of(p: Seq<u8>) -> Option<Seq<u8>> {
    file_name_before(p, p.len() as int)
}

/// The bytes `s[from..to]` as a vector.
pub fn copy_range(s: &[u8], from: usize, to: usize) -> (r: Vec<u8>)
    requires
        from <= to <= s@.len(),
    ensures
        r@ == s@.subrange(from as int, to as int),
{
    let mut r: Vec<u8> = Vec::new();
    let mut i: usize = from;
    while i < to
        invariant
            from <= i <= to,
            to <= s@.len(),
            r@ == s@.subrange(from as int, i as int),
        decreases to - i,
    {
        r.push(s[i]);
        proof {
            assert(s@.subrange(from as int, i + 1) == s@.subrange(from as int, i as int).push(
                s@[i as int],
            ));
        }
        i = i + 1;
    }
    r
}

/// `name` appended to the directory `root` (see `join_path`).
pub fn join(root: &[u8], name: &[u8]) -> (r: Vec<u8>)
    ensures
        r@ == join_path(root@, name@),
{
    if name.len() > 0 && name[0] == 47u8 {
        return copy_range(name, 0, name.len());
    }
    let mut r = copy_range(root, 0, root.len());
    if root.len() > 0 && root[root.len() - 1] != 47u8 {
        r.push(47u8);
    }
    let mut i: usize = 0;
    let ghost base = r@;
    while i < name.len()
        invariant
            i <= name@.len(),
            r@ == base + name@.subrange(0, i as int),
        decreases name.len() - i,
    {
        r.push(name[i]);
        proof {
            assert(name@.subrange(0, i + 1) == name@.subrange(0, i as int).push(name@[i as int]));
        }
        i = i + 1;
    }
    proof {
        assert(name@.subrange(0, name@.len() as int) == name@);
        assert(root@.subrange(0, root@.len() as int) == root@);
    }
    r
}

/// The last meaningful component of `path` (see `file_name_before`).
pub fn file_name(path: &[u8]) -> (r: Option<Vec<u8>>)
    ensures
        match r {
            Some(v) => file_name_of(path@) == Some(v@),
            None => file_name_of(path@) is None,
        },
{
    let ghost p = path@;
    let mut end: usize = path.len();
    loop
        invariant
            end <= p.len(),
            p == path@,
            file_name_before(p, end as int) == file_name_of(p),
        decreases end,
    {
        if end == 0 {
            return None;
        }
        if path[end - 1] == 47u8 {
            end = end - 1;
            continue;
        }
        let mut start: usize = end;
        while start > 0 && path[start - 1] != 47u8
            invariant
                start <= end,
                end <= p.len(),
                p == path@,
                seg_start(p, start as int) == seg_start(p, end as int),
            decreases start,
        {
            start = start - 1;
        }
        proof {
            lemma_seg_start_bounds(p, end as int);
            assert(seg_start(p, start as int) == start);
        }
        let ghost seg = p.subrange(start as int, end as int);
        if end - start == 1 && path[start] == 46u8 {
            assert(seg == seq![46u8]);
            end = start;
            continue;
        }
        assert(seg != seq![46u8]) by {
            if seg == seq![46u8] {
                assert(seg.len() == end - start);
                assert(seq![46u8].len() == 1);
                assert(seg[0] == p[start as int]);
                assert(seq![46u8][0] == 46u8);
            }
        }
        if end - start == 2 && path[start] == 46u8 && path[start + 1] == 46u8 {
            assert(seg == seq![46u8, 46u8]);
            return None;
        }
        assert(seg != seq![46u8, 46u8]) by {
            if seg == seq![46u8, 46u8] {
                assert(seg.len() == end - start);
                assert(seq![46u8, 46u8].len() == 2);
                assert(seg[0] == p[start as int]);
                assert(seg[1] == p[start + 1]);
                assert(seq![46u8, 46u8][0] == 46u8);
                assert(seq![46u8, 46u8][1] == 46u8);
            }
        }
        return Some(copy_range(path, start, end));
    }
}

} // verus!

verus! {

proof fn lemma_seg_start_after(p: Seq<u8>, pre: int, end: int)
    requires
        0 <= pre <= end <= p.len(),
        pre == 0 || p[pre - 1] == sep(),
        forall|k: int| pre <= k < end ==> p[k] != sep(),
    ensures
        seg_start(p, end) == pre,
    decreases end,
{
    if end > pre {
        lemma_seg_start_after(p, pre, end - 1);
    }
}

/// A name that is a single ordinary path component (non-empty, without a
/// separator, and neither `.` nor `..`).
pub open spec fn plain_component(name: Seq<u8>) -> bool {
    &&& name.len() > 0
    &&& forall|k: int| 0 <= k < name.len() ==> name[k] != sep()
    &&& name != seq![46u8]
    &&& name != seq![46u8, 46u8]
}

/// Joining a plain component to any directory yields a path whose file name
/// is that component.
pub proof fn lemma_file_name_of_join(root: Seq<u8>, name: Seq<u8>)
    requires
        plain_component(name),
    ensures
        file_name_of(join_path(root, name)) == Some(name),
{
    let p = join_path(root, name);
    let pre: int = if root.len() > 0 && root.last() != sep() {
        root.len() + 1int
    } else {
        root.len() as int
    };
    assert(p == p.subrange(0, pre) + name);
    assert(p.len() == pre + name.len());
    assert forall|k: int| pre <= k < p.len() implies p[k] != sep() by {
        assert(p[k] == name[k - pre]);
    }
    assert(pre == 0 || p[pre - 1] == sep());
    lemma_seg_start_after(p, pre, p.len() as int);
    assert(p[p.len() - 1] == name[name.len() - 1]);
    assert(p.subrange(pre, p.len() as int) == name);
}

} // verus!
