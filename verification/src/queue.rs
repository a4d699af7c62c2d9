//! The in-memory model of one playlist's persisted queue: an ordered list of
//! track records, with the append / rename / remove / list operations the
//! command surface exposes.
//!
//! A track's identity is its position; display names need not be unique, and
//! rename and remove act on the first record carrying the given name, leaving
//! any later namesakes untouched.  Reading and writing the persisted file is
//! the surrounding runtime's job; it hands the decoded records in and takes
//! the updated list back.

use vstd::prelude::*;

verus! {

/// One track of a playlist: where its audio lives and what to call it.
#[derive(Clone, Debug)]
pub struct QueueItem {
    pub file_path: String,
    pub name: String,
}

/// The ordered track list of one playlist.
#[derive(Clone, Debug)]
pub struct Queue {
    pub items: Vec<QueueItem>,
}

/// The position of the first record named `name`, or `items.len()` when no
/// record carries that name.
pub open spec fn first_match(items: Seq<QueueItem>, name: Seq<char>) -> int
    decreases items.len(),
{
    if items.len() == 0 {
        0
    } else if items[0].name@ == name {
        0
    } else {
        1 + first_match(items.drop_first(), name)
    }
}

/// What [`first_match`] returns: an index within bounds pointing at a record
/// of the given name, with no earlier record named so — or the length, when
/// the name is absent altogether.
pub proof fn lemma_first_match(items: Seq<QueueItem>, name: Seq<char>)
    ensures
        0 <= first_match(items, name) <= items.len(),
        first_match(items, name) < items.len() ==> items[first_match(items, name)].name@ == name,
        forall|j: int| 0 <= j < first_match(items, name) ==> items[j].name@ != name,
        first_match(items, name) == items.len() ==> forall|j: int|
            0 <= j < items.len() ==> items[j].name@ != name,
    decreases items.len(),
{
    if items.len() > 0 && items[0].name@ != name {
        lemma_first_match(items.drop_first(), name);
        let rest = items.drop_first();
        let f = first_match(items, name);
        assert(forall|j: int| 0 <= j < f - 1 ==> items[j + 1] == rest[j]);
        assert forall|j: int| 0 <= j < f implies items[j].name@ != name by {
            if j > 0 {
                assert(items[j] == rest[j - 1]);
            }
        }
        if f == items.len() {
            assert forall|j: int| 0 <= j < items.len() implies items[j].name@ != name by {
                if j > 0 {
                    assert(items[j] == rest[j - 1]);
                }
            }
        }
    }
}

/// The suffix of `s` after the last occurrence of `c`, or all of `s` when
/// `c` does not occur.
pub open spec fn after_last(s: Seq<char>, c: char) -> Seq<char>
    decreases s.len(),
{
    if s.len() == 0 {
        s
    } else if s[s.len() - 1] == c {
        Seq::empty()
    } else {
        after_last(s.drop_last(), c).push(s[s.len() - 1])
    }
}

/// The prefix of `s` before the last occurrence of `c`; meaningful only when
/// `c` occurs in `s`.
pub open spec fn before_last(s: Seq<char>, c: char) -> Seq<char>
    decreases s.len(),
{
    if s.len() == 0 {
        s
    } else if s[s.len() - 1] == c {
        s.drop_last()
    } else {
        before_last(s.drop_last(), c)
    }
}

/// The file stem a legacy record's display name defaults to: the part of the
/// path after the last separator, with a trailing extension (everything from
/// the last dot on) removed.
pub open spec fn stem_of(path: Seq<char>) -> Seq<char> {
    let base = after_last(path, '/');
    if base.contains('.') {
        before_last(base, '.')
    } else {
        base
    }
}

/// When the last occurrence of `c` in `s` sits just before position `k` (or
/// `k` is 0 and `c` is absent), the suffix after the last `c` is exactly
/// `s` from `k` on.
proof fn lemma_after_last_at(s: Seq<char>, c: char, k: int)
    requires
        0 <= k <= s.len(),
        k == 0 || s[k - 1] == c,
        forall|j: int| k <= j < s.len() ==> s[j] != c,
    ensures
        after_last(s, c) == s.subrange(k, s.len() as int),
    decreases s.len(),
{
    if s.len() == 0 {
        assert(after_last(s, c) =~= s.subrange(0, 0));
    } else if s[s.len() - 1] == c {
        assert(k == s.len());
        assert(after_last(s, c) =~= s.subrange(k, s.len() as int));
    } else {
        assert(k < s.len());
        lemma_after_last_at(s.drop_last(), c, k);
        assert(s.drop_last().subrange(k, s.len() - 1) =~= s.subrange(k, s.len() - 1));
        assert(after_last(s, c) =~= s.subrange(k, s.len() as int));
    }
}

/// When the last occurrence of `c` in `s` is at position `m`, the prefix
/// before the last `c` is exactly `s` up to `m`.
proof fn lemma_before_last_at(s: Seq<char>, c: char, m: int)
    requires
        0 <= m < s.len(),
        s[m] == c,
        forall|j: int| m < j < s.len() ==> s[j] != c,
    ensures
        before_last(s, c) == s.subrange(0, m),
    decreases s.len(),
{
    if s[s.len() - 1] == c {
        assert(m == s.len() - 1);
        assert(s.drop_last() =~= s.subrange(0, m));
    } else {
        lemma_before_last_at(s.drop_last(), c, m);
        assert(s.drop_last().subrange(0, m) =~= s.subrange(0, m));
    }
}

/// The display name to record for a track read from a legacy record that
/// lacks one: the file stem of its path.
pub fn track_name_from_path(file_path: &str) -> (r: String)
    ensures
        r@ == stem_of(file_path@),
{
    let n = file_path.unicode_len();
    let mut start: usize = 0;
    let mut i: usize = 0;
    while i < n
        invariant
            n == file_path@.len(),
            0 <= start <= i <= n,
            start == 0 || file_path@[start - 1] == '/',
            forall|j: int| start <= j < i ==> file_path@[j] != '/',
        decreases n - i,
    {
        if file_path.get_char(i) == '/' {
            start = i + 1;
        }
        i = i + 1;
    }
    proof {
        lemma_after_last_at(file_path@, '/', start as int);
    }
    let ghost base = file_path@.subrange(start as int, n as int);
    let mut dot: usize = n;
    let mut j: usize = start;
    while j < n
        invariant
            n == file_path@.len(),
            start <= j <= n,
            dot == n || (start <= dot < j && file_path@[dot as int] == '.'),
            dot == n ==> forall|l: int| start <= l < j ==> file_path@[l] != '.',
            dot < n ==> forall|l: int| dot < l < j ==> file_path@[l] != '.',
        decreases n - j,
    {
        if file_path.get_char(j) == '.' {
            dot = j;
        }
        j = j + 1;
    }
    let end: usize = if dot < n {
        dot
    } else {
        n
    };
    proof {
        if dot < n {
            assert(base[dot - start] == '.');
            assert(base.contains('.'));
            assert(forall|l: int| dot - start < l < base.len() ==> base[l] != '.');
            lemma_before_last_at(base, '.', dot - start);
            assert(base.subrange(0, dot - start) =~= file_path@.subrange(
                start as int,
                dot as int,
            ));
        } else {
            assert forall|l: int| 0 <= l < base.len() implies base[l] != '.' by {
                assert(base[l] == file_path@[start + l]);
            }
            assert(!base.contains('.'));
        }
    }
    let stem = file_path.substring_char(start, end);
    stem.to_owned()
}

/// The display name for a decoded queue record, tolerating the legacy shape:
/// a record that carries a name keeps it, and one that lacks a name falls
/// back to the file stem of its path.
pub fn default_track_name(file_path: &str, name: Option<String>) -> (r: String)
    ensures
        name is Some ==> r@ == name->0@,
        name is None ==> r@ == stem_of(file_path@),
{
    match name {
        Some(n) => n,
        None => track_name_from_path(file_path),
    }
}

impl Queue {
    /// The empty queue a missing playlist file bootstraps to.
    pub fn empty() -> (q: Self)
        ensures
            q.items@.len() == 0,
    {
        Queue { items: Vec::new() }
    }

    /// The number of tracks in the queue.
    pub fn len(&self) -> (n: usize)
        ensures
            n == self.items@.len(),
    {
        self.items.len()
    }

    /// Appends a record at the end of the queue.
    pub fn append_track(&mut self, item: QueueItem)
        ensures
            final(self).items@ == old(self).items@.push(item),
    {
        self.items.push(item);
    }

    /// The position of the first record named `name`, if any.
    pub fn find_track(&self, name: &String) -> (r: Option<usize>)
        ensures
            ({
                let f = first_match(self.items@, name@);
                &&& 0 <= f <= self.items@.len()
                &&& (r is Some ==> f < self.items@.len() && r->0 == f)
                &&& (r is None ==> f == self.items@.len())
            }),
    {
        proof {
            lemma_first_match(self.items@, name@);
        }
        let n = self.items.len();
        let mut k: usize = 0;
        while k < n
            invariant
                n == self.items@.len(),
                0 <= k <= n,
                forall|j: int| 0 <= j < k ==> self.items@[j].name@ != name@,
                0 <= first_match(self.items@, name@) <= n,
                first_match(self.items@, name@) < n ==> self.items@[first_match(
                    self.items@,
                    name@,
                )].name@ == name@,
                forall|j: int| 0 <= j < first_match(self.items@, name@) ==> self.items@[j].name@
                    != name@,
            decreases n - k,
        {
            if self.items[k].name == *name {
                proof {
                    let f = first_match(self.items@, name@);
                    assert(f == k);
                }
                return Some(k);
            }
            k = k + 1;
        }
        proof {
            let f = first_match(self.items@, name@);
            assert(f == n);
        }
        None
    }

    /// Renames the first record named `prev_name` to `new_name`; a queue with
    /// no such record is left unchanged.  Later records of the same name keep
    /// theirs.
    pub fn rename_track(&mut self, prev_name: &String, new_name: String)
        ensures
            final(self).items@.len() == old(self).items@.len(),
            ({
                let f = first_match(old(self).items@, prev_name@);
                &&& (f == old(self).items@.len() ==> final(self).items@ == old(self).items@)
                &&& (f < old(self).items@.len() ==> {
                    &&& final(self).items@[f].name@ == new_name@
                    &&& final(self).items@[f].file_path@ == old(self).items@[f].file_path@
                    &&& forall|j: int|
                        0 <= j < old(self).items@.len() && j != f ==> final(self).items@[j]
                            == old(self).items@[j]
                })
            }),
    {
        if let Some(pos) = self.find_track(prev_name) {
            let path = self.items[pos].file_path.clone();
            let renamed = QueueItem { file_path: path, name: new_name };
            self.items[pos] = renamed;
        }
    }

    /// Removes the first record named `name`; a queue with no such record is
    /// left unchanged.  Later records of the same name stay.
    pub fn remove_track(&mut self, name: &String)
        ensures
            ({
                let f = first_match(old(self).items@, name@);
                &&& (f == old(self).items@.len() ==> final(self).items@ == old(self).items@)
                &&& (f < old(self).items@.len() ==> final(self).items@ == old(
                    self,
                ).items@.remove(f))
            }),
    {
        if let Some(pos) = self.find_track(name) {
            self.items.remove(pos);
        }
    }

    /// The display names of all tracks, in queue order.
    pub fn track_names(&self) -> (r: Vec<String>)
        ensures
            r@.len() == self.items@.len(),
            forall|j: int| 0 <= j < r@.len() ==> r@[j]@ == self.items@[j].name@,
    {
        let n = self.items.len();
        let mut names: Vec<String> = Vec::new();
        let mut k: usize = 0;
        while k < n
            invariant
                n == self.items@.len(),
                0 <= k <= n,
                names@.len() == k,
                forall|j: int| 0 <= j < k ==> names@[j]@ == self.items@[j].name@,
            decreases n - k,
        {
            names.push(self.items[k].name.clone());
            k = k + 1;
        }
        names
    }
}

} // verus!
