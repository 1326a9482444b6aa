//! File-backed adapters: each holds the target path of the persisted
//! payload and the pure rules of the file backend — how the temporary path
//! of the atomic write is derived from the target path, and how a raw read
//! of the target path is classified. The filesystem calls themselves, and
//! the codec that turns values into payload text, live outside the library
//! with the process's other I/O.

use vstd::prelude::*;
use vstd::string::StrSliceExecFns;
use vstd::string::StringExecFns;
use crate::error::SaberError;

verus! {

/// File adapter of the blocking store: the payload lives at `path`.
pub struct JsonFileSync {
    path: String,
}

impl JsonFileSync {
    /// Create a new file adapter for the given target path.
    pub fn new(path: String) -> (r: Self)
        ensures
            r.path_view() == path@,
    {
        JsonFileSync { path }
    }

    /// The target path of the persisted payload.
    pub closed spec fn path_view(&self) -> Seq<char> {
        self.path@
    }

    /// The target path of the persisted payload.
    pub fn path(&self) -> (r: &String)
        ensures
            r@ == self.path_view(),
    {
        &self.path
    }

    /// The colocated temporary path used by the atomic write.
    pub fn temp_path(&self) -> (r: String)
        ensures
            r@ == temp_path_of(self.path_view()),
    {
        derive_temp_path(&self.path)
    }
}

/// File adapter of the suspend-capable store: same backend rules as
/// [`JsonFileSync`], run under a cooperative scheduler outside the library.
pub struct JsonFile {
    path: String,
}

impl JsonFile {
    /// Create a new file adapter for the given target path.
    pub fn new(path: String) -> (r: Self)
        ensures
            r.path_view() == path@,
    {
        JsonFile { path }
    }

    /// The target path of the persisted payload.
    pub closed spec fn path_view(&self) -> Seq<char> {
        self.path@
    }

    /// The target path of the persisted payload.
    pub fn path(&self) -> (r: &String)
        ensures
            r@ == self.path_view(),
    {
        &self.path
    }

    /// The colocated temporary path used by the atomic write.
    pub fn temp_path(&self) -> (r: String)
        ensures
            r@ == temp_path_of(self.path_view()),
    {
        derive_temp_path(&self.path)
    }
}

/// What a raw read of the target path reported: the file's full content, a
/// missing file, or any other failure with its description.
pub enum RawReadOutcome {
    Content(Vec<u8>),
    Missing,
    Failure(String),
}

/// Decision rule of the file backend's read: content passes through, a
/// missing file means "no payload yet" (not an error), and any other
/// failure is an I/O error carrying the underlying description.
pub fn classify_raw_read(outcome: RawReadOutcome) -> (r: Result<Option<Vec<u8>>, SaberError>)
    ensures
        outcome matches RawReadOutcome::Content(bytes) ==> (r matches Ok(p) && p
            == Some(bytes)),
        outcome matches RawReadOutcome::Missing ==> r matches Ok(p) && p is None,
        outcome matches RawReadOutcome::Failure(m) ==> (r matches Err(e) && e
            == SaberError::Io(m)),
{
    match outcome {
        RawReadOutcome::Content(bytes) => Ok(Some(bytes)),
        RawReadOutcome::Missing => Ok(None),
        RawReadOutcome::Failure(m) => Err(SaberError::Io(m)),
    }
}

/// Index of the last occurrence of `c` in `s`, or -1 when `c` is absent.
pub open spec fn last_index_of(s: Seq<char>, c: char) -> int
    decreases s.len(),
{
    if s.len() == 0 {
        -1
    } else if s[s.len() - 1] == c {
        s.len() - 1
    } else {
        last_index_of(s.drop_last(), c)
    }
}

/// The final component of `p`: everything after the last path separator.
pub open spec fn file_name_of(p: Seq<char>) -> Seq<char> {
    p.subrange(last_index_of(p, '/') + 1, p.len() as int)
}

/// Whether the final component of `p` carries an extension that the
/// temporary path replaces: a dot after its first character. A name whose
/// only dot leads it (a hidden file) has no extension.
pub open spec fn has_extension(p: Seq<char>) -> bool {
    last_index_of(file_name_of(p), '.') > 0
}

/// The temporary path of the atomic write: the target path with its
/// extension replaced by "tmp", or with ".tmp" appended when the final
/// component has no extension. A path whose final component is empty or a
/// parent-directory marker names no file; it is left unchanged and the
/// write fails on the filesystem instead.
pub open spec fn temp_path_of(p: Seq<char>) -> Seq<char> {
    if file_name_of(p).len() == 0 || file_name_of(p) == ".."@ {
        p
    } else if has_extension(p) {
        p.subrange(0, p.len() - file_name_of(p).len() + last_index_of(file_name_of(p), '.'))
            + ".tmp"@
    } else {
        p + ".tmp"@
    }
}

/// Index of the last occurrence of `c` in `s`, or `s@.len()` when `c` is
/// absent (so the caller can test absence without a signed type).
fn find_last(s: &str, c: char) -> (r: usize)
    ensures
        r <= s@.len(),
        r < s@.len() ==> r == last_index_of(s@, c),
        r == s@.len() ==> last_index_of(s@, c) == -1,
{
    let n = s.unicode_len();
    let mut i: usize = n;
    proof {
        assert(s@.subrange(0, n as int) =~= s@);
    }
    while i > 0
        invariant
            i <= n,
            n == s@.len(),
            last_index_of(s@, c) == last_index_of(s@.subrange(0, i as int), c),
        decreases i,
    {
        proof {
            assert(s@.subrange(0, i as int).drop_last() =~= s@.subrange(0, i - 1));
        }
        if s.get_char(i - 1) == c {
            return i - 1;
        }
        i = i - 1;
    }
    proof {
        assert(s@.subrange(0, 0) =~= Seq::<char>::empty());
    }
    n
}

/// Compute [`temp_path_of`] for a target path.
fn derive_temp_path(path: &String) -> (r: String)
    ensures
        r@ == temp_path_of(path@),
{
    let n = path.as_str().unicode_len();
    let sep = find_last(path.as_str(), '/');
    let name_start: usize = if sep < n {
        sep + 1
    } else {
        0
    };
    proof {
        assert(file_name_of(path@) =~= path@.subrange(name_start as int, n as int));
    }
    let name_len: usize = n - name_start;
    let double_dot: bool = if name_len == 2 {
        path.as_str().get_char(name_start) == '.' && path.as_str().get_char(name_start + 1)
            == '.'
    } else {
        false
    };
    proof {
        broadcast use vstd::string::group_string_axioms;

        reveal_strlit("..");
        if file_name_of(path@) == ".."@ {
            assert(name_len == 2);
            assert(path@.subrange(name_start as int, n as int)[0] == '.');
            assert(path@[name_start as int] == '.');
            assert(path@.subrange(name_start as int, n as int)[1] == '.');
            assert(path@[name_start + 1] == '.');
        }
        if double_dot {
            assert(file_name_of(path@) =~= ".."@);
        }
        assert(double_dot == (file_name_of(path@) == ".."@));
    }
    if name_len == 0 || double_dot {
        let r = path.clone();
        return r;
    }
    let name = path.as_str().substring_char(name_start, n);
    let dot = find_last(name, '.');
    if dot < name_len && dot > 0 {
        let stem = path.as_str().substring_char(0, name_start + dot);
        let r = stem.to_owned().concat(".tmp");
        proof {
            assert(r@ =~= temp_path_of(path@));
        }
        r
    } else {
        let r = path.clone().concat(".tmp");
        proof {
            assert(r@ =~= temp_path_of(path@));
        }
        r
    }
}


/// The temporary path is recognizable: whenever the target path names a
/// file, the derived temporary path ends in ".tmp", so cleanup tooling can
/// treat any such leftover as disposable scratch state.
pub proof fn lemma_temp_path_suffix(p: Seq<char>)
    requires
        file_name_of(p).len() > 0,
        file_name_of(p) != ".."@,
    ensures
        temp_path_of(p).len() >= 4,
        temp_path_of(p).subrange(
            temp_path_of(p).len() - 4,
            temp_path_of(p).len() as int,
        ) == ".tmp"@,
{
    reveal_strlit(".tmp");
    let t = temp_path_of(p);
    assert(t.subrange(t.len() - 4, t.len() as int) =~= ".tmp"@);
}


/// The last occurrence of a character lies inside the sequence, or is -1.
proof fn lemma_last_index_of_range(s: Seq<char>, c: char)
    ensures
        -1 <= last_index_of(s, c) < s.len(),
    decreases s.len(),
{
    if s.len() > 0 {
        lemma_last_index_of_range(s.drop_last(), c);
    }
}

/// A sequence none of whose characters is `c` has no last occurrence of it.
proof fn lemma_no_occurrence(s: Seq<char>, c: char)
    requires
        forall|i: int| 0 <= i < s.len() ==> s[i] != c,
    ensures
        last_index_of(s, c) == -1,
    decreases s.len(),
{
    if s.len() > 0 {
        lemma_no_occurrence(s.drop_last(), c);
    }
}

/// Appending characters that never contain `c` does not move the last
/// occurrence of `c`.
proof fn lemma_last_index_of_append_absent(a: Seq<char>, b: Seq<char>, c: char)
    requires
        last_index_of(b, c) == -1,
    ensures
        last_index_of(a + b, c) == last_index_of(a, c),
    decreases b.len(),
{
    if b.len() == 0 {
        assert(a + b =~= a);
    } else {
        assert((a + b).drop_last() =~= a + b.drop_last());
        lemma_last_index_of_append_absent(a, b.drop_last(), c);
    }
}

/// Cutting a sequence anywhere after the last occurrence of `c` does not
/// move that occurrence.
proof fn lemma_last_index_of_prefix(s: Seq<char>, c: char, m: int)
    requires
        last_index_of(s, c) < m <= s.len(),
    ensures
        last_index_of(s.subrange(0, m), c) == last_index_of(s, c),
    decreases s.len(),
{
    lemma_last_index_of_range(s, c);
    if m == s.len() {
        assert(s.subrange(0, m) =~= s);
    } else {
        assert(s.drop_last().subrange(0, m) =~= s.subrange(0, m));
        lemma_last_index_of_prefix(s.drop_last(), c, m);
    }
}

/// The temporary path is colocated with the target: everything up to and
/// including the target's last path separator is kept unchanged, and the
/// derived file name introduces no separator of its own.
pub proof fn lemma_temp_path_colocated(p: Seq<char>)
    requires
        file_name_of(p).len() > 0,
        file_name_of(p) != ".."@,
    ensures
        last_index_of(temp_path_of(p), '/') == last_index_of(p, '/'),
        temp_path_of(p).subrange(0, last_index_of(p, '/') + 1) == p.subrange(
            0,
            last_index_of(p, '/') + 1,
        ),
{
    broadcast use vstd::string::group_string_axioms;

    reveal_strlit(".tmp");
    assert forall|i: int| 0 <= i < ".tmp"@.len() implies ".tmp"@[i] != '/' by {
        if i == 0 {
            assert(".tmp"@[0] == '.');
        } else if i == 1 {
            assert(".tmp"@[1] == 't');
        } else if i == 2 {
            assert(".tmp"@[2] == 'm');
        } else {
            assert(".tmp"@[3] == 'p');
        }
    }
    lemma_no_occurrence(".tmp"@, '/');
    lemma_last_index_of_range(p, '/');
    let sep = last_index_of(p, '/');
    let name_start = sep + 1;
    if has_extension(p) {
        lemma_last_index_of_range(file_name_of(p), '.');
        let cut = p.len() - file_name_of(p).len() + last_index_of(file_name_of(p), '.');
        assert(cut == name_start + last_index_of(file_name_of(p), '.'));
        lemma_last_index_of_prefix(p, '/', cut);
        lemma_last_index_of_append_absent(p.subrange(0, cut), ".tmp"@, '/');
        assert(temp_path_of(p).subrange(0, name_start) =~= p.subrange(0, name_start));
    } else {
        lemma_last_index_of_append_absent(p, ".tmp"@, '/');
        assert(temp_path_of(p).subrange(0, name_start) =~= p.subrange(0, name_start));
    }
}

} // verus!
