//! File locations of the managed media folder: where a copied track goes,
//! how locations follow a moved media root, and which folders a deletion
//! may leave empty.
use crate::text::{chars_of, sanitized, sanitize_names, string_of, stands_at, texts};
use vstd::prelude::*;

verus! {

/// `b` appended to the path `a` as one more component, as `PathBuf::push`
/// does for a relative `b`: a separator is added unless `a` is empty or
/// already ends with one.
pub open spec fn joined(a: Seq<char>, b: Seq<char>) -> Seq<char> {
    if a.len() == 0 {
        b
    } else if a.last() == '/' {
        a + b
    } else {
        a + seq!['/'] + b
    }
}

/// The text after the last '/' of a path (all of it where there is none).
pub open spec fn file_name_of(p: Seq<char>) -> Seq<char>
    decreases p.len(),
{
    if p.len() == 0 {
        p
    } else if p.last() == '/' {
        Seq::empty()
    } else {
        file_name_of(p.drop_last()).push(p.last())
    }
}

fn join(a: &Vec<char>, b: &Vec<char>) -> (r: Vec<char>)
    ensures
        r@ == joined(a@, b@),
{
    let mut r: Vec<char> = Vec::new();
    let mut k: usize = 0;
    while k < a.len()
        invariant
            0 <= k <= a@.len(),
            r@ == a@.subrange(0, k as int),
        decreases a@.len() - k,
    {
        r.push(a[k]);
        k = k + 1;
        assert(r@ =~= a@.subrange(0, k as int));
    }
    assert(a@.subrange(0, k as int) =~= a@);
    if a.len() > 0 && a[a.len() - 1] != '/' {
        r.push('/');
    }
    let mut k: usize = 0;
    let ghost head = r@;
    while k < b.len()
        invariant
            0 <= k <= b@.len(),
            r@ == head + b@.subrange(0, k as int),
        decreases b@.len() - k,
    {
        r.push(b[k]);
        k = k + 1;
        assert(r@ =~= head + b@.subrange(0, k as int));
    }
    assert(b@.subrange(0, k as int) =~= b@);
    assert(r@ =~= joined(a@, b@));
    r
}

fn file_name(p: &Vec<char>) -> (r: Vec<char>)
    ensures
        r@ == file_name_of(p@),
{
    let mut r: Vec<char> = Vec::new();
    let mut k: usize = 0;
    while k < p.len()
        invariant
            0 <= k <= p@.len(),
            r@ == file_name_of(p@.subrange(0, k as int)),
        decreases p@.len() - k,
    {
        let ghost next = p@.subrange(0, k + 1);
        assert(next.drop_last() =~= p@.subrange(0, k as int));
        if p[k] == '/' {
            r = Vec::new();
        } else {
            r.push(p[k]);
        }
        k = k + 1;
        assert(r@ =~= file_name_of(next));
    }
    assert(p@.subrange(0, k as int) =~= p@);
    r
}

/// Where a track is kept in the managed media folder.
pub struct ManagedPaths {
    /// `<media>/<artist>`
    pub artist_dir: String,
    /// `<media>/<artist>/<album>`
    pub album_dir: String,
    /// `<media>/<artist>/<album>/<file name>`
    pub destination: String,
}

/// The folders and the destination of a track copied into the media folder
/// `dir`: one folder per artist, one per album inside it, names cleaned of
/// characters that file names cannot hold, and the file's own name.
pub fn managed_paths(dir: &str, artist: &str, album: &str, source: &str) -> (r: ManagedPaths)
    ensures
        r.artist_dir@ == joined(dir@, sanitized(artist@)),
        r.album_dir@ == joined(joined(dir@, sanitized(artist@)), sanitized(album@)),
        r.destination@ == joined(
            joined(joined(dir@, sanitized(artist@)), sanitized(album@)),
            file_name_of(source@),
        ),
{
    let a = sanitize_names(artist);
    let b = sanitize_names(album);
    let artist_dir = join(&chars_of(dir), &chars_of(a.as_str()));
    let album_dir = join(&artist_dir, &chars_of(b.as_str()));
    let destination = join(&album_dir, &file_name(&chars_of(source)));
    ManagedPaths {
        artist_dir: string_of(&artist_dir),
        album_dir: string_of(&album_dir),
        destination: string_of(&destination),
    }
}

/// A location once the media root moved from `old_root` to `new_root`: a
/// location that starts with the old root has it replaced by the new root;
/// any other location stays as it is.
pub open spec fn relocated(location: Seq<char>, old_root: Seq<char>, new_root: Seq<char>) -> Seq<char> {
    if old_root.len() <= location.len() && location.subrange(0, old_root.len() as int) == old_root {
        new_root + location.skip(old_root.len() as int)
    } else {
        location
    }
}

/// Rewrites a track location for a media root that moved.
pub fn relocate(location: &str, old_root: &str, new_root: &str) -> (r: String)
    ensures
        r@ == relocated(location@, old_root@, new_root@),
{
    let loc = chars_of(location);
    let old = chars_of(old_root);
    if !stands_at(&loc, 0, &old) {
        return string_of(&loc);
    }
    let mut out = chars_of(new_root);
    let ghost head = out@;
    let mut k: usize = old.len();
    while k < loc.len()
        invariant
            old@.len() <= k <= loc@.len(),
            out@ == head + loc@.subrange(old@.len() as int, k as int),
        decreases loc@.len() - k,
    {
        out.push(loc[k]);
        k = k + 1;
        assert(out@ =~= head + loc@.subrange(old@.len() as int, k as int));
    }
    assert(loc@.subrange(old@.len() as int, k as int) =~= loc@.skip(old@.len() as int));
    string_of(&out)
}

/// Whether the folder `p` lies inside the media root `root`.
pub open spec fn inside_root(p: Seq<char>, root: Seq<char>) -> bool {
    &&& p.len() > root.len()
    &&& p.subrange(0, root.len() as int) == root
    &&& ((root.len() > 0 && root.last() == '/') || p[root.len() as int] == '/')
}

/// Whether the text of `loc` before position `i` names a folder of the
/// location inside the media root.
pub open spec fn prunable_at(loc: Seq<char>, root: Seq<char>, i: int) -> bool {
    &&& 0 < i < loc.len()
    &&& loc[i] == '/'
    &&& loc[i - 1] != '/'
    &&& inside_root(loc.subrange(0, i), root)
}

/// The folders of `loc` that end before position `i` (inclusive) and lie
/// inside the root, the deepest first.
pub open spec fn prunable_upto(loc: Seq<char>, root: Seq<char>, i: int) -> Seq<Seq<char>>
    decreases i,
{
    if i <= 0 {
        Seq::empty()
    } else if prunable_at(loc, root, i) {
        seq![loc.subrange(0, i)] + prunable_upto(loc, root, i - 1)
    } else {
        prunable_upto(loc, root, i - 1)
    }
}

/// The folders that removing the file at `location` may leave empty, from
/// its own folder upward; the media root itself and what lies outside it
/// are never listed. A caller removes them in order while each is empty.
pub fn dirs_to_prune(location: &str, media_root: &str) -> (r: Vec<String>)
    ensures
        texts(r@) == prunable_upto(location@, media_root@, location@.len() - 1),
{
    let cs = chars_of(location);
    let root = chars_of(media_root);
    let mut out: Vec<String> = Vec::new();
    if cs.len() == 0 {
        assert(texts(out@) =~= prunable_upto(location@, media_root@, location@.len() - 1));
        return out;
    }
    let under = stands_at(&cs, 0, &root);
    let mut prefix: Vec<char> = Vec::new();
    prefix.push(cs[0]);
    let mut i: usize = 1;
    assert(prefix@ =~= cs@.subrange(0, 1));
    while i < cs.len()
        invariant
            1 <= i <= cs@.len(),
            cs@ == location@,
            root@ == media_root@,
            under == (root@.len() <= cs@.len() && cs@.subrange(0, root@.len() as int) == root@),
            prefix@ == cs@.subrange(0, i as int),
            texts(out@) == prunable_upto(cs@, root@, i - 1),
        decreases cs@.len() - i,
    {
        let ghost before = out@;
        let ok = cs[i] == '/' && cs[i - 1] != '/' && i > root.len() && under && ((root.len() > 0
            && root[root.len() - 1] == '/') || cs[root.len()] == '/');
        proof {
            let p = cs@.subrange(0, i as int);
            if i > root@.len() && under {
                assert(p.subrange(0, root@.len() as int) =~= cs@.subrange(0, root@.len() as int));
                assert(p[root@.len() as int] == cs@[root@.len() as int]);
            }
            if i > root@.len() && p.subrange(0, root@.len() as int) == root@ {
                assert(cs@.subrange(0, root@.len() as int) =~= p.subrange(0, root@.len() as int));
            }
        }
        if ok {
            out.insert(0, string_of(&prefix));
            assert(texts(out@) =~= seq![cs@.subrange(0, i as int)] + texts(before));
        }
        prefix.push(cs[i]);
        i = i + 1;
        assert(prefix@ =~= cs@.subrange(0, i as int));
    }
    out
}


/// Whether a track's file already lies in the managed media folder: its
/// location starts with the media root.
pub fn is_managed(location: &str, media_root: &str) -> (r: bool)
    ensures
        r == (media_root@.len() <= location@.len() && location@.subrange(0, media_root@.len() as int)
            == media_root@),
{
    stands_at(&chars_of(location), 0, &chars_of(media_root))
}

} // verus!
