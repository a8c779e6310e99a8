use vstd::prelude::*;

use crate::digest::{
    hash_hex, hex_digit_value, hex_lower, lemma_hex_lower_decodes, lemma_hex_lower_injective,
};
use vstd::std_specs::cmp::PartialEqSpecImpl;

verus! {

/// Where a checked file stands against the cache, with the path of the image
/// that shows it.
#[derive(Debug)]
pub enum FileState {
    /// The cached image still shows the file.
    Unchanged(String),
    /// The file's contents differ from the cached ones.
    Modified(String),
    /// The file has no cache entry yet.
    New(String),
}

/// A `FileState` with its path as text.
pub enum FileStateModel {
    Unchanged(Seq<char>),
    Modified(Seq<char>),
    New(Seq<char>),
}

impl FileStateModel {
    pub open spec fn image_path(self) -> Seq<char> {
        match self {
            FileStateModel::Unchanged(p) => p,
            FileStateModel::Modified(p) => p,
            FileStateModel::New(p) => p,
        }
    }
}

impl View for FileState {
    type V = FileStateModel;

    open spec fn view(&self) -> FileStateModel {
        match self {
            FileState::Unchanged(p) => FileStateModel::Unchanged(p@),
            FileState::Modified(p) => FileStateModel::Modified(p@),
            FileState::New(p) => FileStateModel::New(p@),
        }
    }
}

impl FileState {
    /// The path of the image that shows the file.
    pub fn image_path(&self) -> (path: &String)
        ensures
            path@ == self@.image_path(),
    {
        match self {
            FileState::Unchanged(p) => p,
            FileState::Modified(p) => p,
            FileState::New(p) => p,
        }
    }
}

/// Two states are equal when they are the same variant and their paths have
/// the same components.
impl PartialEq for FileState {
    fn eq(&self, other: &Self) -> (same: bool) {
        match (self, other) {
            (FileState::Unchanged(a), FileState::Unchanged(b)) => same_path(a.as_str(), b.as_str()),
            (FileState::Modified(a), FileState::Modified(b)) => same_path(a.as_str(), b.as_str()),
            (FileState::New(a), FileState::New(b)) => same_path(a.as_str(), b.as_str()),
            _ => false,
        }
    }
}

/// Whether two states are the same variant with paths of the same components.
pub open spec fn same_state(a: FileStateModel, b: FileStateModel) -> bool {
    match (a, b) {
        (FileStateModel::Unchanged(p), FileStateModel::Unchanged(q)) => path_components(p)
            == path_components(q),
        (FileStateModel::Modified(p), FileStateModel::Modified(q)) => path_components(p)
            == path_components(q),
        (FileStateModel::New(p), FileStateModel::New(q)) => path_components(p) == path_components(
            q,
        ),
        _ => false,
    }
}

impl PartialEqSpecImpl for FileState {
    open spec fn obeys_eq_spec() -> bool {
        true
    }

    open spec fn eq_spec(&self, other: &FileState) -> bool {
        same_state(self@, other@)
    }
}

/// The record that the cache keeps for a file path: its modification time and
/// size when it was last seen, the digest of its contents, and its image.
#[derive(Debug)]
pub struct CacheEntry {
    pub mtime: u64,
    pub size: u64,
    pub hash: [u8; 32],
    pub img_path: String,
}

/// A `CacheEntry` with its digest and path as sequences.
pub struct EntryModel {
    pub mtime: u64,
    pub size: u64,
    pub hash: Seq<u8>,
    pub img_path: Seq<char>,
}

impl DeepView for CacheEntry {
    type V = EntryModel;

    open spec fn deep_view(&self) -> EntryModel {
        EntryModel { mtime: self.mtime, size: self.size, hash: self.hash@, img_path: self.img_path@ }
    }
}

impl CacheEntry {
    /// The record written for a file: what a later check compares against.
    pub fn new(mtime: u64, size: u64, hash: [u8; 32], img_path: String) -> (entry: CacheEntry)
        ensures
            entry.deep_view() == (EntryModel { mtime, size, hash: hash@, img_path: img_path@ }),
    {
        CacheEntry { mtime, size, hash, img_path }
    }
}

/// What a check reports: the file's state, the digest that goes with it, and
/// the modification time and size that were observed.
pub type CheckModel = (FileStateModel, Seq<u8>, u64, u64);

/// `base` joined with a relative `name`, with one `/` between them unless
/// `base` is empty or already ends in one.
pub open spec fn path_join(base: Seq<char>, name: Seq<char>) -> Seq<char> {
    if base.len() == 0 || base.last() == '/' {
        base + name
    } else {
        base + seq!['/'] + name
    }
}

/// A path as its components on Unix: whether it starts at the root, whether it
/// starts with `.` (the current directory), and its other parts in order.
/// Repeated separators, a trailing separator and `.` parts after the first
/// leave no part.
pub struct PathComponents {
    pub has_root: bool,
    pub cur_dir: bool,
    pub parts: Seq<Seq<char>>,
}

/// Whether a piece between separators is a part of its own: not empty and not
/// `.`.
pub open spec fn kept_part(piece: Seq<char>) -> bool {
    piece.len() > 0 && piece != seq!['.']
}

/// The parts completed so far in a prefix of a path, and the piece after the
/// last separator.
pub open spec fn parts_scan(s: Seq<char>) -> (Seq<Seq<char>>, Seq<char>)
    decreases s.len(),
{
    if s.len() == 0 {
        (Seq::empty(), Seq::empty())
    } else {
        let (done, piece) = parts_scan(s.drop_last());
        if s.last() == '/' {
            (if kept_part(piece) { done.push(piece) } else { done }, Seq::empty())
        } else {
            (done, piece.push(s.last()))
        }
    }
}

/// The parts of a path, in order.
pub open spec fn normal_parts(s: Seq<char>) -> Seq<Seq<char>> {
    let (done, piece) = parts_scan(s);
    if kept_part(piece) {
        done.push(piece)
    } else {
        done
    }
}

/// The components of a path.
pub open spec fn path_components(s: Seq<char>) -> PathComponents {
    let has_root = s.len() > 0 && s[0] == '/';
    PathComponents {
        has_root,
        cur_dir: !has_root && (s == seq!['.'] || (s.len() >= 2 && s[0] == '.' && s[1] == '/')),
        parts: normal_parts(s),
    }
}

pub open spec fn piece_views(v: Seq<Vec<char>>) -> Seq<Seq<char>> {
    v.map_values(|piece: Vec<char>| piece@)
}

fn is_kept_part(piece: &Vec<char>) -> (kept: bool)
    ensures
        kept == kept_part(piece@),
{
    if piece.len() == 1 && piece[0] == '.' {
        assert(piece@ =~= seq!['.']);
        false
    } else {
        piece.len() > 0
    }
}

fn path_parts(s: &str) -> (parts: Vec<Vec<char>>)
    ensures
        piece_views(parts@) == normal_parts(s@),
{
    let n = s.unicode_len();
    let mut done: Vec<Vec<char>> = Vec::new();
    let mut piece: Vec<char> = Vec::new();
    let mut i: usize = 0;
    assert(s@.subrange(0, 0) =~= Seq::<char>::empty());
    assert(piece_views(done@) =~= Seq::<Seq<char>>::empty());
    while i < n
        invariant
            n == s@.len(),
            i <= n,
            piece_views(done@) == parts_scan(s@.subrange(0, i as int)).0,
            piece@ == parts_scan(s@.subrange(0, i as int)).1,
        decreases n - i,
    {
        let c = s.get_char(i);
        proof {
            let pre = s@.subrange(0, i as int);
            let next = s@.subrange(0, i + 1);
            assert(next.drop_last() =~= pre);
            assert(next.last() == c);
        }
        if c == '/' {
            if is_kept_part(&piece) {
                let ghost before = done@;
                done.push(piece);
                proof {
                    assert(piece_views(done@) =~= piece_views(before).push(done@.last()@));
                }
            }
            piece = Vec::new();
        } else {
            piece.push(c);
        }
        i = i + 1;
    }
    assert(s@.subrange(0, n as int) =~= s@);
    if is_kept_part(&piece) {
        let ghost before = done@;
        done.push(piece);
        proof {
            assert(piece_views(done@) =~= piece_views(before).push(done@.last()@));
        }
    }
    done
}

fn same_chars(a: &Vec<char>, b: &Vec<char>) -> (same: bool)
    ensures
        same == (a@ == b@),
{
    if a.len() != b.len() {
        return false;
    }
    let mut i: usize = 0;
    while i < a.len()
        invariant
            a@.len() == b@.len(),
            i <= a@.len(),
            forall|k: int| 0 <= k < i ==> a@[k] == b@[k],
        decreases a@.len() - i,
    {
        if a[i] != b[i] {
            return false;
        }
        i = i + 1;
    }
    assert(a@ =~= b@);
    true
}

fn same_parts(a: &Vec<Vec<char>>, b: &Vec<Vec<char>>) -> (same: bool)
    ensures
        same == (piece_views(a@) == piece_views(b@)),
{
    if a.len() != b.len() {
        assert(piece_views(a@).len() != piece_views(b@).len());
        return false;
    }
    let mut i: usize = 0;
    while i < a.len()
        invariant
            a@.len() == b@.len(),
            i <= a@.len(),
            forall|k: int| 0 <= k < i ==> a@[k]@ == b@[k]@,
        decreases a@.len() - i,
    {
        if !same_chars(&a[i], &b[i]) {
            assert(piece_views(a@)[i as int] != piece_views(b@)[i as int]);
            return false;
        }
        i = i + 1;
    }
    assert(piece_views(a@) =~= piece_views(b@));
    true
}

fn starts_at_root(s: &str) -> (root: bool)
    ensures
        root == path_components(s@).has_root,
{
    s.unicode_len() > 0 && s.get_char(0) == '/'
}

fn starts_at_current_dir(s: &str) -> (cur: bool)
    ensures
        cur == path_components(s@).cur_dir,
{
    let n = s.unicode_len();
    if n == 0 || s.get_char(0) != '.' {
        return false;
    }
    if n == 1 {
        assert(s@ =~= seq!['.']);
        return true;
    }
    let second_is_separator = s.get_char(1) == '/';
    if !second_is_separator {
        assert(s@ != seq!['.']);
    }
    second_is_separator
}

/// Whether two paths have the same components, as paths compare on Unix:
/// `a//b`, `a/./b` and `a/b/` are all `a/b`, while `./a` and `a` differ.
pub fn same_path(a: &str, b: &str) -> (same: bool)
    ensures
        same == (path_components(a@) == path_components(b@)),
{
    let roots = starts_at_root(a) == starts_at_root(b);
    let curs = starts_at_current_dir(a) == starts_at_current_dir(b);
    if !roots || !curs {
        return false;
    }
    let pa = path_parts(a);
    let pb = path_parts(b);
    let parts = same_parts(&pa, &pb);
    proof {
        if parts {
            assert(path_components(a@).parts =~= path_components(b@).parts);
        }
    }
    parts
}

/// The file name of the image made for contents with a given digest.
pub open spec fn image_file_name(hash: Seq<u8>) -> Seq<char> {
    hex_lower(hash) + seq!['.', 'p', 'n', 'g']
}

/// Where the image for contents with a given digest is kept.
pub open spec fn image_path_spec(cache_dir: Seq<char>, hash: Seq<u8>) -> Seq<char> {
    path_join(cache_dir, image_file_name(hash))
}

/// The answer that the recorded metadata alone gives: `Some` when the file's
/// modification time and size are those recorded, `None` when its contents
/// must be hashed.
pub open spec fn lookup_spec(cached: Option<EntryModel>, mtime: u64, size: u64) -> Option<
    CheckModel,
> {
    match cached {
        Some(c) => if c.mtime == mtime && c.size == size {
            Some((FileStateModel::Unchanged(c.img_path), c.hash, mtime, size))
        } else {
            None
        },
        None => None,
    }
}

/// The answer once the contents' digest is known.
pub open spec fn classify_spec(
    cached: Option<EntryModel>,
    digest: Seq<u8>,
    mtime: u64,
    size: u64,
    cache_dir: Seq<char>,
) -> CheckModel {
    let path = image_path_spec(cache_dir, digest);
    let state = match cached {
        Some(c) => if c.hash != digest {
            FileStateModel::Modified(path)
        } else {
            FileStateModel::Unchanged(path)
        },
        None => FileStateModel::New(path),
    };
    (state, digest, mtime, size)
}

/// A whole check of a file: the recorded metadata decides when it matches,
/// else the digest of the file's current contents does.
pub open spec fn check_spec(
    cached: Option<EntryModel>,
    mtime: u64,
    size: u64,
    cache_dir: Seq<char>,
    digest: Seq<u8>,
) -> CheckModel {
    match lookup_spec(cached, mtime, size) {
        Some(r) => r,
        None => classify_spec(cached, digest, mtime, size, cache_dir),
    }
}

/// The record that the cache holds after a check's result is written back.
pub open spec fn record_of(r: CheckModel) -> EntryModel {
    EntryModel { mtime: r.2, size: r.3, hash: r.1, img_path: r.0.image_path() }
}

pub open spec fn check_view(r: (FileState, [u8; 32], u64, u64)) -> CheckModel {
    (r.0@, r.1@, r.2, r.3)
}

fn digests_equal(a: &[u8; 32], b: &[u8; 32]) -> (same: bool)
    ensures
        same == (a@ == b@),
{
    let mut i: usize = 0;
    while i < 32
        invariant
            i <= 32,
            a@.len() == 32,
            b@.len() == 32,
            forall|k: int| 0 <= k < i ==> a@[k] == b@[k],
        decreases 32 - i,
    {
        if a[i] != b[i] {
            return false;
        }
        i = i + 1;
    }
    assert(a@ =~= b@);
    true
}

/// `base` joined with the relative file name `name`, as a path buffer joins
/// them on Unix.
pub fn join_path(base: &str, name: &str) -> (joined: String)
    ensures
        joined@ == path_join(base@, name@),
{
    let mut joined = String::from_str(base);
    let n = base.unicode_len();
    if n > 0 && base.get_char(n - 1) != '/' {
        joined.append("/");
        proof {
            reveal_strlit("/");
        }
    }
    joined.append(name);
    proof {
        if base@.len() > 0 {
            assert(base@.last() == base@[n - 1]);
        }
    }
    joined
}

/// Where the image for contents with the given digest is kept under
/// `cache_dir`: the digest in lowercase hexadecimal, then `.png`.
pub fn image_path_for(cache_dir: &str, hash: &[u8; 32]) -> (path: String)
    ensures
        path@ == image_path_spec(cache_dir@, hash@),
        path@ == path_join(cache_dir@, hex_lower(hash@) + seq!['.', 'p', 'n', 'g']),
{
    let mut name = hash_hex(hash);
    name.append(".png");
    proof {
        reveal_strlit(".png");
        assert(name@ =~= image_file_name(hash@));
    }
    join_path(cache_dir, name.as_str())
}

/// Compares a file's modification time and size with its cache entry. When
/// both are the recorded ones the file counts as unchanged, with the recorded
/// image and digest, and need not be read; `None` means that its contents
/// must be hashed.
pub fn lookup_cached(cached: &Option<CacheEntry>, mtime: u64, size: u64) -> (found: Option<
    (FileState, [u8; 32], u64, u64),
>)
    ensures
        match found {
            Some(r) => lookup_spec(cached.deep_view(), mtime, size) == Some(check_view(r)),
            None => lookup_spec(cached.deep_view(), mtime, size) is None,
        },
{
    match cached {
        Some(c) => {
            if c.mtime == mtime && c.size == size {
                Some((FileState::Unchanged(c.img_path.clone()), c.hash, mtime, size))
            } else {
                None
            }
        },
        None => None,
    }
}

/// Classifies a file from the digest of its current contents: new when it has
/// no entry, modified when the digest differs from the recorded one, else
/// unchanged. The image path always follows from the new digest.
pub fn classify_hashed(
    cached: &Option<CacheEntry>,
    digest: [u8; 32],
    mtime: u64,
    size: u64,
    cache_dir: &str,
) -> (r: (FileState, [u8; 32], u64, u64))
    ensures
        check_view(r) == classify_spec(cached.deep_view(), digest@, mtime, size, cache_dir@),
        r.1 == digest,
        r.2 == mtime,
        r.3 == size,
        r.0@.image_path() == path_join(
            cache_dir@,
            hex_lower(digest@) + seq!['.', 'p', 'n', 'g'],
        ),
{
    let path = image_path_for(cache_dir, &digest);
    let state = match cached {
        Some(c) => {
            if !digests_equal(&digest, &c.hash) {
                FileState::Modified(path)
            } else {
                FileState::Unchanged(path)
            }
        },
        None => FileState::New(path),
    };
    (state, digest, mtime, size)
}

/// A freshly written record is found again: checking a file whose modification
/// time and size are the recorded ones reports it unchanged, with the recorded
/// image and digest.
pub proof fn lemma_written_record_is_found(
    mtime: u64,
    size: u64,
    hash: Seq<u8>,
    img_path: Seq<char>,
    cache_dir: Seq<char>,
    digest: Seq<u8>,
)
    ensures
        check_spec(Some(EntryModel { mtime, size, hash, img_path }), mtime, size, cache_dir, digest)
            == (FileStateModel::Unchanged(img_path), hash, mtime, size),
{
}

/// Writing back what a check reports settles the cache: the next check with the
/// same modification time and size reports the file unchanged, with the same
/// image and digest, whatever its contents hash to.
pub proof fn lemma_check_then_record_settles(
    cached: Option<EntryModel>,
    mtime: u64,
    size: u64,
    cache_dir: Seq<char>,
    digest: Seq<u8>,
    later_digest: Seq<u8>,
)
    ensures
        ({
            let r = check_spec(cached, mtime, size, cache_dir, digest);
            check_spec(Some(record_of(r)), mtime, size, cache_dir, later_digest) == (
                FileStateModel::Unchanged(r.0.image_path()),
                r.1,
                mtime,
                size,
            )
        }),
{
}

/// A file is reported modified exactly when it has an entry, its metadata
/// differs from the recorded one, and its contents hash to another digest; it
/// is new exactly when it has no entry.
pub proof fn lemma_check_states(
    cached: Option<EntryModel>,
    mtime: u64,
    size: u64,
    cache_dir: Seq<char>,
    digest: Seq<u8>,
)
    ensures
        ({
            let r = check_spec(cached, mtime, size, cache_dir, digest);
            &&& (r.0 is Modified) <==> (cached is Some && !(cached->0.mtime == mtime
                && cached->0.size == size) && cached->0.hash != digest)
            &&& (r.0 is New) <==> cached is None
            &&& (r.0 is Unchanged) <==> (cached is Some && ((cached->0.mtime == mtime
                && cached->0.size == size) || cached->0.hash == digest))
        }),
{
}

/// Different digests get different image paths under the same directory, so
/// an image is never shared by two contents.
pub proof fn lemma_image_path_injective(cache_dir: Seq<char>, a: Seq<u8>, b: Seq<u8>)
    requires
        image_path_spec(cache_dir, a) == image_path_spec(cache_dir, b),
    ensures
        a == b,
{
    let na = image_file_name(a);
    let nb = image_file_name(b);
    let prefix = if cache_dir.len() == 0 || cache_dir.last() == '/' {
        cache_dir
    } else {
        cache_dir + seq!['/']
    };
    assert(image_path_spec(cache_dir, a) == prefix + na);
    assert(image_path_spec(cache_dir, b) == prefix + nb);
    assert(na =~= (prefix + na).subrange(prefix.len() as int, (prefix + na).len() as int));
    assert(nb =~= (prefix + nb).subrange(prefix.len() as int, (prefix + nb).len() as int));
    assert(na == nb);
    let ha = hex_lower(a);
    let hb = hex_lower(b);
    assert(ha =~= na.subrange(0, na.len() - 4));
    assert(hb =~= nb.subrange(0, nb.len() - 4));
    lemma_hex_lower_injective(a, b);
}


/// Once the metadata no longer matches the record, a check reports the digest
/// it was given (that of the file's current contents) with the observed
/// modification time and size, and names the image after that digest: its
/// lowercase hexadecimal text followed by `.png`, under the cache directory.
pub proof fn lemma_hashed_check_reports_its_digest(
    cached: Option<EntryModel>,
    mtime: u64,
    size: u64,
    cache_dir: Seq<char>,
    digest: Seq<u8>,
)
    requires
        !(cached matches Some(c) && c.mtime == mtime && c.size == size),
    ensures
        ({
            let r = check_spec(cached, mtime, size, cache_dir, digest);
            &&& r.1 == digest
            &&& r.2 == mtime
            &&& r.3 == size
            &&& r.0.image_path() == path_join(cache_dir, hex_lower(digest) + seq!['.', 'p', 'n', 'g'])
        }),
{
}

/// The image's file name begins with the digest's hexadecimal text, two
/// lowercase digits per byte with the high nibble first, and ends in `.png`.
pub proof fn lemma_image_name_spells_the_digest(hash: Seq<u8>)
    ensures
        image_file_name(hash).len() == 2 * hash.len() + 4,
        image_file_name(hash).subrange(0, 2 * hash.len() as int) == hex_lower(hash),
        image_file_name(hash).subrange(2 * hash.len() as int, (2 * hash.len() + 4) as int) == seq![
            '.',
            'p',
            'n',
            'g',
        ],
        forall|k: int|
            0 <= k < hash.len() ==> 16 * hex_digit_value(#[trigger] image_file_name(hash)[2 * k])
                + hex_digit_value(image_file_name(hash)[2 * k + 1]) == hash[k] as int,
{
    let name = image_file_name(hash);
    assert(name.subrange(0, 2 * hash.len() as int) =~= hex_lower(hash));
    assert(name.subrange(2 * hash.len() as int, (2 * hash.len() + 4) as int) =~= seq!['.', 'p', 'n', 'g']);
    assert forall|k: int| 0 <= k < hash.len() implies 16 * hex_digit_value(
        #[trigger] name[2 * k],
    ) + hex_digit_value(name[2 * k + 1]) == hash[k] as int by {
        lemma_hex_lower_decodes(hash, k);
        assert(name[2 * k] == hex_lower(hash)[2 * k]);
        assert(name[2 * k + 1] == hex_lower(hash)[2 * k + 1]);
    }
}

/// A piece without separators is one part of its own, unless it is empty or
/// `.`.
pub proof fn lemma_parts_of_one_piece(s: Seq<char>)
    requires
        forall|i: int| 0 <= i < s.len() ==> s[i] != '/',
    ensures
        path_components(s).parts == (if s.len() > 0 && s != seq!['.'] {
            seq![s]
        } else {
            Seq::<Seq<char>>::empty()
        }),
{
    lemma_scan_without_separator(s);
}

/// Joining two paths with a separator joins their parts: the parts of `s/t`
/// are those of `s` followed by those of `t`.
pub proof fn lemma_parts_of_joined_paths(s: Seq<char>, t: Seq<char>)
    ensures
        path_components(s + seq!['/'] + t).parts == path_components(s).parts + path_components(
            t,
        ).parts,
{
    lemma_scan_after_separator(s, t);
    let (dt, pt) = parts_scan(t);
    if kept_part(pt) {
        assert(normal_parts(s) + dt.push(pt) =~= (normal_parts(s) + dt).push(pt));
    } else {
        assert(normal_parts(s) + dt =~= normal_parts(s) + dt);
    }
}

/// A path starts at the root exactly when its first character is a separator.
pub proof fn lemma_root_is_leading_separator(s: Seq<char>)
    ensures
        path_components(s).has_root == (s.len() > 0 && s[0] == '/'),
        path_components(seq!['/'] + s).has_root,
{
}

/// The flags of a path come from its first piece (what precedes the first
/// separator): the path starts at the root exactly when that piece is empty
/// and the path has a separator, and at the current directory exactly when
/// that piece is `.`.
pub proof fn lemma_flags_from_first_piece(first: Seq<char>, rest: Seq<char>)
    requires
        forall|i: int| 0 <= i < first.len() ==> first[i] != '/',
    ensures
        path_components(first + seq!['/'] + rest).has_root == (first.len() == 0),
        path_components(first + seq!['/'] + rest).cur_dir == (first == seq!['.']),
        !path_components(first).has_root,
        path_components(first).cur_dir == (first == seq!['.']),
{
    let s = first + seq!['/'] + rest;
    if first.len() == 0 {
        assert(s[0] == '/');
    } else {
        assert(s[0] == first[0]);
        assert(s.len() >= 2);
        if first.len() == 1 {
            assert(s[1] == '/');
            if first[0] == '.' {
                assert(first =~= seq!['.']);
            }
        } else {
            assert(s[1] == first[1]);
            assert(first.len() != 1);
        }
        assert(s != seq!['.']);
    }
    if first.len() >= 2 {
        assert(first[1] != '/');
        assert(first.len() != seq!['.'].len());
    }
}

proof fn lemma_scan_without_separator(s: Seq<char>)
    requires
        forall|i: int| 0 <= i < s.len() ==> s[i] != '/',
    ensures
        parts_scan(s) == (Seq::<Seq<char>>::empty(), s),
    decreases s.len(),
{
    if s.len() > 0 {
        lemma_scan_without_separator(s.drop_last());
        assert(s.drop_last().push(s.last()) =~= s);
    } else {
        assert(s =~= Seq::<char>::empty());
    }
}

proof fn lemma_scan_after_separator(s: Seq<char>, t: Seq<char>)
    ensures
        parts_scan(s + seq!['/'] + t) == (normal_parts(s) + parts_scan(t).0, parts_scan(t).1),
    decreases t.len(),
{
    let u = s + seq!['/'] + t;
    if t.len() == 0 {
        assert(u.drop_last() =~= s);
        assert(u.last() == '/');
        assert(normal_parts(s) + Seq::<Seq<char>>::empty() =~= normal_parts(s));
    } else {
        let t0 = t.drop_last();
        lemma_scan_after_separator(s, t0);
        assert(u.drop_last() =~= s + seq!['/'] + t0);
        assert(u.last() == t.last());
        let (d0, p0) = parts_scan(t0);
        if t.last() == '/' {
            if kept_part(p0) {
                assert((normal_parts(s) + d0).push(p0) =~= normal_parts(s) + d0.push(p0));
            }
        }
    }
}

} // verus!
