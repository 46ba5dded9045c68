//! The content hasher: what the digest is fed for a filesystem entry.
//!
//! The digest input of an entry is its path, permission bits, owner and group,
//! each closed by a zero byte, followed by the target of a symlink or the
//! bytes of a file. Timestamps are no part of it.

use vstd::prelude::*;
use vstd::slice::slice_subrange;
use crate::copy::{effective, effective_id};
use crate::error::{ErrorKind, IoError, IoErrorView};
use crate::ops::{FileType, Stat};

verus! {

/// What an entry holds besides its metadata.
#[derive(Debug, PartialEq, Eq)]
pub enum Content {
    /// A directory: nothing.
    Directory,
    /// A symlink: the bytes of its target.
    Symlink(Vec<u8>),
    /// A regular file: its bytes.
    File(Vec<u8>),
    /// Any other kind of entry: nothing.
    Other,
}

/// Mathematical model of [`Content`].
pub ghost enum ContentView {
    Directory,
    Symlink(Seq<u8>),
    File(Seq<u8>),
    Other,
}

impl View for Content {
    type V = ContentView;

    open spec fn view(&self) -> ContentView {
        match self {
            Content::Directory => ContentView::Directory,
            Content::Symlink(t) => ContentView::Symlink(t@),
            Content::File(d) => ContentView::File(d@),
            Content::Other => ContentView::Other,
        }
    }
}

/// A filesystem entry as the hasher sees it, read without following a final
/// symlink.
#[derive(Debug, PartialEq, Eq)]
pub struct FileEntry {
    /// The bytes of the path.
    pub path: Vec<u8>,
    /// The whole mode word as the system reports it: the permission bits
    /// together with the bits that tell the kind of entry. All of it goes
    /// into the digest, so that the digest tells a file from a directory
    /// with the same permission bits.
    pub mode: u32,
    /// The owning user.
    pub uid: u32,
    /// The owning group.
    pub gid: u32,
    /// The target or the bytes, by the kind of entry.
    pub content: Content,
}

/// Mathematical model of [`FileEntry`].
pub ghost struct FileEntryView {
    pub path: Seq<u8>,
    pub mode: u32,
    pub uid: u32,
    pub gid: u32,
    pub content: ContentView,
}

impl View for FileEntry {
    type V = FileEntryView;

    open spec fn view(&self) -> FileEntryView {
        FileEntryView {
            path: self.path@,
            mode: self.mode,
            uid: self.uid,
            gid: self.gid,
            content: self.content@,
        }
    }
}

/// The ASCII digit for a value below ten.
pub open spec fn digit(d: nat) -> u8 {
    (48 + d % 10) as u8
}

/// The octal digits of `n`, most significant first, without leading zeros;
/// zero is one digit.
pub open spec fn octal(n: nat) -> Seq<u8>
    decreases n,
{
    if n < 8 {
        seq![digit(n)]
    } else {
        octal(n / 8).push(digit(n % 8))
    }
}

/// The decimal digits of `n`, most significant first, without leading zeros;
/// zero is one digit.
pub open spec fn decimal(n: nat) -> Seq<u8>
    decreases n,
{
    if n < 10 {
        seq![digit(n)]
    } else {
        decimal(n / 10).push(digit(n % 10))
    }
}

/// The bytes of `mode:`.
pub open spec fn mode_tag() -> Seq<u8> {
    seq![109u8, 111u8, 100u8, 101u8, 58u8]
}

/// The bytes of `uid:`.
pub open spec fn uid_tag() -> Seq<u8> {
    seq![117u8, 105u8, 100u8, 58u8]
}

/// The bytes of `gid:`.
pub open spec fn gid_tag() -> Seq<u8> {
    seq![103u8, 105u8, 100u8, 58u8]
}

/// The metadata part of the digest input: the path, the mode in octal, the
/// owner and the group in decimal, each closed by a zero byte.
pub open spec fn header(path: Seq<u8>, mode: u32, uid: u32, gid: u32) -> Seq<u8> {
    path + seq![0u8] + mode_tag() + octal(mode as nat) + seq![0u8] + uid_tag() + decimal(
        uid as nat,
    ) + seq![0u8] + gid_tag() + decimal(gid as nat) + seq![0u8]
}

/// The content part of the digest input: the target of a symlink, the bytes
/// of a file, nothing for the rest.
pub open spec fn payload(content: ContentView) -> Seq<u8> {
    match content {
        ContentView::Symlink(t) => t,
        ContentView::File(d) => d,
        _ => Seq::empty(),
    }
}

/// Everything the digest is fed for an entry. An override takes the place of
/// the owner or group that the entry has.
pub open spec fn digest_input(entry: FileEntryView, owner_uid: Option<u32>, owner_gid: Option<u32>)
    -> Seq<u8> {
    header(
        entry.path,
        entry.mode,
        effective_id(owner_uid, entry.uid),
        effective_id(owner_gid, entry.gid),
    ) + payload(entry.content)
}

/// Appends the octal digits of `n`.
fn push_octal(buf: &mut Vec<u8>, n: u32)
    ensures
        final(buf)@ == old(buf)@ + octal(n as nat),
    decreases n,
{
    if n >= 8 {
        push_octal(buf, n / 8);
    }
    let d: u8 = (n % 8) as u8;
    buf.push(48u8 + d);
    proof {
        if n >= 8 {
            assert(buf@ =~= old(buf)@ + octal((n / 8) as nat).push(digit((n % 8) as nat)));
        } else {
            assert(buf@ =~= old(buf)@ + seq![digit(n as nat)]);
        }
    }
}

/// Appends the decimal digits of `n`.
fn push_decimal(buf: &mut Vec<u8>, n: u32)
    ensures
        final(buf)@ == old(buf)@ + decimal(n as nat),
    decreases n,
{
    if n >= 10 {
        push_decimal(buf, n / 10);
    }
    let d: u8 = (n % 10) as u8;
    buf.push(48u8 + d);
    proof {
        if n >= 10 {
            assert(buf@ =~= old(buf)@ + decimal((n / 10) as nat).push(digit((n % 10) as nat)));
        } else {
            assert(buf@ =~= old(buf)@ + seq![digit(n as nat)]);
        }
    }
}

/// Appends a zero byte and a tag.
fn push_tag(buf: &mut Vec<u8>, tag: &[u8])
    ensures
        final(buf)@ == old(buf)@ + seq![0u8] + tag@,
{
    buf.push(0u8);
    let mut i: usize = 0;
    while i < tag.len()
        invariant
            i <= tag.len(),
            buf@ == old(buf)@ + seq![0u8] + tag@.take(i as int),
        decreases tag.len() - i,
    {
        buf.push(tag[i]);
        assert(buf@ =~= old(buf)@ + seq![0u8] + tag@.take(i + 1));
        i += 1;
    }
    assert(tag@.take(tag.len() as int) =~= tag@);
}

/// The metadata part of the digest input for a path, a mode word, an owner
/// and a group.
pub fn header_bytes(path: &Vec<u8>, mode: u32, uid: u32, gid: u32) -> (buf: Vec<u8>)
    ensures
        buf@ == header(path@, mode, uid, gid),
{
    let mut buf: Vec<u8> = Vec::new();
    let mut i: usize = 0;
    while i < path.len()
        invariant
            i <= path.len(),
            buf@ == path@.take(i as int),
        decreases path.len() - i,
    {
        buf.push(path[i]);
        assert(buf@ =~= path@.take(i + 1));
        i += 1;
    }
    assert(path@.take(path.len() as int) =~= path@);
    let mode_tag: [u8; 5] = [109u8, 111u8, 100u8, 101u8, 58u8];
    let uid_tag: [u8; 4] = [117u8, 105u8, 100u8, 58u8];
    let gid_tag: [u8; 4] = [103u8, 105u8, 100u8, 58u8];
    assert(mode_tag@ =~= self::mode_tag());
    assert(uid_tag@ =~= self::uid_tag());
    assert(gid_tag@ =~= self::gid_tag());
    push_tag(&mut buf, mode_tag.as_slice());
    push_octal(&mut buf, mode);
    push_tag(&mut buf, uid_tag.as_slice());
    push_decimal(&mut buf, uid);
    push_tag(&mut buf, gid_tag.as_slice());
    push_decimal(&mut buf, gid);
    buf.push(0u8);
    assert(buf@ =~= header(path@, mode, uid, gid));
    buf
}

/// The metadata part of the digest input of `entry` with the owner `uid` and
/// the group `gid`.
pub fn entry_header(entry: &FileEntry, uid: u32, gid: u32) -> (buf: Vec<u8>)
    ensures
        buf@ == header(entry.path@, entry.mode, uid, gid),
{
    header_bytes(&entry.path, entry.mode, uid, gid)
}

#[verifier::external_type_specification]
#[verifier::external_body]
pub struct ExSha256(shaman::sha2::Sha256);

/// The bytes that a SHA-256 digest of `shaman` has been fed since it was made.
pub uninterp spec fn sha256_fed(dig: shaman::sha2::Sha256) -> Seq<u8>;

/// Whether the result of a SHA-256 digest of `shaman` has been taken, after
/// which it accepts no more input.
pub uninterp spec fn sha256_finished(dig: shaman::sha2::Sha256) -> bool;

/// The SHA-256 digest of `data` in lower-case hexadecimal, as `shaman`
/// computes it.
pub uninterp spec fn sha256_hex(data: Seq<u8>) -> Seq<char>;

/// The number of bytes that a digest cannot reach: `shaman` counts the input
/// in bits in 64 bits and panics beyond.
pub const HASH_LIMIT: u64 = 0x2000_0000_0000_0000;

/// The size of the pieces in which content is fed to the digest.
pub const HASH_CHUNK_SIZE: usize = 8192;

/// Calls `shaman::sha2::Sha256::new`: a digest that has been fed nothing and
/// is not finished.
#[verifier::external_body]
fn sha256_new() -> (dig: shaman::sha2::Sha256)
    ensures
        sha256_fed(dig) == Seq::<u8>::empty(),
        !sha256_finished(dig),
{
    shaman::sha2::Sha256::new()
}

/// Calls `shaman::digest::Digest::input` on a SHA-256 digest, which panics on
/// a finished digest and where the count of bits overflows: the bytes are
/// added to what the digest has been fed.
#[verifier::external_body]
fn sha256_input(dig: &mut shaman::sha2::Sha256, data: &[u8])
    requires
        !sha256_finished(*old(dig)),
        sha256_fed(*old(dig)).len() + data@.len() < HASH_LIMIT,
    ensures
        sha256_fed(*final(dig)) == sha256_fed(*old(dig)) + data@,
        !sha256_finished(*final(dig)),
{
    shaman::digest::Digest::input(dig, data)
}

/// Calls `shaman::digest::Digest::result_str` on a SHA-256 digest: the result
/// is named by [`sha256_hex`], of what the digest has been fed.
#[verifier::external_body]
fn sha256_result_str(dig: &mut shaman::sha2::Sha256) -> (hex: String)
    ensures
        hex@ == sha256_hex(sha256_fed(*old(dig))),
{
    shaman::digest::Digest::result_str(dig)
}

/// A running SHA-256 digest that knows how much it has been fed.
pub struct Hasher {
    dig: shaman::sha2::Sha256,
    len: u64,
}

impl View for Hasher {
    type V = Seq<u8>;

    /// The bytes fed so far.
    closed spec fn view(&self) -> Seq<u8> {
        sha256_fed(self.dig)
    }
}

impl Hasher {
    /// The digest accepts input, and its count of bytes is right and below
    /// [`HASH_LIMIT`].
    pub closed spec fn wf(&self) -> bool {
        &&& !sha256_finished(self.dig)
        &&& self.len as nat == sha256_fed(self.dig).len()
        &&& self.len < HASH_LIMIT
    }

    /// A digest that has been fed nothing.
    pub fn new() -> (h: Hasher)
        ensures
            h.wf(),
            h@ == Seq::<u8>::empty(),
    {
        Hasher { dig: sha256_new(), len: 0 }
    }

    /// The number of bytes fed so far.
    pub fn len(&self) -> (n: u64)
        requires
            self.wf(),
        ensures
            n as nat == self@.len(),
            n < HASH_LIMIT,
    {
        self.len
    }

    /// Feeds `data`, which must fit.
    fn feed(&mut self, data: &[u8])
        requires
            old(self).wf(),
            old(self)@.len() + data@.len() < HASH_LIMIT,
        ensures
            final(self).wf(),
            final(self)@ == old(self)@ + data@,
    {
        sha256_input(&mut self.dig, data);
        self.len = self.len + data.len() as u64;
    }

    /// Whether `more` bytes still fit.
    fn fits(&self, more: usize) -> (r: bool)
        requires
            self.wf(),
        ensures
            r == (self@.len() + more < HASH_LIMIT),
    {
        (more as u64) < HASH_LIMIT - self.len
    }

    /// Feeds `data` to the digest, if that keeps its input below
    /// [`HASH_LIMIT`]; says whether it did.
    pub fn input(&mut self, data: &[u8]) -> (fed: bool)
        requires
            old(self).wf(),
        ensures
            final(self).wf(),
            fed == (old(self)@.len() + data@.len() < HASH_LIMIT),
            fed ==> final(self)@ == old(self)@ + data@,
            !fed ==> final(self)@ == old(self)@,
    {
        if self.fits(data.len()) {
            self.feed(data);
            true
        } else {
            false
        }
    }

    /// Ends the digest: the SHA-256 of what was fed, in hexadecimal.
    pub fn result_str(self) -> (hex: String)
        requires
            self.wf(),
        ensures
            hex@ == sha256_hex(self@),
    {
        let mut dig = self.dig;
        sha256_result_str(&mut dig)
    }
}

/// Whether a digest that has been fed `before` can take `input`: the sum
/// stays below [`HASH_LIMIT`].
pub open spec fn has_room(before: Seq<u8>, input: Seq<u8>) -> bool {
    before.len() + input.len() < HASH_LIMIT
}

/// The failure of [`hash_file`] for an entry that the digest cannot take.
pub open spec fn too_large() -> IoErrorView {
    IoErrorView { kind: ErrorKind::InvalidInput, message: "entry is too large to hash"@ }
}

/// Feeds the digest what stands for `entry`: its path, its permission bits,
/// its owner and group, where `owner_uid` and `owner_gid` take the place of
/// those that the entry has, and then the target of a symlink or the bytes of
/// a file, in pieces of [`HASH_CHUNK_SIZE`] bytes.
///
/// Fails, with the digest unchanged, only where its input would reach
/// [`HASH_LIMIT`].
pub fn hash_file(
    entry: &FileEntry,
    dig: &mut Hasher,
    owner_uid: Option<u32>,
    owner_gid: Option<u32>,
) -> (r: Result<(), IoError>)
    requires
        old(dig).wf(),
    ensures
        final(dig).wf(),
        r is Ok <==> has_room(old(dig)@, digest_input(entry@, owner_uid, owner_gid)),
        r is Ok ==> final(dig)@ == old(dig)@ + digest_input(entry@, owner_uid, owner_gid),
        r matches Err(e) ==> final(dig)@ == old(dig)@ && e@ == too_large(),
{
    let head = entry_header(
        entry,
        effective(owner_uid, entry.uid),
        effective(owner_gid, entry.gid),
    );
    let none: Vec<u8> = Vec::new();
    let body: &[u8] = match &entry.content {
        Content::Symlink(t) => t.as_slice(),
        Content::File(d) => d.as_slice(),
        _ => none.as_slice(),
    };
    assert(body@ == payload(entry.content@));
    let ghost input = digest_input(entry@, owner_uid, owner_gid);
    assert(input == head@ + body@);
    if !dig.fits(head.len()) {
        return Err(IoError::new(ErrorKind::InvalidInput, "entry is too large to hash"));
    }
    let room: u64 = HASH_LIMIT - dig.len() - head.len() as u64;
    if body.len() as u64 >= room {
        return Err(IoError::new(ErrorKind::InvalidInput, "entry is too large to hash"));
    }
    dig.feed(head.as_slice());
    let mut i: usize = 0;
    assert(dig@ =~= old(dig)@ + head@ + body@.take(0));
    while i < body.len()
        invariant
            i <= body.len(),
            dig.wf(),
            dig@ == old(dig)@ + head@ + body@.take(i as int),
            old(dig)@.len() + head@.len() + body@.len() < HASH_LIMIT,
        decreases body.len() - i,
    {
        let end: usize = if body.len() - i > HASH_CHUNK_SIZE {
            i + HASH_CHUNK_SIZE
        } else {
            body.len()
        };
        dig.feed(slice_subrange(body, i, end));
        assert(dig@ =~= old(dig)@ + head@ + body@.take(end as int));
        i = end;
    }
    assert(body@.take(body.len() as int) =~= body@);
    assert(dig@ =~= old(dig)@ + (head@ + body@));
    Ok(())
}

/// What follows the metadata in the digest input of an entry.
#[derive(Clone, Copy, Debug, PartialEq, Eq, Structural)]
pub enum Follows {
    /// Nothing: a directory, or an entry of another kind.
    Nothing,
    /// The bytes of the target of the symlink.
    Target,
    /// The bytes of the file, in pieces of [`HASH_CHUNK_SIZE`] bytes.
    Contents,
}

/// What follows the metadata, by the kind of entry.
pub open spec fn follows_spec(file_type: FileType) -> Follows {
    match file_type {
        FileType::Symlink => Follows::Target,
        FileType::Regular => Follows::Contents,
        _ => Follows::Nothing,
    }
}

/// Feeds the digest the metadata part of an entry that is read piece by
/// piece: the path, and of `stat` the mode word, the owner and the group,
/// where `owner_uid` and `owner_gid` take the place of those in `stat`. Says
/// what is to be fed next with [`hash_chunk`].
///
/// Fails, with the digest unchanged, only where its input would reach
/// [`HASH_LIMIT`].
pub fn hash_header(
    path: &Vec<u8>,
    stat: &Stat,
    dig: &mut Hasher,
    owner_uid: Option<u32>,
    owner_gid: Option<u32>,
) -> (r: Result<Follows, IoError>)
    requires
        old(dig).wf(),
    ensures
        final(dig).wf(),
        r is Ok <==> has_room(
            old(dig)@,
            header(
                path@,
                stat.mode,
                effective_id(owner_uid, stat.uid),
                effective_id(owner_gid, stat.gid),
            ),
        ),
        r matches Ok(next) ==> next == follows_spec(stat.file_type) && final(dig)@ == old(dig)@
            + header(
            path@,
            stat.mode,
            effective_id(owner_uid, stat.uid),
            effective_id(owner_gid, stat.gid),
        ),
        r matches Err(e) ==> final(dig)@ == old(dig)@ && e@ == too_large(),
{
    let head = header_bytes(
        path,
        stat.mode,
        effective(owner_uid, stat.uid),
        effective(owner_gid, stat.gid),
    );
    if !dig.input(head.as_slice()) {
        return Err(IoError::new(ErrorKind::InvalidInput, "entry is too large to hash"));
    }
    Ok(
        match stat.file_type {
            FileType::Symlink => Follows::Target,
            FileType::Regular => Follows::Contents,
            _ => Follows::Nothing,
        },
    )
}

/// Feeds the digest one piece of the target or of the contents of an entry.
///
/// Fails, with the digest unchanged, only where its input would reach
/// [`HASH_LIMIT`].
pub fn hash_chunk(data: &[u8], dig: &mut Hasher) -> (r: Result<(), IoError>)
    requires
        old(dig).wf(),
    ensures
        final(dig).wf(),
        r is Ok <==> has_room(old(dig)@, data@),
        r is Ok ==> final(dig)@ == old(dig)@ + data@,
        r matches Err(e) ==> final(dig)@ == old(dig)@ && e@ == too_large(),
{
    if dig.input(data) {
        Ok(())
    } else {
        Err(IoError::new(ErrorKind::InvalidInput, "entry is too large to hash"))
    }
}

/// The pieces of a content, one after another.
pub open spec fn joined(pieces: Seq<Seq<u8>>) -> Seq<u8>
    decreases pieces.len(),
{
    if pieces.len() == 0 {
        Seq::empty()
    } else {
        joined(pieces.drop_last()) + pieces.last()
    }
}

/// An entry that is fed piece by piece gives the digest what the whole entry
/// gives it: the metadata followed by pieces that make up the target or the
/// contents are the digest input of the entry, however the pieces are cut.
pub proof fn pieces_make_the_digest_input(
    before: Seq<u8>,
    entry: FileEntryView,
    owner_uid: Option<u32>,
    owner_gid: Option<u32>,
    pieces: Seq<Seq<u8>>,
)
    requires
        joined(pieces) == payload(entry.content),
    ensures
        before + header(
            entry.path,
            entry.mode,
            effective_id(owner_uid, entry.uid),
            effective_id(owner_gid, entry.gid),
        ) + joined(pieces) == before + digest_input(entry, owner_uid, owner_gid),
{
    let head = header(
        entry.path,
        entry.mode,
        effective_id(owner_uid, entry.uid),
        effective_id(owner_gid, entry.gid),
    );
    assert(before + head + joined(pieces) =~= before + (head + joined(pieces)));
}

/// Feeding one more piece adds it to what the pieces before have made.
pub proof fn one_more_piece(pieces: Seq<Seq<u8>>, piece: Seq<u8>)
    ensures
        joined(pieces.push(piece)) == joined(pieces) + piece,
{
    assert(pieces.push(piece).drop_last() =~= pieces);
}

/// Whether no byte of `s` is zero.
pub open spec fn zero_free(s: Seq<u8>) -> bool {
    forall|i: int| 0 <= i < s.len() ==> s[i] != 0
}

/// Octal digits hold no zero byte.
pub proof fn octal_is_zero_free(n: nat)
    ensures
        zero_free(octal(n)),
        octal(n).len() >= 1,
    decreases n,
{
    if n >= 8 {
        octal_is_zero_free(n / 8);
    }
}

/// Decimal digits hold no zero byte.
pub proof fn decimal_is_zero_free(n: nat)
    ensures
        zero_free(decimal(n)),
        decimal(n).len() >= 1,
    decreases n,
{
    if n >= 10 {
        decimal_is_zero_free(n / 10);
    }
}

/// Two numbers with the same octal digits are the same number.
pub proof fn octal_is_injective(a: nat, b: nat)
    requires
        octal(a) == octal(b),
    ensures
        a == b,
    decreases a,
{
    octal_is_zero_free(a / 8);
    octal_is_zero_free(b / 8);
    if a >= 8 && b >= 8 {
        let x = octal(a / 8);
        let y = octal(b / 8);
        assert(x.push(digit(a % 8)).drop_last() =~= x);
        assert(y.push(digit(b % 8)).drop_last() =~= y);
        assert(x.push(digit(a % 8)).last() == digit(a % 8));
        assert(y.push(digit(b % 8)).last() == digit(b % 8));
        octal_is_injective(a / 8, b / 8);
    } else if a >= 8 {
        assert(octal(a).len() >= 2);
        assert(octal(b).len() == 1);
    } else if b >= 8 {
        assert(octal(b).len() >= 2);
        assert(octal(a).len() == 1);
    } else {
        assert(octal(a)[0] == digit(a));
        assert(octal(b)[0] == digit(b));
    }
}

/// Two numbers with the same decimal digits are the same number.
pub proof fn decimal_is_injective(a: nat, b: nat)
    requires
        decimal(a) == decimal(b),
    ensures
        a == b,
    decreases a,
{
    decimal_is_zero_free(a / 10);
    decimal_is_zero_free(b / 10);
    if a >= 10 && b >= 10 {
        let x = decimal(a / 10);
        let y = decimal(b / 10);
        assert(x.push(digit(a % 10)).drop_last() =~= x);
        assert(y.push(digit(b % 10)).drop_last() =~= y);
        assert(x.push(digit(a % 10)).last() == digit(a % 10));
        assert(y.push(digit(b % 10)).last() == digit(b % 10));
        decimal_is_injective(a / 10, b / 10);
    } else if a >= 10 {
        assert(decimal(a).len() >= 2);
        assert(decimal(b).len() == 1);
    } else if b >= 10 {
        assert(decimal(b).len() >= 2);
        assert(decimal(a).len() == 1);
    } else {
        assert(decimal(a)[0] == digit(a));
        assert(decimal(b)[0] == digit(b));
    }
}

/// Two texts without a zero byte, each followed by a zero byte and a rest,
/// are equal only where both parts are.
pub proof fn split_at_zero(a: Seq<u8>, ra: Seq<u8>, b: Seq<u8>, rb: Seq<u8>)
    requires
        zero_free(a),
        zero_free(b),
        a + seq![0u8] + ra == b + seq![0u8] + rb,
    ensures
        a == b,
        ra == rb,
{
    let x = a + seq![0u8] + ra;
    let y = b + seq![0u8] + rb;
    if a.len() < b.len() {
        assert(x[a.len() as int] == 0);
        assert(y[a.len() as int] == b[a.len() as int]);
    } else if b.len() < a.len() {
        assert(y[b.len() as int] == 0);
        assert(x[b.len() as int] == a[b.len() as int]);
    }
    assert(a.len() == b.len());
    assert forall|i: int| 0 <= i < a.len() implies a[i] == b[i] by {
        assert(x[i] == a[i]);
        assert(y[i] == b[i]);
    }
    assert(a =~= b);
    assert(x.len() == a.len() + 1 + ra.len());
    assert(y.len() == b.len() + 1 + rb.len());
    assert(ra.len() == rb.len());
    assert forall|i: int| 0 <= i < ra.len() implies ra[i] == rb[i] by {
        assert(x[a.len() + 1 + i] == ra[i]);
        assert(y[b.len() + 1 + i] == rb[i]);
    }
    assert(ra =~= rb);
}

/// Two texts that begin alike and are equal end alike.
pub proof fn same_prefix_same_rest(p: Seq<u8>, ra: Seq<u8>, rb: Seq<u8>)
    requires
        p + ra == p + rb,
    ensures
        ra == rb,
{
    let x = p + ra;
    let y = p + rb;
    assert(x.len() == p.len() + ra.len());
    assert(y.len() == p.len() + rb.len());
    assert(ra.len() == rb.len());
    assert forall|i: int| 0 <= i < ra.len() implies ra[i] == rb[i] by {
        assert(x[p.len() + i] == ra[i]);
        assert(y[p.len() + i] == rb[i]);
    }
    assert(ra =~= rb);
}

/// What follows the path and its zero byte in the digest input.
pub open spec fn after_path(mode: u32, uid: u32, gid: u32, rest: Seq<u8>) -> Seq<u8> {
    mode_tag() + (octal(mode as nat) + seq![0u8] + after_mode(uid, gid, rest))
}

/// What follows the mode and its zero byte in the digest input.
pub open spec fn after_mode(uid: u32, gid: u32, rest: Seq<u8>) -> Seq<u8> {
    uid_tag() + (decimal(uid as nat) + seq![0u8] + after_uid(gid, rest))
}

/// What follows the owner and its zero byte in the digest input.
pub open spec fn after_uid(gid: u32, rest: Seq<u8>) -> Seq<u8> {
    gid_tag() + (decimal(gid as nat) + seq![0u8] + rest)
}

/// A tag, digits, a zero byte and a rest are equal to another such text with
/// the same tag only where the digits and the rests are.
pub proof fn same_field(tag: Seq<u8>, da: Seq<u8>, ra: Seq<u8>, db: Seq<u8>, rb: Seq<u8>)
    requires
        zero_free(da),
        zero_free(db),
        tag + (da + seq![0u8] + ra) == tag + (db + seq![0u8] + rb),
    ensures
        da == db,
        ra == rb,
{
    same_prefix_same_rest(tag, da + seq![0u8] + ra, db + seq![0u8] + rb);
    split_at_zero(da, ra, db, rb);
}

/// The digest input, cut after the path.
pub proof fn digest_input_after_path(
    entry: FileEntryView,
    owner_uid: Option<u32>,
    owner_gid: Option<u32>,
)
    ensures
        digest_input(entry, owner_uid, owner_gid) == entry.path + seq![0u8] + after_path(
            entry.mode,
            effective_id(owner_uid, entry.uid),
            effective_id(owner_gid, entry.gid),
            payload(entry.content),
        ),
{
    let uid = effective_id(owner_uid, entry.uid);
    let gid = effective_id(owner_gid, entry.gid);
    let rest = payload(entry.content);
    let g = after_uid(gid, rest);
    assert(g =~= gid_tag() + decimal(gid as nat) + seq![0u8] + rest);
    let u = after_mode(uid, gid, rest);
    assert(u =~= uid_tag() + decimal(uid as nat) + seq![0u8] + g);
    let m = after_path(entry.mode, uid, gid, rest);
    assert(m =~= mode_tag() + octal(entry.mode as nat) + seq![0u8] + u);
    assert(digest_input(entry, owner_uid, owner_gid) =~= entry.path + seq![0u8] + m);
}

/// The digest input is sensitive to permission bits, owner, group and
/// content: two entries under the same path, or under two paths without a
/// zero byte, that give the same digest input have the same path, the same
/// mode, the same effective owner and group, and the same target or bytes.
pub proof fn digest_input_is_sensitive(
    a: FileEntryView,
    a_uid: Option<u32>,
    a_gid: Option<u32>,
    b: FileEntryView,
    b_uid: Option<u32>,
    b_gid: Option<u32>,
)
    requires
        a.path == b.path || (zero_free(a.path) && zero_free(b.path)),
        digest_input(a, a_uid, a_gid) == digest_input(b, b_uid, b_gid),
    ensures
        a.path == b.path,
        a.mode == b.mode,
        effective_id(a_uid, a.uid) == effective_id(b_uid, b.uid),
        effective_id(a_gid, a.gid) == effective_id(b_gid, b.gid),
        payload(a.content) == payload(b.content),
{
    let ua = effective_id(a_uid, a.uid);
    let ga = effective_id(a_gid, a.gid);
    let ub = effective_id(b_uid, b.uid);
    let gb = effective_id(b_gid, b.gid);
    let pa = payload(a.content);
    let pb = payload(b.content);
    let ta = after_path(a.mode, ua, ga, pa);
    let tb = after_path(b.mode, ub, gb, pb);
    digest_input_after_path(a, a_uid, a_gid);
    digest_input_after_path(b, b_uid, b_gid);
    assert(a.path == b.path && ta == tb) by {
        if a.path == b.path {
            same_prefix_same_rest(a.path + seq![0u8], ta, tb);
        } else {
            split_at_zero(a.path, ta, b.path, tb);
        }
    }
    octal_is_zero_free(a.mode as nat);
    octal_is_zero_free(b.mode as nat);
    same_field(
        mode_tag(),
        octal(a.mode as nat),
        after_mode(ua, ga, pa),
        octal(b.mode as nat),
        after_mode(ub, gb, pb),
    );
    octal_is_injective(a.mode as nat, b.mode as nat);
    decimal_is_zero_free(ua as nat);
    decimal_is_zero_free(ub as nat);
    same_field(
        uid_tag(),
        decimal(ua as nat),
        after_uid(ga, pa),
        decimal(ub as nat),
        after_uid(gb, pb),
    );
    decimal_is_injective(ua as nat, ub as nat);
    decimal_is_zero_free(ga as nat);
    decimal_is_zero_free(gb as nat);
    same_field(gid_tag(), decimal(ga as nat), pa, decimal(gb as nat), pb);
    decimal_is_injective(ga as nat, gb as nat);
}

/// An override that names the owner and group that the entry has anyway
/// changes nothing: the digest input is that without an override.
pub proof fn matching_override_changes_nothing(entry: FileEntryView)
    ensures
        digest_input(entry, Some(entry.uid), Some(entry.gid)) == digest_input(entry, None, None),
        digest_input(entry, Some(entry.uid), None) == digest_input(entry, None, None),
        digest_input(entry, None, Some(entry.gid)) == digest_input(entry, None, None),
{
}

/// Hashing is deterministic: of two digests that have been fed the same, fed
/// the same entry with the same overrides, either both have room and end
/// having been fed the same, with the same result, or neither has room and
/// both stay as they are.
pub proof fn same_entry_same_input(
    before_a: Seq<u8>,
    before_b: Seq<u8>,
    a: FileEntryView,
    b: FileEntryView,
    owner_uid: Option<u32>,
    owner_gid: Option<u32>,
)
    requires
        before_a == before_b,
        a == b,
    ensures
        has_room(before_a, digest_input(a, owner_uid, owner_gid)) == has_room(
            before_b,
            digest_input(b, owner_uid, owner_gid),
        ),
        before_a + digest_input(a, owner_uid, owner_gid) == before_b + digest_input(
            b,
            owner_uid,
            owner_gid,
        ),
        sha256_hex(before_a + digest_input(a, owner_uid, owner_gid)) == sha256_hex(
            before_b + digest_input(b, owner_uid, owner_gid),
        ),
{
}

} // verus!
