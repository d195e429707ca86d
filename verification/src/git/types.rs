use vstd::prelude::*;
use vstd::string::*;
use crate::error::TwiggyError;
use crate::text::{first_line, first_line_of, join2, owned};

verus! {

/// The lower-case hexadecimal digit for a value below sixteen.
pub open spec fn hex_digit(n: int) -> char {
    if n == 0 {
        '0'
    } else if n == 1 {
        '1'
    } else if n == 2 {
        '2'
    } else if n == 3 {
        '3'
    } else if n == 4 {
        '4'
    } else if n == 5 {
        '5'
    } else if n == 6 {
        '6'
    } else if n == 7 {
        '7'
    } else if n == 8 {
        '8'
    } else if n == 9 {
        '9'
    } else if n == 10 {
        'a'
    } else if n == 11 {
        'b'
    } else if n == 12 {
        'c'
    } else if n == 13 {
        'd'
    } else if n == 14 {
        'e'
    } else {
        'f'
    }
}

/// The value of a hexadecimal digit of either case, or -1 for any other character.
pub open spec fn hex_value(c: char) -> int {
    if '0' <= c <= '9' {
        c as int - '0' as int
    } else if 'a' <= c <= 'f' {
        c as int - 'a' as int + 10
    } else if 'A' <= c <= 'F' {
        c as int - 'A' as int + 10
    } else {
        -1
    }
}

/// Whether a text can be read as a commit identity: one to forty hexadecimal digits.
pub open spec fn hex_text_valid(s: Seq<char>) -> bool {
    &&& 1 <= s.len() <= 40
    &&& forall|i: int| 0 <= i < s.len() ==> hex_value(#[trigger] s[i]) >= 0
}

/// The value of the digit at a position, or zero past the end of the text.
pub open spec fn nibble_at(s: Seq<char>, p: int) -> int {
    if 0 <= p < s.len() {
        hex_value(s[p])
    } else {
        0
    }
}

/// The twenty bytes that a valid text stands for; a short text is padded with zeros.
pub open spec fn bytes_of_hex(s: Seq<char>) -> Seq<u8> {
    Seq::new(20, |k: int| (nibble_at(s, 2 * k) * 16 + nibble_at(s, 2 * k + 1)) as u8)
}

/// The canonical text of a byte sequence: two lower-case digits for each byte.
pub open spec fn hex_of(bytes: Seq<u8>) -> Seq<char> {
    Seq::new(
        2 * bytes.len(),
        |i: int|
            if i % 2 == 0 {
                hex_digit(bytes[i / 2] as int / 16)
            } else {
                hex_digit(bytes[i / 2] as int % 16)
            },
    )
}

/// A commit identity: the twenty bytes of its content hash.
#[derive(Debug, Clone, Copy, PartialEq, Eq, Hash)]
pub struct CommitId {
    pub bytes: [u8; 20],
}

impl View for CommitId {
    type V = Seq<u8>;

    open spec fn view(&self) -> Seq<u8> {
        self.bytes@
    }
}

/// Parses a hexadecimal object id with `git2::Oid::from_str`.
///
/// The call succeeds exactly on one to forty hexadecimal digits of either case.
/// The digits fill the identity from its first byte, high half first, and what
/// the text does not reach stays zero.
#[verifier::external_body]
fn oid_from_hex(text: &str) -> (r: std::result::Result<CommitId, git2::Error>)
    ensures
        match r {
            Ok(id) => hex_text_valid(text@) && id@ == bytes_of_hex(text@),
            Err(_) => !hex_text_valid(text@),
        },
{
    match git2::Oid::from_str(text) {
        Ok(oid) => {
            let mut bytes = [0u8; 20];
            bytes.copy_from_slice(oid.as_bytes());
            Ok(CommitId { bytes })
        },
        Err(e) => Err(e),
    }
}

/// Formats an object id through the `Display` impl of `git2::Oid`.
///
/// The result is the forty lower-case hexadecimal digits of the twenty bytes.
#[verifier::external_body]
fn oid_to_hex(id: &CommitId) -> (r: String)
    ensures
        r@ == hex_of(id@),
{
    match git2::Oid::from_bytes(&id.bytes) {
        Ok(oid) => oid.to_string(),
        Err(_) => String::new(),
    }
}

impl CommitId {
    /// Whether two identities are the same hash.
    pub fn same(&self, other: &CommitId) -> (r: bool)
        ensures
            r == (self@ == other@),
    {
        let mut i: usize = 0;
        while i < 20
            invariant
                i <= 20,
                forall|j: int| 0 <= j < i ==> self.bytes@[j] == other.bytes@[j],
            decreases 20 - i,
        {
            if self.bytes[i] != other.bytes[i] {
                return false;
            }
            i = i + 1;
        }
        assert(self.bytes@ =~= other.bytes@);
        true
    }

    /// The canonical form: forty lower-case hexadecimal digits.
    pub fn as_str(&self) -> (r: String)
        ensures
            r@ == hex_of(self@),
            r@.len() == 40,
    {
        oid_to_hex(self)
    }

    /// The short form: the first seven digits of the canonical form.
    pub fn short(&self) -> (r: String)
        ensures
            r@ == hex_of(self@).take(7),
            r@.len() == 7,
    {
        let full = oid_to_hex(self);
        owned(full.as_str().substring_char(0, 7))
    }

    /// Reads an identity from its text.
    ///
    /// Succeeds exactly on one to forty hexadecimal digits; any other text is an
    /// `InvalidIdentity`.
    pub fn parse(text: &str) -> (r: std::result::Result<CommitId, TwiggyError>)
        ensures
            match r {
                Ok(id) => hex_text_valid(text@) && id@ == bytes_of_hex(text@),
                Err(e) => !hex_text_valid(text@) && e is InvalidIdentity,
            },
    {
        match oid_from_hex(text) {
            Ok(id) => Ok(id),
            Err(source) => Err(
                TwiggyError::InvalidIdentity {
                    message: join2("Invalid commit hash: ", text),
                    source,
                },
            ),
        }
    }
}

/// Whether `chrono` can hold a number of seconds since the epoch as a UTC date
/// and time.
pub uninterp spec fn datetime_representable(seconds: int) -> bool;

/// Passes a number of seconds through `chrono::DateTime::from_timestamp`.
///
/// The seconds come back unchanged where `chrono` can represent them as a UTC
/// date and time, and nothing comes back where it cannot.
#[verifier::external_body]
fn utc_seconds(seconds: i64) -> (r: Option<i64>)
    ensures
        r == if datetime_representable(seconds as int) {
            Some(seconds)
        } else {
            None
        },
{
    chrono::DateTime::from_timestamp(seconds, 0).map(|t| t.timestamp())
}

/// The attribution of a commit as the store holds it; a text that is not valid
/// UTF-8 is absent.
#[derive(Debug, Clone)]
pub struct RawSignature {
    pub name: Option<String>,
    pub email: Option<String>,
    pub seconds: i64,
}

/// A commit record as the store holds it, before it is made into a `Commit`.
#[derive(Debug, Clone)]
pub struct RawCommit {
    pub message: Option<String>,
    pub parents: Vec<CommitId>,
    pub tree: CommitId,
    pub author: RawSignature,
    pub committer: RawSignature,
}

/// Who made a commit, and when: seconds since the epoch, UTC.
#[derive(Debug)]
pub struct Signature {
    pub name: String,
    pub email: String,
    pub time: i64,
}

/// What a `Signature` holds.
pub ghost struct SignatureView {
    pub name: Seq<char>,
    pub email: Seq<char>,
    pub time: int,
}

impl View for Signature {
    type V = SignatureView;

    open spec fn view(&self) -> SignatureView {
        SignatureView { name: self.name@, email: self.email@, time: self.time as int }
    }
}

/// The text of an optional string, or the empty text.
pub open spec fn text_or_empty(t: Option<String>) -> Seq<char> {
    match t {
        Some(s) => s@,
        None => Seq::empty(),
    }
}

/// The signature made from a raw attribution.
///
/// An attribution without a readable name becomes "Unknown" with an empty email,
/// stamped `now`. Otherwise the name is kept, a missing email becomes empty, and
/// the time is kept where it is representable and is `now` where it is not.
pub open spec fn signature_of(raw: RawSignature, now: int) -> SignatureView {
    match raw.name {
        None => SignatureView { name: "Unknown"@, email: Seq::empty(), time: now },
        Some(name) => SignatureView {
            name: name@,
            email: text_or_empty(raw.email),
            time: if datetime_representable(raw.seconds as int) {
                raw.seconds as int
            } else {
                now
            },
        },
    }
}

fn clone_or_empty(t: &Option<String>) -> (r: String)
    ensures
        r@ == text_or_empty(*t),
{
    match t {
        Some(s) => s.clone(),
        None => String::new(),
    }
}

impl Clone for Signature {
    fn clone(&self) -> (r: Signature)
        ensures
            r@ == self@,
    {
        Signature { name: self.name.clone(), email: self.email.clone(), time: self.time }
    }
}

impl Signature {
    /// Makes a signature from a raw attribution; `now` stands in for a time that
    /// cannot be had.
    pub fn from_raw(raw: &RawSignature, now: i64) -> (r: Signature)
        ensures
            r@ == signature_of(*raw, now as int),
    {
        match &raw.name {
            None => Signature { name: owned("Unknown"), email: String::new(), time: now },
            Some(name) => {
                let time = match utc_seconds(raw.seconds) {
                    Some(t) => t,
                    None => now,
                };
                Signature { name: name.clone(), email: clone_or_empty(&raw.email), time }
            },
        }
    }
}

/// The identities of a sequence of commits' parents, as byte sequences.
pub open spec fn ids_view(ids: Seq<CommitId>) -> Seq<Seq<u8>> {
    ids.map_values(|p: CommitId| p@)
}

/// What each commit of a sequence holds.
pub open spec fn views(s: Seq<Commit>) -> Seq<CommitView> {
    s.map_values(|c: Commit| c@)
}

/// A commit: an immutable node of the history.
#[derive(Debug)]
pub struct Commit {
    pub id: CommitId,
    pub author: Signature,
    pub committer: Signature,
    pub message: String,
    pub summary: String,
    pub parents: Vec<CommitId>,
    pub tree_id: String,
}

/// What a `Commit` holds.
pub ghost struct CommitView {
    pub id: Seq<u8>,
    pub author: SignatureView,
    pub committer: SignatureView,
    pub message: Seq<char>,
    pub summary: Seq<char>,
    pub parents: Seq<Seq<u8>>,
    pub tree_id: Seq<char>,
}

impl View for Commit {
    type V = CommitView;

    open spec fn view(&self) -> CommitView {
        CommitView {
            id: self.id@,
            author: self.author@,
            committer: self.committer@,
            message: self.message@,
            summary: self.summary@,
            parents: ids_view(self.parents@),
            tree_id: self.tree_id@,
        }
    }
}

/// The commit made from an identity and its raw record.
///
/// Each signature is made on its own; a missing message is empty; the summary
/// is the first line of the message; the parents keep their stored order; the
/// tree is named by its canonical text.
pub open spec fn commit_of(id: CommitId, raw: RawCommit, now: int) -> CommitView {
    CommitView {
        id: id@,
        author: signature_of(raw.author, now),
        committer: signature_of(raw.committer, now),
        message: text_or_empty(raw.message),
        summary: first_line_of(text_or_empty(raw.message)),
        parents: ids_view(raw.parents@),
        tree_id: hex_of(raw.tree@),
    }
}

fn copy_ids(ids: &Vec<CommitId>) -> (r: Vec<CommitId>)
    ensures
        r@ == ids@,
{
    let mut out: Vec<CommitId> = Vec::new();
    let mut i: usize = 0;
    while i < ids.len()
        invariant
            i <= ids.len(),
            out@ == ids@.take(i as int),
        decreases ids.len() - i,
    {
        out.push(ids[i]);
        assert(ids@.take(i as int).push(ids@[i as int]) =~= ids@.take(i + 1));
        i = i + 1;
    }
    assert(ids@.take(ids.len() as int) =~= ids@);
    out
}

impl Clone for Commit {
    fn clone(&self) -> (r: Commit)
        ensures
            r@ == self@,
    {
        Commit {
            id: self.id,
            author: self.author.clone(),
            committer: self.committer.clone(),
            message: self.message.clone(),
            summary: self.summary.clone(),
            parents: copy_ids(&self.parents),
            tree_id: self.tree_id.clone(),
        }
    }
}

impl Commit {
    /// Makes a commit from its identity and its raw record.
    pub fn from_raw(id: CommitId, raw: &RawCommit, now: i64) -> (r: Commit)
        ensures
            r@ == commit_of(id, *raw, now as int),
    {
        let message = clone_or_empty(&raw.message);
        let summary = first_line(message.as_str());
        Commit {
            id,
            author: Signature::from_raw(&raw.author, now),
            committer: Signature::from_raw(&raw.committer, now),
            message,
            summary,
            parents: copy_ids(&raw.parents),
            tree_id: oid_to_hex(&raw.tree),
        }
    }

    /// Whether this commit has no parent.
    pub fn is_root(&self) -> (r: bool)
        ensures
            r == (self@.parents.len() == 0),
    {
        self.parents.len() == 0
    }

    /// Whether this commit has more than one parent.
    pub fn is_merge(&self) -> (r: bool)
        ensures
            r == (self@.parents.len() > 1),
    {
        self.parents.len() > 1
    }
}

/// A hexadecimal digit stands for the value it was written from.
pub proof fn lemma_digit_value(n: int)
    requires
        0 <= n < 16,
    ensures
        hex_value(hex_digit(n)) == n,
{
}

/// Parsing gives back what formatting was given.
///
/// The canonical text of every identity is valid, and reading it yields the
/// identity it was written from.
pub proof fn lemma_identity_round_trip(id: CommitId)
    ensures
        hex_text_valid(hex_of(id@)),
        bytes_of_hex(hex_of(id@)) == id@,
{
    let bytes = id@;
    let text = hex_of(bytes);
    assert(bytes.len() == 20);
    assert forall|i: int| 0 <= i < text.len() implies hex_value(#[trigger] text[i]) >= 0 by {
        let b = bytes[i / 2] as int;
        if i % 2 == 0 {
            lemma_digit_value(b / 16);
        } else {
            lemma_digit_value(b % 16);
        }
    }
    assert forall|k: int| 0 <= k < 20 implies bytes_of_hex(text)[k] == bytes[k] by {
        let b = bytes[k] as int;
        assert((2 * k) / 2 == k && (2 * k) % 2 == 0);
        assert((2 * k + 1) / 2 == k && (2 * k + 1) % 2 == 1);
        lemma_digit_value(b / 16);
        lemma_digit_value(b % 16);
        assert(text[2 * k] == hex_digit(b / 16));
        assert(text[2 * k + 1] == hex_digit(b % 16));
        assert((b / 16) * 16 + b % 16 == b);
    }
    assert(bytes_of_hex(text) =~= bytes);
}

/// Who wrote a commit, in the form that is handed to other programs.
#[derive(Debug, Clone)]
pub struct AuthorInfo {
    pub name: String,
    pub email: String,
}

/// A commit in the form that is handed to other programs: identities as text,
/// the time in seconds since the epoch.
#[derive(Debug, Clone)]
pub struct CommitInfo {
    pub id: String,
    pub message: String,
    pub author: AuthorInfo,
    pub timestamp: i64,
    pub parents: Vec<String>,
}

/// A branch in the form that is handed to other programs.
#[derive(Debug, Clone)]
pub struct BranchInfo {
    pub name: String,
    pub is_current: bool,
    pub commit_id: String,
}

/// The changes to one file.
#[derive(Debug, Clone)]
pub struct DiffInfo {
    pub old_file: Option<String>,
    pub new_file: Option<String>,
    pub hunks: Vec<DiffHunk>,
}

/// One run of changed lines.
#[derive(Debug, Clone)]
pub struct DiffHunk {
    pub old_start: u32,
    pub old_lines: u32,
    pub new_start: u32,
    pub new_lines: u32,
    pub lines: Vec<DiffLine>,
}

/// One line of a diff.
#[derive(Debug, Clone)]
pub struct DiffLine {
    pub line_type: DiffLineType,
    pub content: String,
}

/// What a line of a diff is.
#[derive(Debug, Clone, Copy, PartialEq, Eq, Structural)]
pub enum DiffLineType {
    Context,
    Addition,
    Deletion,
}

} // verus!
