//! Git objects as the GitHub API takes them, and the decisions made while
//! building them: file modes, commit messages, blob contents and ref targets.

use vstd::prelude::*;
use base64::Engine;
use crate::text::same_text;

verus! {

/// Git file modes
#[derive(Debug, Clone, Copy, PartialEq, Eq, Structural)]
pub enum GitMode {
    RegularFile,
    ExecutableFile,
    Directory,
    SymbolicLink,
}

/// The octal mode string that git and the API use for a file mode.
pub open spec fn spec_mode_string(m: GitMode) -> Seq<char> {
    match m {
        GitMode::RegularFile => "100644"@,
        GitMode::ExecutableFile => "100755"@,
        GitMode::Directory => "040000"@,
        GitMode::SymbolicLink => "120000"@,
    }
}

impl GitMode {
    /// The mode as git writes it: `100644`, `100755`, `040000` or `120000`.
    pub fn to_string(&self) -> (s: String)
        ensures
            s@ == spec_mode_string(*self),
    {
        match self {
            GitMode::RegularFile => String::from_str("100644"),
            GitMode::ExecutableFile => String::from_str("100755"),
            GitMode::Directory => String::from_str("040000"),
            GitMode::SymbolicLink => String::from_str("120000"),
        }
    }
}

/// A blob object ready for tree creation
#[derive(Debug, Clone)]
pub struct GitBlob {
    pub path: String,
    pub mode: GitMode,
    pub object_type: String,
    pub sha: String,
}

impl GitBlob {
    /// A tree entry of type `blob` for the file at `path`.
    pub fn new(path: &str, mode: GitMode, sha: String) -> (b: GitBlob)
        ensures
            b.path@ == path@,
            b.mode == mode,
            b.object_type@ == "blob"@,
            b.sha@ == sha@,
    {
        GitBlob { path: String::from_str(path), mode, object_type: String::from_str("blob"), sha }
    }
}

/// What a file's metadata says of it, as far as its git mode depends on it.
/// `unix_mode` holds the permission bits where the platform has them.
#[derive(Debug, Clone, Copy, PartialEq, Eq, Structural)]
pub struct FileStat {
    pub is_symlink: bool,
    pub is_dir: bool,
    pub is_file: bool,
    pub unix_mode: Option<u32>,
}

/// Which metadata of a path decides its mode.
#[derive(Debug, Clone, Copy, PartialEq, Eq, Structural)]
pub enum MetadataSource {
    /// The metadata of what a symbolic link points to.
    Target,
    /// The metadata of the path itself, link or not.
    Path,
}

/// The metadata to read for a changed file: following symbolic links reads
/// what a link points to; not following reads the link itself.
pub fn metadata_source(follow_symlinks: bool) -> (m: MetadataSource)
    ensures
        follow_symlinks ==> m == MetadataSource::Target,
        !follow_symlinks ==> m == MetadataSource::Path,
{
    if follow_symlinks {
        MetadataSource::Target
    } else {
        MetadataSource::Path
    }
}

/// Some executable bit (owner, group or other) is set.
pub open spec fn has_exec_bit(unix_mode: Option<u32>) -> bool {
    match unix_mode {
        Some(m) => m & 0o111u32 != 0,
        None => false,
    }
}

/// The git mode of a file from its metadata, or the error for a file that is
/// neither link, directory nor regular file.
pub open spec fn spec_file_mode(location: Seq<char>, stat: FileStat) -> Result<GitMode, Seq<char>> {
    if stat.is_symlink {
        Ok(GitMode::SymbolicLink)
    } else if stat.is_dir {
        Ok(GitMode::Directory)
    } else if stat.is_file {
        if has_exec_bit(stat.unix_mode) {
            Ok(GitMode::ExecutableFile)
        } else {
            Ok(GitMode::RegularFile)
        }
    } else {
        Err("Unknown file mode for "@ + location)
    }
}

/// Determine the git file mode for the file at `location` (its display
/// form) from the result of reading its metadata.
pub fn get_file_mode(location: &str, stat: &Result<FileStat, String>) -> (r: Result<GitMode, String>)
    ensures
        match stat {
            Err(e) => r matches Err(msg) && msg@ == "Failed to stat "@ + location@ + ": "@ + e@,
            Ok(st) => match (r, spec_file_mode(location@, *st)) {
                (Ok(m), Ok(n)) => m == n,
                (Err(msg), Err(t)) => msg@ == t,
                _ => false,
            },
        },
        match stat {
            Ok(st) => st.is_file && !st.is_symlink && !st.is_dir ==> r == Ok::<GitMode, String>(
                if st.unix_mode matches Some(m) && (m & 0o100u32 != 0 || m & 0o010u32 != 0 || m
                    & 0o001u32 != 0) {
                    GitMode::ExecutableFile
                } else {
                    GitMode::RegularFile
                },
            ),
            Err(_) => true,
        },
{
    match stat {
        Err(e) => {
            let msg = String::from_str("Failed to stat ").concat(location).concat(": ").concat(
                e.as_str(),
            );
            Err(msg)
        },
        Ok(st) => {
            proof {
                if st.is_file && !st.is_symlink && !st.is_dir {
                    lemma_regular_file_mode(location@, *st);
                }
            }
            if st.is_symlink {
                Ok(GitMode::SymbolicLink)
            } else if st.is_dir {
                Ok(GitMode::Directory)
            } else if st.is_file {
                let exec = match st.unix_mode {
                    Some(m) => m & 0o111u32 != 0,
                    None => false,
                };
                if exec {
                    Ok(GitMode::ExecutableFile)
                } else {
                    Ok(GitMode::RegularFile)
                }
            } else {
                Err(String::from_str("Unknown file mode for ").concat(location))
            }
        },
    }
}

/// The commit message: the message file's text where a file is named,
/// else the inline message; an empty message is refused.
pub open spec fn spec_commit_message(
    message: Seq<char>,
    file: Seq<char>,
    file_text: Result<Seq<char>, Seq<char>>,
) -> Result<Seq<char>, Seq<char>> {
    let chosen = if file.len() > 0 {
        match file_text {
            Ok(t) => Ok(t),
            Err(e) => Err("Failed to read message file: "@ + e),
        }
    } else {
        Ok(message)
    };
    match chosen {
        Ok(t) => if t.len() == 0 {
            Err("Commit message is empty"@)
        } else {
            Ok(t)
        },
        Err(e) => Err(e),
    }
}

/// The view of a textual result.
pub open spec fn text_result(r: Result<String, String>) -> Result<Seq<char>, Seq<char>> {
    match r {
        Ok(s) => Ok(s@),
        Err(e) => Err(e@),
    }
}

/// Build commit message from inline string or file contents. `file_text` is
/// what reading the file named by `file` gave; it is not looked at when
/// `file` is empty.
pub fn build_commit_message(message: &str, file: &str, file_text: &Result<String, String>) -> (r:
    Result<String, String>)
    ensures
        text_result(r) == spec_commit_message(message@, file@, text_result(*file_text)),
        file@.len() == 0 && message@.len() > 0 ==> (r matches Ok(s) && s@ == message@),
        file@.len() == 0 && message@.len() == 0 ==> (r matches Err(e) && e@
            == "Commit message is empty"@),
{
    proof {
        reveal_strlit("Commit message is empty");
    }
    let output = if file.unicode_len() != 0 {
        match file_text {
            Ok(t) => t.clone(),
            Err(e) => {
                return Err(String::from_str("Failed to read message file: ").concat(e.as_str()));
            },
        }
    } else {
        String::from_str(message)
    };
    if output.as_str().unicode_len() == 0 {
        Err(String::from_str("Commit message is empty"))
    } else {
        Ok(output)
    }
}

/// The character of a six-bit value in the standard base64 alphabet:
/// `A`-`Z`, `a`-`z`, `0`-`9`, `+`, `/`.
pub open spec fn base64_char(v: int) -> char {
    if v < 26 {
        (('A' as int) + v) as char
    } else if v < 52 {
        (('a' as int) + v - 26) as char
    } else if v < 62 {
        (('0' as int) + v - 52) as char
    } else if v == 62 {
        '+'
    } else {
        '/'
    }
}

/// The standard base64 encoding (RFC 4648) of a byte sequence: each group
/// of three bytes becomes four characters of six bits each, and a last
/// group of one or two bytes is padded with `=` to four characters.
pub open spec fn base64_standard(data: Seq<u8>) -> Seq<char>
    decreases data.len(),
{
    if data.len() == 0 {
        Seq::empty()
    } else if data.len() == 1 {
        let b0 = data[0] as int;
        seq![base64_char(b0 / 4), base64_char((b0 % 4) * 16), '=', '=']
    } else if data.len() == 2 {
        let (b0, b1) = (data[0] as int, data[1] as int);
        seq![
            base64_char(b0 / 4),
            base64_char((b0 % 4) * 16 + b1 / 16),
            base64_char((b1 % 16) * 4),
            '=',
        ]
    } else {
        let (b0, b1, b2) = (data[0] as int, data[1] as int, data[2] as int);
        seq![
            base64_char(b0 / 4),
            base64_char((b0 % 4) * 16 + b1 / 16),
            base64_char((b1 % 16) * 4 + b2 / 64),
            base64_char(b2 % 64),
        ] + base64_standard(data.skip(3))
    }
}

/// The length of a padded base64 encoding of `n` bytes.
pub open spec fn base64_len(n: nat) -> nat {
    4 * (n / 3) + if n % 3 > 0 {
        4nat
    } else {
        0nat
    }
}

/// The padded encoding of `n` bytes has `4 * ceil(n / 3)` characters.
pub proof fn lemma_base64_len(data: Seq<u8>)
    ensures
        base64_standard(data).len() == base64_len(data.len()),
    decreases data.len(),
{
    if data.len() >= 3 {
        lemma_base64_len(data.skip(3));
        assert((data.len() - 3) / 3 == data.len() / 3 - 1);
        assert((data.len() - 3) % 3 == data.len() % 3);
    }
}

/// Calls `Engine::encode` of `base64::engine::general_purpose::STANDARD`,
/// the RFC 4648 alphabet with `=` padding. Claimed: the result is the
/// encoding `base64_standard` of the bytes. The crate panics when the
/// encoded length does not fit in a `usize`, so that input is left out.
#[verifier::external_body]
fn base64_encode(data: &[u8]) -> (s: String)
    requires
        base64_len(data@.len()) <= usize::MAX,
    ensures
        s@ == base64_standard(data@),
{
    base64::engine::general_purpose::STANDARD.encode(data)
}

/// The content sent for a blob: the base64 encoding of the file's bytes, or
/// the error of reading the file at `location`.
pub fn blob_content(location: &str, read: &Result<Vec<u8>, String>) -> (r: Result<String, String>)
    requires
        read matches Ok(bytes) ==> base64_len(bytes@.len()) <= usize::MAX,
    ensures
        match read {
            Ok(bytes) => r matches Ok(s) && s@ == base64_standard(bytes@) && s@.len()
                == base64_len(bytes@.len()),
            Err(e) => r matches Err(msg) && msg@ == "Failed to read "@ + location@ + ": "@ + e@,
        },
{
    match read {
        Ok(bytes) => {
            proof {
                lemma_base64_len(bytes@);
            }
            Ok(base64_encode(bytes.as_slice()))
        },
        Err(e) => Err(
            String::from_str("Failed to read ").concat(location).concat(": ").concat(e.as_str()),
        ),
    }
}

/// The object a ref points at, as far as the workflow follows it.
#[derive(Debug, Clone, PartialEq, Eq)]
pub enum RefTarget {
    /// The ref points at this commit.
    Commit(String),
    /// The ref points at this annotated tag object, which names the commit.
    Tag(String),
}

/// Decide what the object `(object_type, sha)` that a ref points at means:
/// a commit is the answer, a tag must be followed, anything else is refused.
pub fn resolve_ref_object(object_type: &str, sha: &str) -> (r: Result<RefTarget, String>)
    ensures
        object_type@ == "tag"@ ==> (r matches Ok(RefTarget::Tag(s)) && s@ == sha@),
        object_type@ == "commit"@ ==> (r matches Ok(RefTarget::Commit(s)) && s@ == sha@),
        object_type@ != "tag"@ && object_type@ != "commit"@ ==> (r matches Err(msg) && msg@
            == "Unsupported ref type: "@ + object_type@),
{
    proof {
        reveal_strlit("tag");
        reveal_strlit("commit");
        assert("tag"@.len() != "commit"@.len());
    }
    if same_text(object_type, "tag") {
        Ok(RefTarget::Tag(String::from_str(sha)))
    } else if same_text(object_type, "commit") {
        Ok(RefTarget::Commit(String::from_str(sha)))
    } else {
        Err(String::from_str("Unsupported ref type: ").concat(object_type))
    }
}

} // verus!

verus! {

/// Distinct file modes have distinct mode strings, each of six octal digits.
pub proof fn lemma_mode_strings_distinct(a: GitMode, b: GitMode)
    ensures
        spec_mode_string(a).len() == 6,
        a != b ==> spec_mode_string(a) != spec_mode_string(b),
{
    reveal_strlit("100644");
    reveal_strlit("100755");
    reveal_strlit("040000");
    reveal_strlit("120000");
    if a != b {
        let (sa, sb) = (spec_mode_string(a), spec_mode_string(b));
        assert(sa[0] != sb[0] || sa[3] != sb[3] || sa[4] != sb[4]);
    }
}

/// The message file, where one is named, takes priority over the inline
/// message: its text is the commit message whenever it could be read and
/// is not empty.
pub proof fn lemma_message_file_takes_priority(
    message: Seq<char>,
    file: Seq<char>,
    text: Seq<char>,
)
    requires
        file.len() > 0,
        text.len() > 0,
    ensures
        spec_commit_message(message, file, Ok(text)) == Ok::<Seq<char>, Seq<char>>(text),
{
}

/// A commit is never made with an empty message.
pub proof fn lemma_commit_message_not_empty(
    message: Seq<char>,
    file: Seq<char>,
    file_text: Result<Seq<char>, Seq<char>>,
)
    ensures
        spec_commit_message(message, file, file_text) matches Ok(m) ==> m.len() > 0,
{
}

} // verus!

verus! {

/// Some execute permission bit (owner, group or other) is set.
pub open spec fn any_exec_permission(m: u32) -> bool {
    m & 0o100u32 != 0 || m & 0o010u32 != 0 || m & 0o001u32 != 0
}

/// A regular file is executable exactly when one of its execute permission
/// bits is set; where the platform gives no permission bits it is a
/// regular file.
pub proof fn lemma_regular_file_mode(location: Seq<char>, stat: FileStat)
    requires
        stat.is_file,
        !stat.is_symlink,
        !stat.is_dir,
    ensures
        spec_file_mode(location, stat) == Ok::<GitMode, Seq<char>>(
            if stat.unix_mode matches Some(m) && any_exec_permission(m) {
                GitMode::ExecutableFile
            } else {
                GitMode::RegularFile
            },
        ),
{
    if let Some(m) = stat.unix_mode {
        assert((m & 0o111u32 != 0) == (m & 0o100u32 != 0 || m & 0o010u32 != 0 || m & 0o001u32
            != 0)) by (bit_vector);
    }
}

/// Only the permission bits matter: the file-type bits above `0o777` that
/// a full `st_mode` carries never change a file's git mode.
pub proof fn lemma_file_type_bits_do_not_matter(location: Seq<char>, stat: FileStat, m: u32)
    ensures
        spec_file_mode(location, FileStat { unix_mode: Some(m), ..stat }) == spec_file_mode(
            location,
            FileStat { unix_mode: Some(m & 0o777u32), ..stat },
        ),
{
    assert(((m & 0o777u32) & 0o111u32 != 0) == (m & 0o111u32 != 0)) by (bit_vector);
}

/// Without a message file, the inline message is the commit message as
/// given, and an empty one is refused; with a message file that cannot be
/// read, the read error is reported, whatever the inline message.
pub proof fn lemma_inline_message_unchanged(
    message: Seq<char>,
    file: Seq<char>,
    file_text: Result<Seq<char>, Seq<char>>,
)
    ensures
        file.len() == 0 && message.len() > 0 ==> spec_commit_message(message, file, file_text)
            == Ok::<Seq<char>, Seq<char>>(message),
        file.len() == 0 && message.len() == 0 ==> spec_commit_message(message, file, file_text)
            == Err::<Seq<char>, Seq<char>>("Commit message is empty"@),
        file.len() > 0 ==> (file_text matches Err(e) ==> spec_commit_message(
            message,
            file,
            file_text,
        ) == Err::<Seq<char>, Seq<char>>("Failed to read message file: "@ + e)),
{
}

} // verus!
