//! Paths and option values that the filesystem setup hands to the kernel.

use vstd::prelude::*;

use crate::child::{HidePid, ProcSubset};
use crate::error::Errno;
use crate::sys::ENAMETOOLONG;
use crate::text::{copy_at, decimal_digits, octal_digits};
use crate::zstr::ZStr;

verus! {

/// Longest path, with its NUL, that the setup composes.
pub const MAX_PATH_BYTES: usize = 4096;

/// The path at which the new root is assembled.
pub open spec fn new_root() -> Seq<u8> {
    vstd::utf8::encode_utf8("/tmp/pnut-newroot"@)
}

/// The path `rel` below the new root.
pub open spec fn below_new_root(rel: Seq<u8>) -> Seq<u8> {
    new_root() + vstd::utf8::encode_utf8("/"@) + rel
}

/// The name of the staging file number `index`.
pub open spec fn staging_name(index: nat) -> Seq<u8> {
    vstd::utf8::encode_utf8("content-"@) + crate::text::numeral(index, 10)
}

/// The place of the last slash of `s`, or -1.
pub open spec fn last_slash(s: Seq<u8>) -> int
    decreases s.len(),
{
    if s.len() == 0 {
        -1
    } else if s.last() == 47 {
        s.len() - 1
    } else {
        last_slash(s.drop_last())
    }
}

/// What comes before the last slash of `s`; nothing if there is none.
pub open spec fn parent_of(s: Seq<u8>) -> Seq<u8> {
    if last_slash(s) < 0 {
        Seq::empty()
    } else {
        s.take(last_slash(s))
    }
}

/// Plain ASCII text has one byte for each character, and no NUL.
pub proof fn lemma_plain_text(s: Seq<char>)
    requires
        forall|i: int| 0 <= i < s.len() ==> '\0' < #[trigger] s[i] <= '\u{7f}',
    ensures
        vstd::utf8::encode_utf8(s) == crate::zstr::ascii(s),
        crate::zstr::no_nul(vstd::utf8::encode_utf8(s)),
{
    vstd::utf8::is_ascii_chars_encode_utf8(s);
    assert(vstd::utf8::encode_utf8(s) =~= crate::zstr::ascii(s));
    assert forall|i: int| 0 <= i < s.len() implies crate::zstr::ascii(s)[i] != 0 by {
        assert('\0' < s[i] <= '\u{7f}');
    }
}

/// Ends the text in the first `len` bytes of `buf` with a NUL.
fn terminate<'b, const N: usize>(buf: &'b mut [u8; N], len: usize) -> (r: ZStr<'b>)
    requires
        len < N,
        crate::zstr::no_nul(old(buf)@.take(len as int)),
    ensures
        r@ == old(buf)@.take(len as int),
{
    buf[len] = 0;
    let bytes: &'b [u8] = &buf.as_slice()[0..len + 1];
    assert(bytes@.drop_last() =~= old(buf)@.take(len as int));
    let r = ZStr::from_bytes_with_nul(bytes).unwrap();
    assert(r@ =~= bytes@.drop_last());
    r
}

/// A C string that is fixed text, given with its NUL.
fn fixed(text: &'static str) -> (r: ZStr<'static>)
    requires
        text@.len() > 0,
        text@.last() == '\0',
        forall|i: int| 0 <= i < text@.len() - 1 ==> '\0' < #[trigger] text@[i] <= '\u{7f}',
    ensures
        r@ == vstd::utf8::encode_utf8(text@.drop_last()),
{
    let bytes: &'static [u8] = text.as_bytes();
    proof {
        let body = text@.drop_last();
        assert forall|i: int| 0 <= i < body.len() implies '\0' < #[trigger] body[i] <= '\u{7f}' by {
            assert('\0' < text@[i] <= '\u{7f}');
        }
        lemma_plain_text(body);
        assert forall|i: int| 0 <= i < text@.len() implies '\0' <= #[trigger] text@[i]
            <= '\u{7f}' by {
            if i < text@.len() - 1 {
                assert('\0' < text@[i] <= '\u{7f}');
            }
        }
        vstd::utf8::is_ascii_chars_encode_utf8(text@);
        assert(bytes@.drop_last() =~= vstd::utf8::encode_utf8(body));
    }
    let r = ZStr::from_bytes_with_nul(bytes).unwrap();
    assert(r@ =~= bytes@.drop_last());
    r
}

/// Composes the path of `rel` below the new root, before the root changes.
pub fn root_absolute_path<'b>(rel: ZStr, buf: &'b mut [u8; MAX_PATH_BYTES]) -> (r: Result<
    ZStr<'b>,
    Errno,
>)
    ensures
        match r {
            Ok(z) => below_new_root(rel@).len() + 1 <= MAX_PATH_BYTES && z@ == below_new_root(rel@),
            Err(e) => below_new_root(rel@).len() + 1 > MAX_PATH_BYTES && e == Errno(ENAMETOOLONG),
        },
{
    let root: &[u8] = "/tmp/pnut-newroot".as_bytes();
    let slash: &[u8] = "/".as_bytes();
    let tail: &[u8] = rel.to_bytes();
    proof {
        reveal_strlit("/tmp/pnut-newroot");
        reveal_strlit("/");
        lemma_plain_text("/tmp/pnut-newroot"@);
        lemma_plain_text("/"@);
    }
    if tail.len() > MAX_PATH_BYTES - 1 - 18 {
        return Err(Errno(ENAMETOOLONG));
    }
    copy_at(buf, 0, root);
    copy_at(buf, 17, slash);
    copy_at(buf, 18, tail);
    let total: usize = 18 + tail.len();
    assert(buf@.take(total as int) =~= below_new_root(rel@));
    Ok(terminate(buf, total))
}

/// Composes the name of the staging file number `index`.
pub fn staging_name_cstr<'b>(index: usize, buf: &'b mut [u8; 64]) -> (r: Result<ZStr<'b>, Errno>)
    ensures
        r matches Ok(z) && z@ == staging_name(index as nat),
{
    let prefix: &[u8] = "content-".as_bytes();
    proof {
        reveal_strlit("content-");
        lemma_plain_text("content-"@);
        crate::text::lemma_decimal_len(index as u64);
        crate::text::law_numeral_digits(index as nat, 10);
    }
    let mut digits: [u8; 20] = [0u8; 20];
    let digits_len: usize = decimal_digits(index as u64, &mut digits);
    let total: usize = 8 + digits_len;
    if total + 1 > 64 {
        return Err(Errno(ENAMETOOLONG));
    }
    copy_at(buf, 0, prefix);
    copy_at(buf, 8, &digits.as_slice()[0..digits_len]);
    assert(buf@.take(total as int) =~= staging_name(index as nat));
    Ok(terminate(buf, total))
}

/// Writes `value` in decimal.
pub fn decimal_cstr<'b>(value: u64, buf: &'b mut [u8; 32]) -> (r: Result<ZStr<'b>, Errno>)
    ensures
        r matches Ok(z) && z@ == crate::text::numeral(value as nat, 10),
{
    proof {
        crate::text::lemma_decimal_len(value);
        crate::text::law_numeral_digits(value as nat, 10);
    }
    let digits_len: usize = decimal_digits(value, buf);
    if digits_len + 1 > 32 {
        return Err(Errno(ENAMETOOLONG));
    }
    assert(buf@.take(digits_len as int) =~= crate::text::numeral(value as nat, 10));
    Ok(terminate(buf, digits_len))
}

/// Writes `value` in octal.
pub fn octal_cstr<'b>(value: u32, buf: &'b mut [u8; 16]) -> (r: Result<ZStr<'b>, Errno>)
    ensures
        r matches Ok(z) && z@ == crate::text::numeral(value as nat, 8),
{
    proof {
        crate::text::lemma_octal_len(value);
        crate::text::law_numeral_digits(value as nat, 8);
    }
    let digits_len: usize = octal_digits(value, buf);
    if digits_len + 1 > 16 {
        return Err(Errno(ENAMETOOLONG));
    }
    assert(buf@.take(digits_len as int) =~= crate::text::numeral(value as nat, 8));
    Ok(terminate(buf, digits_len))
}

/// A path that the filesystem setup hands to the kernel.
#[derive(Clone, Copy, Debug)]
pub enum Path<'a> {
    /// The root.
    Slash,
    /// Where the new root is assembled.
    NewRoot,
    /// The current directory.
    Dot,
    /// The empty path, for a call on a descriptor itself.
    Nothing,
    /// Where the old root would go, in the new root.
    PutOld,
    /// The same, as an absolute path after the root has changed.
    PutOldAbs,
    /// The directory of staging files, in the new root.
    Content,
    /// The same, as an absolute path after the root has changed.
    ContentAbs,
    /// A path of the plan.
    Given(ZStr<'a>),
    /// The directory that a path of the plan is in.
    ParentOf(ZStr<'a>),
    /// A path of the plan, below the new root.
    BelowNewRoot(ZStr<'a>),
    /// A staging file.
    StagingName(usize),
}

impl<'a> Path<'a> {
    /// The path, without its NUL.
    pub open spec fn text(self) -> Seq<u8> {
        match self {
            Path::Slash => vstd::utf8::encode_utf8("/"@),
            Path::NewRoot => new_root(),
            Path::Dot => vstd::utf8::encode_utf8("."@),
            Path::Nothing => vstd::utf8::encode_utf8(""@),
            Path::PutOld => vstd::utf8::encode_utf8(".old_root"@),
            Path::PutOldAbs => vstd::utf8::encode_utf8("/.old_root"@),
            Path::Content => vstd::utf8::encode_utf8(".pnut-content"@),
            Path::ContentAbs => vstd::utf8::encode_utf8("/.pnut-content"@),
            Path::Given(path) => path@,
            Path::ParentOf(path) => parent_of(path@),
            Path::BelowNewRoot(path) => below_new_root(path@),
            Path::StagingName(index) => staging_name(index as nat),
        }
    }

    /// Whether the path is composed by the setup, and so must fit its buffer.
    pub open spec fn is_composed(self) -> bool {
        self is ParentOf || self is BelowNewRoot || self is StagingName
    }

    /// Whether the path can be handed over: what the setup composes must fit
    /// its buffer.
    pub open spec fn fits(self) -> bool {
        self.is_composed() ==> self.text().len() + 1 <= MAX_PATH_BYTES
    }

    /// Gives the path as a C string, composed in `buf` if need be.
    pub fn render<'b>(self, buf: &'b mut [u8; MAX_PATH_BYTES]) -> (r: Result<ZStr<'b>, Errno>)
        where 'a: 'b
        ensures
            match r {
                Ok(z) => self.fits() && z@ == self.text(),
                Err(e) => !self.fits() && e == Errno(ENAMETOOLONG),
            },
    {
        match self {
            Path::Slash => {
                proof {
                    reveal_strlit("/\0");
                    reveal_strlit("/");
                    assert("/\0"@.drop_last() =~= "/"@);
                }
                Ok(fixed("/\0"))
            },
            Path::NewRoot => {
                proof {
                    reveal_strlit("/tmp/pnut-newroot\0");
                    reveal_strlit("/tmp/pnut-newroot");
                    assert("/tmp/pnut-newroot\0"@.drop_last() =~= "/tmp/pnut-newroot"@);
                }
                Ok(fixed("/tmp/pnut-newroot\0"))
            },
            Path::Dot => {
                proof {
                    reveal_strlit(".\0");
                    reveal_strlit(".");
                    assert(".\0"@.drop_last() =~= "."@);
                }
                Ok(fixed(".\0"))
            },
            Path::Nothing => {
                proof {
                    reveal_strlit("\0");
                    reveal_strlit("");
                    assert("\0"@.drop_last() =~= ""@);
                }
                Ok(fixed("\0"))
            },
            Path::PutOld => {
                proof {
                    reveal_strlit(".old_root\0");
                    reveal_strlit(".old_root");
                    assert(".old_root\0"@.drop_last() =~= ".old_root"@);
                }
                Ok(fixed(".old_root\0"))
            },
            Path::PutOldAbs => {
                proof {
                    reveal_strlit("/.old_root\0");
                    reveal_strlit("/.old_root");
                    assert("/.old_root\0"@.drop_last() =~= "/.old_root"@);
                }
                Ok(fixed("/.old_root\0"))
            },
            Path::Content => {
                proof {
                    reveal_strlit(".pnut-content\0");
                    reveal_strlit(".pnut-content");
                    assert(".pnut-content\0"@.drop_last() =~= ".pnut-content"@);
                }
                Ok(fixed(".pnut-content\0"))
            },
            Path::ContentAbs => {
                proof {
                    reveal_strlit("/.pnut-content\0");
                    reveal_strlit("/.pnut-content");
                    assert("/.pnut-content\0"@.drop_last() =~= "/.pnut-content"@);
                }
                Ok(fixed("/.pnut-content\0"))
            },
            Path::Given(path) => Ok(path),
            Path::ParentOf(path) => {
                let bytes: &[u8] = path.to_bytes();
                let end: usize = match find_last_slash(path) {
                    Some(end) => end,
                    None => 0,
                };
                if end > MAX_PATH_BYTES - 1 {
                    return Err(Errno(ENAMETOOLONG));
                }
                copy_at(buf, 0, &bytes[0..end]);
                assert(buf@.take(end as int) =~= parent_of(path@));
                Ok(terminate(buf, end))
            },
            Path::BelowNewRoot(path) => root_absolute_path(path, buf),
            Path::StagingName(index) => {
                let mut name: [u8; 64] = [0u8; 64];
                let z = staging_name_cstr(index, &mut name)?;
                proof {
                    crate::text::lemma_decimal_len(index as u64);
                    reveal_strlit("content-");
                    lemma_plain_text("content-"@);
                }
                let bytes: &[u8] = z.to_bytes();
                let len: usize = bytes.len();
                copy_at(buf, 0, bytes);
                assert(buf@.take(len as int) =~= staging_name(index as nat));
                Ok(terminate(buf, len))
            },
        }
    }
}

/// A filesystem that the setup creates.
#[derive(Clone, Copy, Debug, PartialEq, Eq, Structural)]
pub enum FsType {
    Tmpfs,
    Proc,
    Mqueue,
}

impl FsType {
    /// The filesystem's name.
    pub open spec fn text(self) -> Seq<u8> {
        match self {
            FsType::Tmpfs => vstd::utf8::encode_utf8("tmpfs"@),
            FsType::Proc => vstd::utf8::encode_utf8("proc"@),
            FsType::Mqueue => vstd::utf8::encode_utf8("mqueue"@),
        }
    }

    /// The filesystem's name.
    pub fn name(self) -> (r: ZStr<'static>)
        ensures
            r@ == self.text(),
    {
        match self {
            FsType::Tmpfs => {
                proof {
                    reveal_strlit("tmpfs\0");
                    reveal_strlit("tmpfs");
                    assert("tmpfs\0"@.drop_last() =~= "tmpfs"@);
                }
                fixed("tmpfs\0")
            },
            FsType::Proc => {
                proof {
                    reveal_strlit("proc\0");
                    reveal_strlit("proc");
                    assert("proc\0"@.drop_last() =~= "proc"@);
                }
                fixed("proc\0")
            },
            FsType::Mqueue => {
                proof {
                    reveal_strlit("mqueue\0");
                    reveal_strlit("mqueue");
                    assert("mqueue\0"@.drop_last() =~= "mqueue"@);
                }
                fixed("mqueue\0")
            },
        }
    }
}

/// A filesystem option.
#[derive(Clone, Copy, Debug, PartialEq, Eq, Structural)]
pub enum FsKey {
    Size,
    Mode,
    Subset,
    HidePid,
}

impl FsKey {
    /// The option's name.
    pub open spec fn text(self) -> Seq<u8> {
        match self {
            FsKey::Size => vstd::utf8::encode_utf8("size"@),
            FsKey::Mode => vstd::utf8::encode_utf8("mode"@),
            FsKey::Subset => vstd::utf8::encode_utf8("subset"@),
            FsKey::HidePid => vstd::utf8::encode_utf8("hidepid"@),
        }
    }

    /// The option's name.
    pub fn name(self) -> (r: ZStr<'static>)
        ensures
            r@ == self.text(),
    {
        match self {
            FsKey::Size => {
                proof {
                    reveal_strlit("size\0");
                    reveal_strlit("size");
                    assert("size\0"@.drop_last() =~= "size"@);
                }
                fixed("size\0")
            },
            FsKey::Mode => {
                proof {
                    reveal_strlit("mode\0");
                    reveal_strlit("mode");
                    assert("mode\0"@.drop_last() =~= "mode"@);
                }
                fixed("mode\0")
            },
            FsKey::Subset => {
                proof {
                    reveal_strlit("subset\0");
                    reveal_strlit("subset");
                    assert("subset\0"@.drop_last() =~= "subset"@);
                }
                fixed("subset\0")
            },
            FsKey::HidePid => {
                proof {
                    reveal_strlit("hidepid\0");
                    reveal_strlit("hidepid");
                    assert("hidepid\0"@.drop_last() =~= "hidepid"@);
                }
                fixed("hidepid\0")
            },
        }
    }
}

/// The value of a filesystem option.
#[derive(Clone, Copy, Debug, PartialEq, Eq, Structural)]
pub enum FsValue {
    Decimal(u64),
    Octal(u32),
    Subset(ProcSubset),
    HidePid(HidePid),
}

impl FsValue {
    /// The value, as the filesystem reads it.
    pub open spec fn text(self) -> Seq<u8> {
        match self {
            FsValue::Decimal(value) => crate::text::numeral(value as nat, 10),
            FsValue::Octal(value) => crate::text::numeral(value as nat, 8),
            FsValue::Subset(ProcSubset::Pid) => vstd::utf8::encode_utf8("pid"@),
            FsValue::HidePid(HidePid::Visible) => vstd::utf8::encode_utf8("0"@),
            FsValue::HidePid(HidePid::Hidden) => vstd::utf8::encode_utf8("1"@),
            FsValue::HidePid(HidePid::Invisible) => vstd::utf8::encode_utf8("invisible"@),
        }
    }

    /// Gives the value as a C string, composed in `buf` if need be.
    pub fn render<'b>(self, buf: &'b mut [u8; 32]) -> (r: Result<ZStr<'b>, Errno>)
        ensures
            r matches Ok(z) && z@ == self.text(),
    {
        match self {
            FsValue::Decimal(value) => decimal_cstr(value, buf),
            FsValue::Octal(value) => {
                let mut digits: [u8; 16] = [0u8; 16];
                let z = octal_cstr(value, &mut digits)?;
                proof {
                    crate::text::lemma_octal_len(value);
                }
                let bytes: &[u8] = z.to_bytes();
                let len: usize = bytes.len();
                copy_at(buf, 0, bytes);
                assert(buf@.take(len as int) =~= crate::text::numeral(value as nat, 8));
                Ok(terminate(buf, len))
            },
            FsValue::Subset(ProcSubset::Pid) => {
                proof {
                    reveal_strlit("pid\0");
                    reveal_strlit("pid");
                    assert("pid\0"@.drop_last() =~= "pid"@);
                }
                Ok(fixed("pid\0"))
            },
            FsValue::HidePid(HidePid::Visible) => {
                proof {
                    reveal_strlit("0\0");
                    reveal_strlit("0");
                    assert("0\0"@.drop_last() =~= "0"@);
                }
                Ok(fixed("0\0"))
            },
            FsValue::HidePid(HidePid::Hidden) => {
                proof {
                    reveal_strlit("1\0");
                    reveal_strlit("1");
                    assert("1\0"@.drop_last() =~= "1"@);
                }
                Ok(fixed("1\0"))
            },
            FsValue::HidePid(HidePid::Invisible) => {
                proof {
                    reveal_strlit("invisible\0");
                    reveal_strlit("invisible");
                    assert("invisible\0"@.drop_last() =~= "invisible"@);
                }
                Ok(fixed("invisible\0"))
            },
        }
    }
}

/// The place of the last slash of `path`.
pub fn find_last_slash(path: ZStr) -> (r: Option<usize>)
    ensures
        match r {
            Some(at) => at == last_slash(path@) && at < path@.len(),
            None => last_slash(path@) == -1,
        },
{
    let bytes: &[u8] = path.to_bytes();
    let mut n: usize = bytes.len();
    assert(bytes@.take(n as int) =~= bytes@);
    while n > 0
        invariant
            n <= bytes@.len(),
            bytes@ == path@,
            last_slash(bytes@) == last_slash(bytes@.take(n as int)),
        decreases n,
    {
        assert(bytes@.take(n as int).drop_last() =~= bytes@.take(n - 1));
        if bytes[n - 1] == 47 {
            return Some(n - 1);
        }
        n -= 1;
    }
    None
}

/// Different staging files have different names.
pub proof fn law_staging_names_differ(i: nat, j: nat)
    requires
        staging_name(i) == staging_name(j),
    ensures
        i == j,
{
    let prefix = vstd::utf8::encode_utf8("content-"@);
    let n = prefix.len() as int;
    assert(staging_name(i).skip(n) =~= crate::text::numeral(i, 10));
    assert(staging_name(j).skip(n) =~= crate::text::numeral(j, 10));
    crate::text::law_numeral_value(i, 10);
    crate::text::law_numeral_value(j, 10);
}

/// The paths of the setup, as the kernel is told them: helper directories are named in
/// the new root before the root changes and from the root afterwards, and what is
/// mounted is named below the new root.
pub proof fn law_paths_as_they_are_told(path: ZStr)
    ensures
        Path::Slash.text() == vstd::utf8::encode_utf8("/"@),
        Path::Dot.text() == vstd::utf8::encode_utf8("."@),
        Path::Nothing.text().len() == 0,
        Path::NewRoot.text() == vstd::utf8::encode_utf8("/tmp/pnut-newroot"@),
        Path::PutOld.text() == vstd::utf8::encode_utf8(".old_root"@),
        Path::Content.text() == vstd::utf8::encode_utf8(".pnut-content"@),
        Path::PutOldAbs.text() == Path::Slash.text() + Path::PutOld.text(),
        Path::ContentAbs.text() == Path::Slash.text() + Path::Content.text(),
        Path::Given(path).text() == path@,
        Path::BelowNewRoot(path).text() == Path::NewRoot.text() + Path::Slash.text() + path@,
{
    reveal_strlit("");
    reveal_strlit("/");
    reveal_strlit(".old_root");
    reveal_strlit("/.old_root");
    reveal_strlit(".pnut-content");
    reveal_strlit("/.pnut-content");
    lemma_plain_text(""@);
    lemma_plain_text("/"@);
    lemma_plain_text(".old_root"@);
    lemma_plain_text("/.old_root"@);
    lemma_plain_text(".pnut-content"@);
    lemma_plain_text("/.pnut-content"@);
    assert(Path::PutOldAbs.text() =~= Path::Slash.text() + Path::PutOld.text());
    assert(Path::ContentAbs.text() =~= Path::Slash.text() + Path::Content.text());
}

/// The directory that a path is in is what comes before its last slash, so that what
/// follows that slash has none.
pub proof fn law_directory_of_a_path(path: ZStr, p: int)
    requires
        0 <= p < path@.len(),
        path@[p] == 47,
        forall|k: int| p < k < path@.len() ==> #[trigger] path@[k] != 47,
    ensures
        Path::ParentOf(path).text() == path@.take(p),
{
    lemma_last_slash_is(path@, p);
}

proof fn lemma_last_slash_is(s: Seq<u8>, p: int)
    requires
        0 <= p < s.len(),
        s[p] == 47,
        forall|k: int| p < k < s.len() ==> #[trigger] s[k] != 47,
    ensures
        last_slash(s) == p,
    decreases s.len(),
{
    if s.last() != 47 {
        lemma_last_slash_is(s.drop_last(), p);
    }
}

/// A staging file is called `content-` and its number, in decimal.
pub proof fn law_name_of_a_staging_file(index: usize)
    ensures
        Path::StagingName(index).text().take(8) == vstd::utf8::encode_utf8("content-"@),
        crate::text::numeral_value(Path::StagingName(index).text().skip(8), 10) == index,
{
    reveal_strlit("content-");
    lemma_plain_text("content-"@);
    crate::text::law_numeral_value(index as nat, 10);
    let text = Path::StagingName(index).text();
    assert(text.take(8) =~= vstd::utf8::encode_utf8("content-"@));
    assert(text.skip(8) =~= crate::text::numeral(index as nat, 10));
}

/// A path can be handed over unless the setup composes it and it takes, with its NUL,
/// more than four thousand and ninety-six bytes.
pub proof fn law_which_paths_fit(path: Path)
    ensures
        path.fits() <==> !(path is ParentOf || path is BelowNewRoot || path is StagingName)
            || path.text().len() < 4096,
{
}

/// Filesystems and their options go by the names that the kernel has for them.
pub proof fn law_names_of_filesystems(fs: FsType, key: FsKey, a: ZStr<'static>, b: ZStr<'static>)
    requires
        call_ensures(FsType::name, (fs,), a),
        call_ensures(FsKey::name, (key,), b),
    ensures
        fs is Tmpfs ==> a@ == vstd::utf8::encode_utf8("tmpfs"@),
        fs is Proc ==> a@ == vstd::utf8::encode_utf8("proc"@),
        fs is Mqueue ==> a@ == vstd::utf8::encode_utf8("mqueue"@),
        key is Size ==> b@ == vstd::utf8::encode_utf8("size"@),
        key is Mode ==> b@ == vstd::utf8::encode_utf8("mode"@),
        key is Subset ==> b@ == vstd::utf8::encode_utf8("subset"@),
        key is HidePid ==> b@ == vstd::utf8::encode_utf8("hidepid"@),
{
}

/// A number is told as a numeral that stands for it, in the base that the option takes,
/// and everything else by its name.
pub proof fn law_values_of_options(v: u64, w: u32)
    ensures
        crate::text::numeral_value(FsValue::Decimal(v).text(), 10) == v,
        crate::text::numeral_value(FsValue::Octal(w).text(), 8) == w,
        FsValue::Subset(ProcSubset::Pid).text() == vstd::utf8::encode_utf8("pid"@),
        FsValue::HidePid(HidePid::Visible).text() == vstd::utf8::encode_utf8("0"@),
        FsValue::HidePid(HidePid::Hidden).text() == vstd::utf8::encode_utf8("1"@),
        FsValue::HidePid(HidePid::Invisible).text() == vstd::utf8::encode_utf8("invisible"@),
{
    crate::text::law_numeral_value(v as nat, 10);
    crate::text::law_numeral_value(w as nat, 8);
}

/// A path without a slash is in no directory but the one that it starts from.
pub proof fn law_path_without_a_slash(path: ZStr)
    requires
        forall|k: int| 0 <= k < path@.len() ==> #[trigger] path@[k] != 47,
    ensures
        Path::ParentOf(path).text().len() == 0,
{
    lemma_no_slash(path@);
}

proof fn lemma_no_slash(s: Seq<u8>)
    requires
        forall|k: int| 0 <= k < s.len() ==> #[trigger] s[k] != 47,
    ensures
        last_slash(s) == -1,
    decreases s.len(),
{
    if s.len() > 0 {
        lemma_no_slash(s.drop_last());
    }
}

} // verus!
