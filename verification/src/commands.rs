//! The decisions of the command-line tool: where the stream comes from, where it goes, and
//! how the descrambler and the input buffer are set up.
use crate::numbers::{
    append_decimal, bounded_value, chars_of, decimal, digit_value, digits_value,
    lemma_decimal_reads_back,
    lemma_digits_value_none, parse_u64_from,
};
use vstd::prelude::*;
use vstd::string::StringExecFns;

verus! {

/// The input buffer size used when no valid size is configured.
pub const INPUT_BUF_DEFAULT: usize = 200000;

/// The input buffer size that a configured value asks for: the value read as a decimal
/// `usize` (as `str::parse` reads it), or [`INPUT_BUF_DEFAULT`] when it is not one.
pub open spec fn buffer_size_for(setting: Seq<char>) -> usize {
    match bounded_value(setting, 10, usize::MAX as nat) {
        Some(v) => v as usize,
        None => INPUT_BUF_DEFAULT,
    }
}

/// The input buffer size for the configured value `setting` (empty when nothing is configured).
pub fn input_buffer_size(setting: &str) -> (r: usize)
    ensures
        r == buffer_size_for(setting@),
{
    let c = chars_of(setting);
    match parse_u64_from(&c, 0, 10) {
        Some(v) => {
            assert(c@.skip(0) =~= c@);
            if v <= usize::MAX as u64 {
                v as usize
            } else {
                INPUT_BUF_DEFAULT
            }
        },
        None => {
            assert(c@.skip(0) =~= c@);
            proof {
                if bounded_value(c@, 10, usize::MAX as nat) is Some {
                    assert(usize::MAX as nat <= u64::MAX as nat);
                }
            }
            INPUT_BUF_DEFAULT
        },
    }
}

/// The configured size is read in decimal: the decimal digits of a size that fits in `usize`,
/// with or without a `+` in front, give that size, and those of a larger number give the
/// default.
pub proof fn lemma_buffer_size_reads_decimal(n: nat)
    ensures
        buffer_size_for(decimal(n)) == (if n <= usize::MAX {
            n as usize
        } else {
            INPUT_BUF_DEFAULT
        }),
        buffer_size_for(seq!['+'] + decimal(n)) == buffer_size_for(decimal(n)),
{
    lemma_decimal_reads_back(n);
    let d = decimal(n);
    assert(d.len() > 0);
    assert((seq!['+'] + d).drop_first() =~= d);
    assert('0' <= d[0] <= '9') by {
        assert(digits_value(d, 10) is Some);
        if !('0' <= d[0] <= '9') {
            assert(digit_value(d[0], 10) is None);
            lemma_digits_value_none(d, 10, 0);
        }
    }
}

/// A setting that is not a decimal number gives the default size: an empty setting, a lone
/// `+`, and any setting with a character that is neither a decimal digit nor a `+` in front.
pub proof fn lemma_buffer_size_default(s: Seq<char>, i: int)
    ensures
        buffer_size_for(Seq::<char>::empty()) == INPUT_BUF_DEFAULT,
        buffer_size_for(seq!['+']) == INPUT_BUF_DEFAULT,
        (0 <= i < s.len() && !('0' <= s[i] <= '9') && !(i == 0 && s[i] == '+'))
            ==> buffer_size_for(s) == INPUT_BUF_DEFAULT,
{
    assert(seq!['+'].drop_first() =~= Seq::<char>::empty());
    if 0 <= i < s.len() && !('0' <= s[i] <= '9') && !(i == 0 && s[i] == '+') {
        let plus = s.len() > 0 && s[0] == '+';
        let d = if plus {
            s.drop_first()
        } else {
            s
        };
        let j = if plus {
            i - 1
        } else {
            i
        };
        assert(d[j] == s[i]);
        assert(digit_value(d[j], 10) is None);
        lemma_digits_value_none(d, 10, j);
    }
}

fn is_text(s: &str, expected: &[char]) -> (r: bool)
    ensures
        r == (s@ == expected@),
{
    let c = chars_of(s);
    if c.len() != expected.len() {
        return false;
    }
    let mut i: usize = 0;
    while i < c.len()
        invariant
            i <= c.len(),
            c.len() == expected.len(),
            c@ == s@,
            forall|j: int| 0 <= j < i ==> c@[j] == expected@[j],
        decreases c.len() - i,
    {
        if c[i] != expected[i] {
            return false;
        }
        i = i + 1;
    }
    assert(c@ =~= expected@);
    true
}

/// Where the stream is read from.
#[derive(Debug, PartialEq, Eq)]
pub enum Source {
    /// A tuned device.
    Tuner,
    /// The standard input.
    Stdin,
    /// The file at this path.
    File(String),
}

/// The source named by the arguments: a tuner when a device and a channel are given without a
/// source, the standard input for the source `-`, a file for any other source given without a
/// device and a channel, and none for any other combination.
pub fn choose_source(has_device: bool, has_channel: bool, source: Option<String>) -> (r: Option<
    Source,
>)
    ensures
        (has_device && has_channel && source is None) ==> r == Some(Source::Tuner),
        (!has_device && !has_channel && source is Some) ==> (if source->Some_0@ == seq!['-'] {
            r == Some(Source::Stdin)
        } else {
            r == Some(Source::File(source->Some_0))
        }),
        !((has_device && has_channel && source is None) || (!has_device && !has_channel
            && source is Some)) ==> r is None,
{
    proof {
        assert(['-']@ =~= seq!['-']);
    }
    match source {
        None => {
            if has_device && has_channel {
                Some(Source::Tuner)
            } else {
                None
            }
        },
        Some(src) => {
            if has_device || has_channel {
                None
            } else if is_text(src.as_str(), &['-']) {
                Some(Source::Stdin)
            } else {
                Some(Source::File(src))
            }
        },
    }
}

/// Where the stream is written, before the file system is looked at.
#[derive(Debug, PartialEq, Eq)]
pub enum OutputRequest {
    /// The standard output, asked for with `-`.
    Stdout,
    /// The null device, `/dev/null`.
    NullDevice,
    /// Any other path.
    Path(String),
}

/// The output asked for by the argument: `-` is the standard output, `/dev/null` the null
/// device, anything else a path; none when no argument is given.
pub fn output_request(path: Option<String>) -> (r: Option<OutputRequest>)
    ensures
        path is None ==> r is None,
        path matches Some(p) ==> (if p@ == seq!['-'] {
            r == Some(OutputRequest::Stdout)
        } else if p@ == seq!['/', 'd', 'e', 'v', '/', 'n', 'u', 'l', 'l'] {
            r == Some(OutputRequest::NullDevice)
        } else {
            r == Some(OutputRequest::Path(p))
        }),
{
    proof {
        assert(['-']@ =~= seq!['-']);
        assert(['/', 'd', 'e', 'v', '/', 'n', 'u', 'l', 'l']@ =~= seq!['/', 'd', 'e', 'v', '/', 'n', 'u', 'l', 'l']);
    }
    match path {
        None => None,
        Some(p) => {
            if is_text(p.as_str(), &['-']) {
                Some(OutputRequest::Stdout)
            } else if is_text(p.as_str(), &['/', 'd', 'e', 'v', '/', 'n', 'u', 'l', 'l']) {
                Some(OutputRequest::NullDevice)
            } else {
                Some(OutputRequest::Path(p))
            }
        },
    }
}

/// How an output path is turned into a file.
#[derive(Debug, Clone, Copy, PartialEq, Eq, Structural)]
pub enum PathPlan {
    /// Create (or truncate) the file at the path.
    CreateFile,
    /// The path is a directory: create a file named after the current time in it.
    FileInDirectory,
    /// Create the directory at the path, then a file named after the current time in it.
    CreateDirectoryThenFileIn,
    /// Create the parent directory if it is missing, then the file at the path.
    CreateParentThenFile,
}

/// Whether a path names a directory by its form: it ends with `/`, or with `\` on Windows.
pub open spec fn names_directory(path: Seq<char>, windows: bool) -> bool {
    path.len() > 0 && (path.last() == '/' || (windows && path.last() == '\\'))
}

/// The plan for an output path: an existing file is overwritten, an existing directory gets a
/// new file, a missing path that names a directory is created as one, and any other missing
/// path is created as a file.
pub open spec fn plan_for(path: Seq<char>, exists: bool, is_file: bool, windows: bool) -> PathPlan {
    if exists {
        if is_file {
            PathPlan::CreateFile
        } else {
            PathPlan::FileInDirectory
        }
    } else if names_directory(path, windows) {
        PathPlan::CreateDirectoryThenFileIn
    } else {
        PathPlan::CreateParentThenFile
    }
}

/// What is done with an output path: an existing file is overwritten and an existing directory
/// gets a new file, whatever the path looks like; a missing path whose last character is `/`
/// (or `\` on Windows) is created as a directory; every other missing path, absolute or
/// relative, is created as a file after its parent directory.
pub proof fn lemma_path_plan_cases(path: Seq<char>, exists: bool, is_file: bool, windows: bool)
    ensures
        exists && is_file ==> plan_for(path, exists, is_file, windows) == PathPlan::CreateFile,
        exists && !is_file ==> plan_for(path, exists, is_file, windows)
            == PathPlan::FileInDirectory,
        !exists && path.len() > 0 && path.last() == '/' ==> plan_for(path, exists, is_file, windows)
            == PathPlan::CreateDirectoryThenFileIn,
        !exists && windows && path.len() > 0 && path.last() == '\\' ==> plan_for(
            path,
            exists,
            is_file,
            windows,
        ) == PathPlan::CreateDirectoryThenFileIn,
        !exists && (path.len() == 0 || (path.last() != '/' && !(windows && path.last() == '\\')))
            ==> plan_for(path, exists, is_file, windows) == PathPlan::CreateParentThenFile,
        plan_for(path, exists, is_file, windows) == PathPlan::CreateFile <==> exists && is_file,
{
}

/// Whether a path is absolute does not change its plan: a path and the same path after a
/// leading `/` are handled alike.
pub proof fn lemma_path_plan_ignores_root(path: Seq<char>, exists: bool, is_file: bool, windows: bool)
    requires
        path.len() > 0,
    ensures
        plan_for(seq!['/'] + path, exists, is_file, windows) == plan_for(
            path,
            exists,
            is_file,
            windows,
        ),
{
    assert((seq!['/'] + path).last() == path.last());
}

/// The plan for the output path `path`, given what the file system says of it.
pub fn path_plan(path: &str, exists: bool, is_file: bool, windows: bool) -> (r: PathPlan)
    ensures
        r == plan_for(path@, exists, is_file, windows),
{
    if exists {
        if is_file {
            PathPlan::CreateFile
        } else {
            PathPlan::FileInDirectory
        }
    } else {
        let c = chars_of(path);
        let n = c.len();
        if n > 0 && (c[n - 1] == '/' || (windows && c[n - 1] == '\\')) {
            PathPlan::CreateDirectoryThenFileIn
        } else {
            PathPlan::CreateParentThenFile
        }
    }
}

/// Whether the character at `i` belongs to the root of a Unix path: a separator, or a `.`
/// that stands alone between separators.
pub open spec fn root_char(p: Seq<char>, i: int) -> bool {
    p[i] == '/' || (p[i] == '.' && i > 0 && p[i - 1] == '/' && (i + 1 == p.len() || p[i + 1]
        == '/'))
}

/// Whether a Unix path has a parent, as `Path::parent` decides on Unix: it has none when it
/// is empty or is the root, possibly written with repeated separators and `.` components.
pub open spec fn has_parent(p: Seq<char>) -> bool {
    p.len() > 0 && !(p[0] == '/' && forall|i: int| 0 <= i < p.len() ==> #[trigger] root_char(p, i))
}

/// Whether the Unix path `path` has a parent directory (see [`has_parent`]); an output path
/// without one is refused.
pub fn path_has_parent(path: &str) -> (r: bool)
    ensures
        r == has_parent(path@),
{
    let c = chars_of(path);
    let n = c.len();
    if n == 0 {
        return false;
    }
    if c[0] != '/' {
        return true;
    }
    let mut i: usize = 0;
    while i < n
        invariant
            c@ == path@,
            n == c.len(),
            n > 0,
            c@[0] == '/',
            i <= n,
            forall|j: int| 0 <= j < i ==> #[trigger] root_char(c@, j),
        decreases n - i,
    {
        let ok = c[i] == '/' || (c[i] == '.' && i > 0 && c[i - 1] == '/' && (i + 1 == n || c[i
            + 1] == '/'));
        if !ok {
            assert(!root_char(c@, i as int));
            return true;
        }
        i = i + 1;
    }
    false
}

/// Which Unix paths have a parent: not the empty path, nor one made only of separators; but
/// every other relative path, and every absolute path with a character other than `/` and `.`.
pub proof fn lemma_parent_cases(p: Seq<char>, i: int)
    ensures
        p.len() == 0 ==> !has_parent(p),
        p.len() > 0 && p[0] != '/' ==> has_parent(p),
        (p.len() > 0 && forall|j: int| 0 <= j < p.len() ==> p[j] == '/') ==> !has_parent(p),
        (p.len() > 0 && p[0] == '/' && 0 <= i < p.len() && p[i] != '/' && p[i] != '.')
            ==> has_parent(p),
{
    if p.len() > 0 && forall|j: int| 0 <= j < p.len() ==> p[j] == '/' {
        assert forall|j: int| 0 <= j < p.len() implies #[trigger] root_char(p, j) by {
            assert(p[j] == '/');
        }
    }
    if p.len() > 0 && p[0] == '/' && 0 <= i < p.len() && p[i] != '/' && p[i] != '.' {
        assert(!root_char(p, i));
    }
}

/// The name of a recording made in directory `dir` at `secs` seconds after the epoch:
/// `dir/secs.m2ts`.
pub fn file_name_in(dir: &str, secs: u64) -> (r: String)
    ensures
        r@ == dir@ + seq!['/'] + decimal(secs as nat) + seq!['.', 'm', '2', 't', 's'],
{
    let mut name = dir.to_owned();
    let slash = "/";
    proof {
        reveal_strlit("/");
    }
    name.append(slash);
    append_decimal(&mut name, secs);
    let suffix = ".m2ts";
    proof {
        reveal_strlit(".m2ts");
    }
    name.append(suffix);
    name
}

/// The settings of the descrambler.
#[derive(Debug, Clone, Copy, PartialEq, Eq, Structural)]
pub struct DescramblerSettings {
    /// Whether working keys were given.
    pub enable_working_key: bool,
    /// Whether SIMD instructions may be used.
    pub simd: bool,
    /// Whether null packets are stripped.
    pub strip: bool,
}

/// The descrambler the flags ask for: none when decoding is off, and otherwise one that uses
/// the working keys if given, SIMD unless `no_simd`, and stripping unless `no_strip`.
pub fn descrambler_settings(
    decode: bool,
    working_keys_given: bool,
    no_simd: bool,
    no_strip: bool,
) -> (r: Option<DescramblerSettings>)
    ensures
        !decode ==> r is None,
        decode ==> r == Some(
            DescramblerSettings {
                enable_working_key: working_keys_given,
                simd: !no_simd,
                strip: !no_strip,
            },
        ),
{
    if decode {
        Some(DescramblerSettings { enable_working_key: working_keys_given, simd: !no_simd, strip: !no_strip })
    } else {
        None
    }
}

} // verus!
