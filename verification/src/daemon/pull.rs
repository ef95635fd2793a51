//! Pulling an image into the node cache: what the outcome of `msb pull` means.

use vstd::prelude::*;

use crate::collections;
use crate::paths;
use crate::text;

verus! {

/// Why an image is not in the cache.
#[derive(Debug, PartialEq)]
pub enum PullError {
    /// The puller could not be started.
    Spawn { image: String, source: String },
    /// The puller failed. `code` is its exit code, or says that a signal ended it.
    Exit { image: String, code: String, stderr: String },
    /// The puller left no disk behind.
    NoArtifacts { image: String, cache: String },
}

#[verifier::ext_equal]
pub enum PullErrorView {
    Spawn { image: Seq<char>, source: Seq<char> },
    Exit { image: Seq<char>, code: Seq<char>, stderr: Seq<char> },
    NoArtifacts { image: Seq<char>, cache: Seq<char> },
}

impl View for PullError {
    type V = PullErrorView;

    open spec fn view(&self) -> PullErrorView {
        match *self {
            PullError::Spawn { image, source } => PullErrorView::Spawn {
                image: image@,
                source: source@,
            },
            PullError::Exit { image, code, stderr } => PullErrorView::Exit {
                image: image@,
                code: code@,
                stderr: stderr@,
            },
            PullError::NoArtifacts { image, cache } => PullErrorView::NoArtifacts {
                image: image@,
                cache: cache@,
            },
        }
    }
}

/// What a pull error says.
pub open spec fn pull_error_text(e: PullErrorView) -> Seq<char> {
    match e {
        PullErrorView::Spawn { image, source } => "spawning `msb pull "@ + image + "`: "@ + source,
        PullErrorView::Exit { image, code, stderr } => "`msb pull "@ + image + "` exited "@ + code
            + ": "@ + stderr,
        PullErrorView::NoArtifacts { image, cache } => "`msb pull "@ + image
            + "` left no VMDK under "@ + cache,
    }
}

impl PullError {
    /// The error in words.
    pub fn message(&self) -> (out: String)
        ensures
            out@ == pull_error_text(self@),
    {
        match self {
            PullError::Spawn { image, source } => "spawning `msb pull ".to_owned().concat(
                image.as_str(),
            ).concat("`: ").concat(source.as_str()),
            PullError::Exit { image, code, stderr } => "`msb pull ".to_owned().concat(
                image.as_str(),
            ).concat("` exited ").concat(code.as_str()).concat(": ").concat(stderr.as_str()),
            PullError::NoArtifacts { image, cache } => "`msb pull ".to_owned().concat(
                image.as_str(),
            ).concat("` left no VMDK under ").concat(cache.as_str()),
        }
    }
}

/// How a process ended.
#[derive(Debug, PartialEq)]
pub struct ProcessEnd {
    pub success: bool,
    /// The exit code; a process that a signal ended has none.
    pub code: Option<i32>,
    pub stderr: Vec<u8>,
}

/// What the end of the puller means.
pub open spec fn exit_outcome(
    image: Seq<char>,
    spawned: Result<ProcessEnd, String>,
) -> Option<PullErrorView> {
    match spawned {
        Err(source) => Some(PullErrorView::Spawn { image, source: source@ }),
        Ok(end) => if end.success {
            None
        } else {
            Some(
                PullErrorView::Exit {
                    image,
                    code: match end.code {
                        Some(c) => text::dec_int(c as int),
                        None => "signal"@,
                    },
                    stderr: text::trimmed(text::lossy_text(end.stderr@)),
                },
            )
        },
    }
}

/// What the end of the puller means: an error where it could not be started, and
/// where it failed.
pub fn check_exit(image: &str, spawned: Result<ProcessEnd, String>) -> (r: Result<(), PullError>)
    ensures
        r is Ok <==> exit_outcome(image@, spawned) is None,
        r matches Err(e) ==> exit_outcome(image@, spawned) == Some(e@),
{
    let end = match spawned {
        Ok(end) => end,
        Err(source) => {
            return Err(PullError::Spawn { image: image.to_owned(), source });
        },
    };
    if end.success {
        return Ok(());
    }
    let code = match end.code {
        Some(c) => text::decimal_signed(c as i64),
        None => "signal".to_owned(),
    };
    let stderr = text::trim(text::from_utf8_lossy(end.stderr.as_slice()).as_str());
    Err(PullError::Exit { image: image.to_owned(), code, stderr })
}

/// Whether a file of this name is a cached disk: its extension is `vmdk`.
pub open spec fn is_vmdk(file_name: Seq<char>) -> bool {
    text::has_suffix(file_name, ".vmdk"@) && file_name.len() > ".vmdk"@.len()
}

/// Whether a file of this name is a cached disk.
fn vmdk(file_name: &str) -> (r: bool)
    ensures
        r == is_vmdk(file_name@),
{
    match text::strip_suffix(file_name, ".vmdk") {
        Some(stem) => stem.as_str().unicode_len() > 0,
        None => false,
    }
}

/// Where the cached disks are.
pub fn vmdk_dir(msb_home: &str) -> (out: String)
    ensures
        out@ == paths::joined(msb_home@, "cache/vmdk"@),
{
    paths::join(msb_home, "cache/vmdk")
}

/// Whether a listing of files holds a cached disk.
pub open spec fn holds_vmdk(names: Seq<Seq<char>>) -> bool {
    exists|i: int| 0 <= i < names.len() && is_vmdk(#[trigger] names[i])
}

/// That the puller left a disk behind, given the names of the files where the
/// disks are: a silent no-op must not pass as a populated cache.
pub fn check_artifacts(image: &str, msb_home: &str, names: &Vec<String>) -> (r: Result<
    (),
    PullError,
>)
    ensures
        r is Ok <==> holds_vmdk(collections::views(names@)),
        r matches Err(e) ==> e@ == (PullErrorView::NoArtifacts {
            image: image@,
            cache: paths::joined(msb_home@, "cache"@),
        }),
{
    let ghost all = collections::views(names@);
    let mut i: usize = 0;
    while i < names.len()
        invariant
            i <= names.len(),
            all == collections::views(names@),
            forall|k: int| 0 <= k < i ==> !is_vmdk(#[trigger] all[k]),
        decreases names.len() - i,
    {
        assert(all[i as int] == names@[i as int]@);
        if vmdk(names[i].as_str()) {
            return Ok(());
        }
        i = i + 1;
    }
    Err(
        PullError::NoArtifacts { image: image.to_owned(), cache: paths::join(msb_home, "cache") },
    )
}

/// A pull counts as done exactly where the puller was started and says that it succeeded.
/// A failure names the image, and how the puller ended.
pub proof fn a_pull_is_done_where_the_puller_says_so(
    image: Seq<char>,
    spawned: Result<ProcessEnd, String>,
)
    ensures
        exit_outcome(image, spawned) is None <==> spawned is Ok && spawned->Ok_0.success,
        spawned is Err ==> exit_outcome(image, spawned) == Some(
            PullErrorView::Spawn { image, source: spawned->Err_0@ },
        ),
        spawned is Ok && !spawned->Ok_0.success ==> {
            let e = exit_outcome(image, spawned)->0;
            &&& e is Exit
            &&& e->Exit_image == image
            &&& spawned->Ok_0.code matches Some(c) ==> e->code == text::dec_int(c as int)
            &&& spawned->Ok_0.code is None ==> e->code == "signal"@
            &&& e->stderr == text::trimmed(text::lossy_text(spawned->Ok_0.stderr@))
        },
{
}

/// A file counts as a cached disk for its extension alone: any name does with `.vmdk`
/// behind it, and no name that ends otherwise. The bare extension is no file's name.
pub proof fn a_disk_is_told_by_its_extension(stem: Seq<char>, name: Seq<char>)
    ensures
        is_vmdk(stem + ".vmdk"@) <==> stem.len() > 0,
        is_vmdk(name) ==> exists|s: Seq<char>| s.len() > 0 && name == #[trigger] (s + ".vmdk"@),
{
    reveal_strlit(".vmdk");
    assert(".vmdk"@.len() == 5);
    assert((stem + ".vmdk"@).skip(stem.len() as int) =~= ".vmdk"@);
    if is_vmdk(name) {
        let s = name.take(name.len() - 5);
        assert(name =~= s + ".vmdk"@);
    }
}

/// An image is in the cache where its directory lists a disk, wherever in the list.
pub proof fn a_listed_disk_is_found(names: Seq<Seq<char>>, stem: Seq<char>, i: int)
    requires
        0 <= i < names.len(),
        stem.len() > 0,
        names[i] == stem + ".vmdk"@,
    ensures
        holds_vmdk(names),
{
    a_disk_is_told_by_its_extension(stem, names[i]);
}

} // verus!
