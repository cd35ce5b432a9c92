//! Creating an entry from the command line: where its content comes from.
//! Reading the content and writing the entry is left to the caller.

use vstd::prelude::*;

verus! {

/// The classes of failure of the store commands.
#[derive(Clone, Copy, Debug, PartialEq, Eq, Structural)]
pub enum StoreErrorKind {
    BackendError,
    NoCommandlineCall,
}

/// The description of each class of failure.
pub open spec fn store_description(kind: StoreErrorKind) -> Seq<char> {
    match kind {
        StoreErrorKind::BackendError => "Backend Error"@,
        StoreErrorKind::NoCommandlineCall => "No commandline call"@,
    }
}

impl StoreErrorKind {
    /// A sentence for people.
    pub fn description(&self) -> (text: &'static str)
        ensures
            text@ == store_description(*self),
    {
        match self {
            StoreErrorKind::BackendError => "Backend Error",
            StoreErrorKind::NoCommandlineCall => "No commandline call",
        }
    }
}

/// What the `entry` subcommand was given.
#[derive(Debug, PartialEq, Eq)]
pub struct EntrySpec {
    /// `content`: the content itself.
    pub content: Option<String>,
    /// `content-from`: where to read the content.
    pub content_from: Option<String>,
}

/// Where the content of a new entry comes from.
#[derive(Debug, PartialEq, Eq)]
pub enum ContentSource {
    /// It was given on the command line.
    Inline(String),
    /// It is read from the standard input or from a file.
    Raw(String),
    /// There is none: the entry starts empty.
    Empty,
}

/// The mathematical value of a [`ContentSource`].
pub enum ContentSourceView {
    Inline(Seq<char>),
    Raw(Seq<char>),
    Empty,
}

impl View for ContentSource {
    type V = ContentSourceView;

    open spec fn view(&self) -> ContentSourceView {
        match self {
            ContentSource::Inline(s) => ContentSourceView::Inline(s@),
            ContentSource::Raw(s) => ContentSourceView::Raw(s@),
            ContentSource::Empty => ContentSourceView::Empty,
        }
    }
}

/// The mathematical value of an argument that may be missing.
pub open spec fn arg_view(arg: Option<String>) -> Option<Seq<char>> {
    match arg {
        Some(s) => Some(s@),
        None => None,
    }
}

/// With an `entry` subcommand, `content` wins over `content-from`, and
/// without either the entry is empty. Without the subcommand, `from-raw`
/// says where to read, and without that the entry is empty.
pub open spec fn content_source_of(
    entry: Option<(Option<Seq<char>>, Option<Seq<char>>)>,
    from_raw: Option<Seq<char>>,
) -> ContentSourceView {
    match entry {
        Some((Some(content), _)) => ContentSourceView::Inline(content),
        Some((None, Some(source))) => ContentSourceView::Raw(source),
        Some((None, None)) => ContentSourceView::Empty,
        None => match from_raw {
            Some(source) => ContentSourceView::Raw(source),
            None => ContentSourceView::Empty,
        },
    }
}

/// The mathematical value of what the `entry` subcommand was given.
pub open spec fn entry_view(entry: Option<EntrySpec>) -> Option<
    (Option<Seq<char>>, Option<Seq<char>>),
> {
    match entry {
        Some(spec) => Some((arg_view(spec.content), arg_view(spec.content_from))),
        None => None,
    }
}

/// Where the content comes from when the entry is described on the command
/// line.
pub fn cli_spec_content(entry: Option<EntrySpec>, from_raw: Option<String>) -> (source:
    ContentSource)
    ensures
        source@ == content_source_of(entry_view(entry), arg_view(from_raw)),
{
    match entry {
        Some(spec) => match spec.content {
            Some(content) => ContentSource::Inline(content),
            None => match spec.content_from {
                Some(source) => ContentSource::Raw(source),
                None => ContentSource::Empty,
            },
        },
        None => match from_raw {
            Some(source) => ContentSource::Raw(source),
            None => ContentSource::Empty,
        },
    }
}

/// Where the whole entry is read from when it is not described on the
/// command line: `from-raw` says where, and without it the command fails
/// with `NoCommandlineCall`.
pub fn source_of_entry(from_raw: Option<String>) -> (source: Result<String, StoreErrorKind>)
    ensures
        match from_raw {
            Some(raw) => source == Ok::<String, StoreErrorKind>(raw),
            None => source == Err::<String, StoreErrorKind>(StoreErrorKind::NoCommandlineCall),
        },
{
    match from_raw {
        Some(raw) => Ok(raw),
        None => Err(StoreErrorKind::NoCommandlineCall),
    }
}

/// What a raw source names.
#[derive(Debug, PartialEq, Eq)]
pub enum RawSource {
    /// `-`: the standard input.
    Stdin,
    /// Anything else: the file at this path.
    File(String),
}

/// What a raw source names: `-` is the standard input, anything else the
/// path of a file.
pub fn raw_source(raw_src: &str) -> (source: RawSource)
    ensures
        raw_src@ == "-"@ ==> source == RawSource::Stdin,
        raw_src@ != "-"@ ==> (source matches RawSource::File(path) && path@ == raw_src@),
{
    let given = String::from_str(raw_src);
    let dash = String::from_str("-");
    if given == dash {
        RawSource::Stdin
    } else {
        RawSource::File(given)
    }
}

/// How the `create` command makes its entry.
#[derive(Clone, Copy, Debug, PartialEq, Eq, Structural)]
pub enum CreateMode {
    /// From what the `entry` subcommand describes.
    FromCliSpec,
    /// From a raw source that holds the whole entry.
    FromSource,
}

/// With an `entry` subcommand the entry is made from what it describes,
/// without one from a raw source.
pub fn create_mode(has_entry_subcommand: bool) -> (mode: CreateMode)
    ensures
        mode == if has_entry_subcommand {
            CreateMode::FromCliSpec
        } else {
            CreateMode::FromSource
        },
{
    if has_entry_subcommand {
        CreateMode::FromCliSpec
    } else {
        CreateMode::FromSource
    }
}

} // verus!
