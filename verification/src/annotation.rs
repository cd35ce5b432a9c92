//! Annotations: notes of their own, linked to the entry they comment on.
//! Here are the names they are stored under, and how they are told apart
//! from the other entries that an entry is linked to.

use vstd::prelude::*;
use vstd::string::StrSliceExecFns;
use crate::hook::StoreId;

verus! {

/// The collection that annotations are stored in.
pub const MODULE_ENTRY_PATH_NAME: &'static str = "annotation";

/// The collection that notes are stored in; annotations are notes.
pub const NOTES_ENTRY_PATH_NAME: &'static str = "notes";

/// The classes of failure of annotating.
#[derive(Clone, Copy, Debug, PartialEq, Eq, Structural)]
pub enum AnnotationErrorKind {
    StoreReadError,
    StoreWriteError,
    LinkError,
    LinkingError,
}

/// The description of each class of failure.
pub open spec fn annotation_description(kind: AnnotationErrorKind) -> Seq<char> {
    match kind {
        AnnotationErrorKind::StoreReadError => "Store read error"@,
        AnnotationErrorKind::StoreWriteError => "Store write error"@,
        AnnotationErrorKind::LinkError => "Link error"@,
        AnnotationErrorKind::LinkingError => "Error while linking"@,
    }
}

impl AnnotationErrorKind {
    /// A sentence for people.
    pub fn description(&self) -> (text: &'static str)
        ensures
            text@ == annotation_description(*self),
    {
        match self {
            AnnotationErrorKind::StoreReadError => "Store read error",
            AnnotationErrorKind::StoreWriteError => "Store write error",
            AnnotationErrorKind::LinkError => "Link error",
            AnnotationErrorKind::LinkingError => "Error while linking",
        }
    }
}

/// A failure of annotating, with the words of the collaborator that failed.
#[derive(Debug, PartialEq, Eq)]
pub struct AnnotationError {
    pub kind: AnnotationErrorKind,
    pub cause: Option<String>,
}

/// An annotation: the note that was stored for it.
#[derive(Debug, PartialEq, Eq)]
pub struct Annotation {
    pub id: StoreId,
}

impl View for Annotation {
    type V = Seq<char>;

    open spec fn view(&self) -> Seq<char> {
        self.id@
    }
}

/// The path of the annotation with the given unique name, within the notes:
/// the collection of the annotations, a slash, the name.
pub open spec fn annotation_path_of(unique: Seq<char>) -> Seq<char> {
    MODULE_ENTRY_PATH_NAME@ + "/"@ + unique
}

/// The path of the annotation with the given unique name.
pub fn annotation_path(unique: &str) -> (path: String)
    ensures
        path@ == annotation_path_of(unique@),
{
    String::from_str(MODULE_ENTRY_PATH_NAME).concat("/").concat(unique)
}

/// Generates a unique path for the annotation to be stored under.
pub trait AnnotationNameGenerator {
    fn generate_annotation_path(&self) -> Result<String, AnnotationError>;
}

/// Generates paths in the collection of the annotations, each with a random
/// name of its own.
#[derive(Clone, Copy, Debug)]
pub struct DefaultAnnotationNameGenerator;

/// Calls `uuid::Uuid::new_v4` and writes the id out through its `Display`,
/// in the hyphenated form. Trusted: that form has 36 characters. Nothing is
/// said of which: they are random.
#[verifier::external_body]
fn random_name() -> (name: String)
    ensures
        name@.len() == 36,
{
    uuid::Uuid::new_v4().to_string()
}

impl DefaultAnnotationNameGenerator {
    pub fn new() -> DefaultAnnotationNameGenerator {
        DefaultAnnotationNameGenerator
    }
}

impl AnnotationNameGenerator for DefaultAnnotationNameGenerator {
    /// Never fails. The path is that of some name of 36 characters.
    fn generate_annotation_path(&self) -> (generated: Result<String, AnnotationError>)
        ensures
            generated matches Ok(path) && exists|unique: Seq<char>|
                unique.len() == 36 && path@ == #[trigger] annotation_path_of(unique),
    {
        let unique = random_name();
        let path = annotation_path(unique.as_str());
        assert(path@ == annotation_path_of(unique@));
        Ok(path)
    }
}

/// Whether `path` lies within the collection `base`: it is `base` itself, or
/// `base`, a slash, and more. Everything lies within the collection without
/// a name.
pub open spec fn lies_within(path: Seq<char>, base: Seq<char>) -> bool {
    ||| base.len() == 0
    ||| {
        &&& base.len() <= path.len()
        &&& path.subrange(0, base.len() as int) == base
        &&& path.len() > base.len() ==> path[base.len() as int] == '/'
    }
}

/// Whether `path` lies within the collection `base`.
pub fn is_within(path: &str, base: &str) -> (within: bool)
    ensures
        within == lies_within(path@, base@),
{
    let base_len = base.unicode_len();
    let path_len = path.unicode_len();
    if base_len == 0 {
        return true;
    }
    if base_len > path_len {
        return false;
    }
    let mut i: usize = 0;
    while i < base_len
        invariant
            i <= base_len <= path_len,
            base_len == base@.len(),
            path_len == path@.len(),
            forall|j: int| 0 <= j < i ==> path@[j] == base@[j],
        decreases base_len - i,
    {
        if path.get_char(i) != base.get_char(i) {
            assert(path@.subrange(0, base@.len() as int)[i as int] != base@[i as int]);
            return false;
        }
        i += 1;
    }
    assert(path@.subrange(0, base@.len() as int) =~= base@);
    if path_len > base_len {
        path.get_char(base_len) == '/'
    } else {
        true
    }
}

/// The collection under which the store holds the annotations: that of the
/// notes, a slash, that of the annotations.
pub open spec fn annotation_collection() -> Seq<char> {
    NOTES_ENTRY_PATH_NAME@ + "/"@ + MODULE_ENTRY_PATH_NAME@
}

/// Whether an entry is an annotation, going by where it is stored.
pub open spec fn is_annotation(id: Seq<char>) -> bool {
    lies_within(id, annotation_collection())
}

/// The mathematical values of a list of identifiers.
pub open spec fn id_views(ids: Seq<StoreId>) -> Seq<Seq<char>> {
    ids.map_values(|id: StoreId| id@)
}

/// Of the entries that an entry is linked to, those that are annotations, in
/// their order.
pub fn annotations(links: &Vec<StoreId>) -> (found: Vec<StoreId>)
    ensures
        id_views(found@) == id_views(links@).filter(|id: Seq<char>| is_annotation(id)),
{
    let collection = String::from_str(NOTES_ENTRY_PATH_NAME).concat("/").concat(
        MODULE_ENTRY_PATH_NAME,
    );
    let ghost views = id_views(links@);
    let ghost wanted = |id: Seq<char>| is_annotation(id);
    let mut found: Vec<StoreId> = Vec::new();
    let mut i: usize = 0;
    proof {
        reveal(Seq::filter);
        assert(views.take(0) =~= Seq::<Seq<char>>::empty());
        assert(id_views(found@) =~= views.take(0).filter(wanted));
    }
    while i < links.len()
        invariant
            i <= links.len(),
            views == id_views(links@),
            wanted == |id: Seq<char>| is_annotation(id),
            collection@ == annotation_collection(),
            id_views(found@) == views.take(i as int).filter(wanted),
        decreases links.len() - i,
    {
        let id = &links[i];
        let ghost before = found@;
        proof {
            reveal(Seq::filter);
            assert(views.take(i + 1).drop_last() =~= views.take(i as int));
            assert(views.take(i + 1).last() == id@);
        }
        if is_within(id.local(), collection.as_str()) {
            found.push(id.clone());
            assert(id_views(found@) =~= id_views(before).push(id@));
        }
        i += 1;
    }
    assert(views.take(links.len() as int) =~= views);
    found
}

} // verus!
