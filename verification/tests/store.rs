use imag_hooks::annotation::{
    annotation_path, annotations, is_within, AnnotationErrorKind, AnnotationNameGenerator,
    DefaultAnnotationNameGenerator, MODULE_ENTRY_PATH_NAME, NOTES_ENTRY_PATH_NAME,
};
use imag_hooks::create::{
    cli_spec_content, create_mode, raw_source, source_of_entry, ContentSource, CreateMode,
    EntrySpec, RawSource, StoreErrorKind,
};
use imag_hooks::error::{HookError, HookErrorKind};
use imag_hooks::hook::{Capability, LifecyclePoint, StoreAction, StoreId};
use imag_hooks::pipeline::{continues_after, HookPipeline, Registration};

fn id(path: &str) -> StoreId {
    StoreId::new(path.to_string())
}

fn registration(name: &str, point: LifecyclePoint, capability: Capability, aborting: bool) -> Registration {
    Registration { name: name.to_string(), point, capability, aborting }
}

#[test]
fn annotation_path_is_collection_slash_name() {
    assert_eq!(annotation_path("abc"), "annotation/abc");
    assert_eq!(annotation_path(""), "annotation/");
    assert_eq!(MODULE_ENTRY_PATH_NAME, "annotation");
    assert_eq!(NOTES_ENTRY_PATH_NAME, "notes");
}

#[test]
fn generated_paths_are_in_the_collection_and_differ() {
    let generator = DefaultAnnotationNameGenerator::new();
    let first = generator.generate_annotation_path().unwrap();
    let second = generator.generate_annotation_path().unwrap();
    assert!(first.starts_with("annotation/"));
    assert_eq!(first.len(), "annotation/".len() + 36);
    assert_eq!(second.len(), "annotation/".len() + 36);
    assert_ne!(first, second);
}

#[test]
fn within_goes_by_whole_components() {
    assert!(is_within("notes/annotation", "notes/annotation"));
    assert!(is_within("notes/annotation/abc", "notes/annotation"));
    assert!(is_within("notes/annotation/", "notes/annotation"));
    assert!(!is_within("notes/annotations/abc", "notes/annotation"));
    assert!(!is_within("notes/annot", "notes/annotation"));
    assert!(!is_within("mail/annotation/abc", "notes/annotation"));
    assert!(!is_within("", "notes"));
    assert!(is_within("anything", ""));
    assert!(is_within("n\u{f6}tes/\u{e4}", "n\u{f6}tes"));
}

#[test]
fn annotations_are_the_links_into_the_collection() {
    let links = vec![
        id("notes/annotation/1"),
        id("notes/shopping"),
        id("mail/1"),
        id("notes/annotation/2"),
        id("notes/annotationx/3"),
    ];
    assert_eq!(annotations(&links), vec![id("notes/annotation/1"), id("notes/annotation/2")]);
    assert_eq!(annotations(&vec![]), vec![]);
    assert_eq!(annotations(&vec![id("mail/1")]), vec![]);
}

#[test]
fn annotation_errors_have_their_descriptions() {
    assert_eq!(AnnotationErrorKind::StoreWriteError.description(), "Store write error");
    assert_eq!(AnnotationErrorKind::StoreReadError.description(), "Store read error");
    assert_eq!(AnnotationErrorKind::LinkError.description(), "Link error");
    assert_eq!(AnnotationErrorKind::LinkingError.description(), "Error while linking");
}

#[test]
fn content_comes_from_the_entry_subcommand_first() {
    let spec = |content: Option<&str>, from: Option<&str>| {
        Some(EntrySpec {
            content: content.map(|s| s.to_string()),
            content_from: from.map(|s| s.to_string()),
        })
    };
    let raw = || Some("raw.txt".to_string());
    assert_eq!(
        cli_spec_content(spec(Some("text"), Some("file.txt")), raw()),
        ContentSource::Inline("text".to_string())
    );
    assert_eq!(
        cli_spec_content(spec(None, Some("file.txt")), raw()),
        ContentSource::Raw("file.txt".to_string())
    );
    assert_eq!(cli_spec_content(spec(None, None), raw()), ContentSource::Empty);
    assert_eq!(cli_spec_content(None, raw()), ContentSource::Raw("raw.txt".to_string()));
    assert_eq!(cli_spec_content(None, None), ContentSource::Empty);
}

#[test]
fn entry_from_source_needs_a_source() {
    assert_eq!(source_of_entry(Some("-".to_string())), Ok("-".to_string()));
    assert_eq!(source_of_entry(None), Err(StoreErrorKind::NoCommandlineCall));
    assert_eq!(StoreErrorKind::NoCommandlineCall.description(), "No commandline call");
    assert_eq!(StoreErrorKind::BackendError.description(), "Backend Error");
}

#[test]
fn dash_is_the_standard_input() {
    assert_eq!(raw_source("-"), RawSource::Stdin);
    assert_eq!(raw_source("--"), RawSource::File("--".to_string()));
    assert_eq!(raw_source("entry.txt"), RawSource::File("entry.txt".to_string()));
    assert_eq!(raw_source(""), RawSource::File("".to_string()));
}

#[test]
fn create_goes_by_the_entry_subcommand() {
    assert_eq!(create_mode(true), CreateMode::FromCliSpec);
    assert_eq!(create_mode(false), CreateMode::FromSource);
}

#[test]
fn actions_and_moments_belong_together() {
    assert_eq!(LifecyclePoint::PreCreate.action(), StoreAction::Create);
    assert_eq!(LifecyclePoint::PostRetrieve.action(), StoreAction::Retrieve);
    assert_eq!(LifecyclePoint::PreUpdate.action(), StoreAction::Update);
    assert_eq!(LifecyclePoint::PostDelete.action(), StoreAction::Delete);
    assert_eq!(LifecyclePoint::SessionUnload.action(), StoreAction::StoreUnload);
    assert_eq!(StoreAction::StoreUnload.uppercase(), "STORE UNLOAD");
    assert_eq!(StoreAction::Create.uppercase(), "CREATE");
    assert_eq!(id("a/b").local(), "a/b");
    assert_eq!(id("a/b").clone(), id("a/b"));
}

#[test]
fn pipeline_calls_matching_hooks_in_registration_order() {
    let mut pipeline = HookPipeline::new();
    let unload = LifecyclePoint::SessionUnload;
    pipeline.register(registration("git", unload, Capability::IdentifierOnly, false));
    pipeline.register(registration("linkcheck", LifecyclePoint::PostUpdate, Capability::MutableEntry, true));
    pipeline.register(registration("debug", unload, Capability::ImmutableEntry, false));
    pipeline.register(registration("flock", unload, Capability::IdentifierOnly, true));
    assert_eq!(pipeline.len(), 4);
    assert_eq!(pipeline.dispatch(unload, Capability::IdentifierOnly), vec![0, 3]);
    assert_eq!(pipeline.dispatch(unload, Capability::ImmutableEntry), vec![2]);
    assert_eq!(pipeline.dispatch(unload, Capability::MutableEntry), Vec::<usize>::new());
    assert_eq!(pipeline.dispatch(LifecyclePoint::PostUpdate, Capability::MutableEntry), vec![1]);
    assert_eq!(pipeline.dispatch(LifecyclePoint::PreCreate, Capability::IdentifierOnly), vec![]);
    assert_eq!(pipeline.get(3).map(|r| r.name.as_str()), Some("flock"));
    assert_eq!(pipeline.get(4), None);
}

#[test]
fn pipeline_stops_only_after_an_aborting_failure() {
    let unload = LifecyclePoint::SessionUnload;
    let lenient = registration("git", unload, Capability::IdentifierOnly, false);
    let strict = registration("flock", unload, Capability::IdentifierOnly, true);
    let failed = || Err(HookError::new(HookErrorKind::RepositoryInitError));
    assert!(continues_after(&lenient, &Ok(())));
    assert!(continues_after(&strict, &Ok(())));
    assert!(continues_after(&lenient, &failed()));
    assert!(!continues_after(&strict, &failed()));
}
