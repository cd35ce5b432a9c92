use imag_hooks::cache::MailCache;
use imag_hooks::hook::StoreId;
use imag_hooks::linker::{
    flags_to_str, Linker, LinkerAction, LinkerCause, LinkerError, LinkerErrorKind, LinkerOpts,
};
use imag_hooks::mail::{HeaderField, Mail, MailError, MailTable, MessageId};

fn header(value: Option<&str>) -> HeaderField {
    match value {
        Some(v) => HeaderField::Value(v.to_string()),
        None => HeaderField::Missing,
    }
}

fn mail(entry: &str, id: Option<&str>, reply_to: Option<&str>) -> Mail {
    Mail {
        entry: StoreId::new(entry.to_string()),
        message_id: header(id),
        in_reply_to: header(reply_to),
    }
}

fn link(from: &str, to: &str, from_id: &str, to_id: &str, announce: bool) -> LinkerAction {
    LinkerAction::Link {
        from: StoreId::new(from.to_string()),
        to: StoreId::new(to.to_string()),
        from_id: MessageId(from_id.to_string()),
        to_id: MessageId(to_id.to_string()),
        announce,
    }
}

fn construction(cause: LinkerCause) -> LinkerError {
    LinkerError { kind: LinkerErrorKind::LinkerConstructionError, cause }
}

fn thread() -> Vec<Mail> {
    vec![
        mail("mail/1", Some("<1@x>"), None),
        mail("mail/2", Some("<2@x>"), Some("<1@x>")),
        mail("mail/3", Some("<3@x>"), Some("<2@x>")),
        mail("mail/4", Some("<4@x>"), Some("<0@elsewhere>")),
    ]
}

#[test]
fn mail_headers_are_read_as_results() {
    let m = mail("mail/1", Some("<1@x>"), None);
    assert_eq!(m.get_message_id(), Ok(Some("<1@x>".to_string())));
    assert_eq!(m.get_in_reply_to(), Ok(None));
    let broken = Mail {
        entry: StoreId::new("mail/2".to_string()),
        message_id: HeaderField::Unreadable,
        in_reply_to: HeaderField::Value("<1@x>".to_string()),
    };
    assert_eq!(broken.get_message_id(), Err(MailError::HeaderUnreadable));
    assert_eq!(broken.get_in_reply_to(), Ok(Some("<1@x>".to_string())));
    assert_eq!(m.clone(), m);
}

#[test]
fn table_keeps_one_mail_per_id() {
    let table = MailTable::new();
    assert_eq!(table.len(), 0);
    let table = table.insert("<1@x>".to_string(), mail("mail/1", Some("<1@x>"), None), None);
    let table = table.insert("<2@x>".to_string(), mail("mail/2", Some("<2@x>"), None), None);
    let table = table.insert(
        "<1@x>".to_string(),
        mail("mail/9", Some("<1@x>"), None),
        Some("<2@x>".to_string()),
    );
    assert_eq!(table.len(), 2);
    assert_eq!(table.position(&"<1@x>".to_string()), Some(0));
    assert_eq!(table.position(&"<2@x>".to_string()), Some(1));
    assert_eq!(table.position(&"<3@x>".to_string()), None);
    assert!(table.get(&"<3@x>".to_string()).is_none());
    let first = table.get(&"<1@x>".to_string()).unwrap();
    assert_eq!(first.id, "<1@x>");
    assert_eq!(first.mail.entry, StoreId::new("mail/9".to_string()));
    assert_eq!(first.reply_to, Some("<2@x>".to_string()));
}

#[test]
fn linker_is_built_from_mails_with_ids() {
    let linker = Linker::build(thread(), LinkerOpts::empty()).unwrap();
    assert_eq!(linker.len(), 4);
    assert!(linker.contains(&"<3@x>".to_string()));
    assert!(!linker.contains(&"<0@elsewhere>".to_string()));
    assert_eq!(linker.flags(), LinkerOpts::empty());
}

#[test]
fn linker_refuses_mail_without_message_id() {
    let mails = vec![mail("mail/1", Some("<1@x>"), None), mail("mail/2", None, Some("<1@x>"))];
    let built = Linker::build(mails, LinkerOpts::empty());
    let cause = LinkerCause::Linker(LinkerErrorKind::NoMessageIdFoundError);
    assert_eq!(built.err(), Some(construction(cause)));
}

#[test]
fn linker_leaves_out_mail_without_message_id_when_told() {
    let mails = vec![mail("mail/1", Some("<1@x>"), None), mail("mail/2", None, Some("<1@x>"))];
    let flags = LinkerOpts { ignore_import_nomsgid: true, ..LinkerOpts::empty() };
    let linker = Linker::build(mails, flags).unwrap();
    assert_eq!(linker.len(), 1);
    assert!(linker.contains(&"<1@x>".to_string()));
}

#[test]
fn linker_refuses_unreadable_headers() {
    let unreadable_id = Mail {
        entry: StoreId::new("mail/1".to_string()),
        message_id: HeaderField::Unreadable,
        in_reply_to: HeaderField::Missing,
    };
    let all = LinkerOpts {
        ignore_import_nomsgid: true,
        ignore_import_reptoerr: true,
        return_soon: false,
        print_info: false,
    };
    let cause = LinkerCause::Mail(MailError::HeaderUnreadable);
    assert_eq!(Linker::build(vec![unreadable_id], all).err(), Some(construction(cause)));
    let unreadable_reply = || Mail {
        entry: StoreId::new("mail/2".to_string()),
        message_id: HeaderField::Value("<2@x>".to_string()),
        in_reply_to: HeaderField::Unreadable,
    };
    let cause = LinkerCause::Mail(MailError::HeaderUnreadable);
    assert_eq!(
        Linker::build(vec![unreadable_reply()], LinkerOpts::empty()).err(),
        Some(construction(cause))
    );
    let lenient = LinkerOpts { ignore_import_reptoerr: true, ..LinkerOpts::empty() };
    let mut linker = Linker::build(vec![unreadable_reply()], lenient).unwrap();
    assert_eq!(linker.len(), 1);
    assert_eq!(linker.run(None), LinkerAction::Finish(Ok(())));
}

#[test]
fn linker_fails_at_the_first_bad_mail() {
    let mails = vec![
        mail("mail/1", None, None),
        Mail {
            entry: StoreId::new("mail/2".to_string()),
            message_id: HeaderField::Unreadable,
            in_reply_to: HeaderField::Missing,
        },
    ];
    let cause = LinkerCause::Linker(LinkerErrorKind::NoMessageIdFoundError);
    assert_eq!(Linker::build(mails, LinkerOpts::empty()).err(), Some(construction(cause)));
}

#[test]
fn linker_links_each_answer_to_its_mail() {
    let mut linker = Linker::build(thread(), LinkerOpts::empty()).unwrap();
    assert_eq!(linker.run(None), link("mail/2", "mail/1", "<2@x>", "<1@x>", false));
    assert_eq!(linker.run(Some(Ok(()))), link("mail/3", "mail/2", "<3@x>", "<2@x>", false));
    assert_eq!(linker.run(Some(Ok(()))), LinkerAction::Finish(Ok(())));
    assert_eq!(linker.run(None), LinkerAction::Finish(Ok(())));
}

#[test]
fn linker_announces_links_when_told() {
    let flags = LinkerOpts { print_info: true, ..LinkerOpts::empty() };
    let mut linker = Linker::build(thread(), flags).unwrap();
    assert_eq!(linker.run(None), link("mail/2", "mail/1", "<2@x>", "<1@x>", true));
}

#[test]
fn linker_passes_over_a_failed_link() {
    let mut linker = Linker::build(thread(), LinkerOpts::empty()).unwrap();
    linker.run(None);
    let next = linker.run(Some(Err("entry is locked".to_string())));
    assert_eq!(next, link("mail/3", "mail/2", "<3@x>", "<2@x>", false));
    assert_eq!(linker.run(Some(Err("again".to_string()))), LinkerAction::Finish(Ok(())));
}

#[test]
fn linker_returns_soon_when_told() {
    let flags = LinkerOpts { return_soon: true, ..LinkerOpts::empty() };
    let mut linker = Linker::build(thread(), flags).unwrap();
    linker.run(None);
    let next = linker.run(Some(Err("entry is locked".to_string())));
    let error = LinkerError {
        kind: LinkerErrorKind::LinkerError,
        cause: LinkerCause::Link("entry is locked".to_string()),
    };
    assert_eq!(next, LinkerAction::Finish(Err(error)));
    assert_eq!(linker.run(None), LinkerAction::Finish(Ok(())));
}

#[test]
fn linker_later_mail_replaces_earlier_with_same_id() {
    let mails = vec![
        mail("mail/1", Some("<1@x>"), None),
        mail("mail/2", Some("<2@x>"), Some("<1@x>")),
        mail("mail/1b", Some("<1@x>"), Some("<2@x>")),
    ];
    let mut linker = Linker::build(mails, LinkerOpts::empty()).unwrap();
    assert_eq!(linker.len(), 2);
    assert_eq!(linker.run(None), link("mail/1b", "mail/2", "<1@x>", "<2@x>", false));
    assert_eq!(linker.run(Some(Ok(()))), link("mail/2", "mail/1b", "<2@x>", "<1@x>", false));
    assert_eq!(linker.run(Some(Ok(()))), LinkerAction::Finish(Ok(())));
}

#[test]
fn linker_links_a_mail_that_answers_itself() {
    let mails = vec![mail("mail/1", Some("<1@x>"), Some("<1@x>"))];
    let mut linker = Linker::build(mails, LinkerOpts::empty()).unwrap();
    assert_eq!(linker.run(None), link("mail/1", "mail/1", "<1@x>", "<1@x>", false));
}

#[test]
fn linker_of_nothing_has_nothing_to_link() {
    let mut linker = Linker::build(vec![], LinkerOpts::empty()).unwrap();
    assert_eq!(linker.len(), 0);
    assert_eq!(linker.run(None), LinkerAction::Finish(Ok(())));
}

#[test]
fn options_have_words_for_two_of_them() {
    let soon = LinkerOpts { return_soon: true, ..LinkerOpts::empty() };
    let info = LinkerOpts { print_info: true, ..LinkerOpts::empty() };
    let both = LinkerOpts { return_soon: true, print_info: true, ..LinkerOpts::empty() };
    assert_eq!(flags_to_str(&soon), Some("Return as soon as an error occurs"));
    assert_eq!(flags_to_str(&info), Some("Print information if linking succeeded"));
    assert_eq!(flags_to_str(&both), None);
    assert_eq!(flags_to_str(&LinkerOpts::empty()), None);
    assert_eq!(soon.to_text(), "Return as soon as an error occurs");
    assert_eq!(LinkerOpts::empty().to_text(), "");
}

#[test]
fn linker_errors_have_their_descriptions() {
    assert_eq!(
        LinkerErrorKind::LinkerConstructionError.description(),
        "Error while build()ing the Linker object"
    );
    assert_eq!(LinkerErrorKind::NoMessageIdFoundError.description(), "No Message-Id for mail found");
    assert_eq!(LinkerErrorKind::LinkerError.description(), "Error while linking mails");
}

#[test]
fn cache_starts_empty() {
    let cache = MailCache::new();
    assert_eq!(cache.len(), 0);
    assert_eq!(cache.get(&"<1@x>".to_string()), None);
}

#[test]
fn cache_holds_each_mail_under_its_id() {
    let cache = MailCache::from_iter(thread()).unwrap();
    assert_eq!(cache.len(), 4);
    assert_eq!(
        cache.get(&"<2@x>".to_string()),
        Some(&mail("mail/2", Some("<2@x>"), Some("<1@x>")))
    );
    assert_eq!(cache.get(&"<0@elsewhere>".to_string()), None);
}

#[test]
fn cache_later_mail_replaces_earlier_with_same_id() {
    let mails = vec![mail("mail/1", Some("<1@x>"), None), mail("mail/1b", Some("<1@x>"), None)];
    let cache = MailCache::from_iter(mails).unwrap();
    assert_eq!(cache.len(), 1);
    assert_eq!(cache.get(&"<1@x>".to_string()), Some(&mail("mail/1b", Some("<1@x>"), None)));
}

#[test]
fn cache_refuses_mail_without_message_id() {
    let mails = vec![mail("mail/1", Some("<1@x>"), None), mail("mail/2", None, None)];
    assert_eq!(MailCache::from_iter(mails).err(), Some(MailError::NoMessageId));
    let broken = Mail {
        entry: StoreId::new("mail/3".to_string()),
        message_id: HeaderField::Unreadable,
        in_reply_to: HeaderField::Missing,
    };
    assert_eq!(MailCache::from_iter(vec![broken]).err(), Some(MailError::HeaderUnreadable));
    assert_eq!(MailCache::from_iter(vec![]).unwrap().len(), 0);
}
