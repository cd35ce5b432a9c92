//! The linker takes mails and links each one to the mail it answers, going
//! by their message ids.
//!
//! Building a linker reads the headers and sorts the mails into a table.
//! Running it is a dialogue: [`Linker::run`] names the next pair to link,
//! the caller links the two entries and tells how that went.

use vstd::prelude::*;
use crate::hook::StoreId;
use crate::mail::{
    empty_table, table_insert, table_wf, HeaderView, Mail, MailError, MailTable, MailView,
    MemMailView, MessageId, TableView,
};

verus! {

/// How a linker treats mails it cannot use, and what it tells of its work.
#[derive(Clone, Copy, Debug, PartialEq, Eq, Structural)]
pub struct LinkerOpts {
    /// Leave out mails that have no `Message-ID`.
    pub ignore_import_nomsgid: bool,
    /// Treat an `In-Reply-To` that cannot be read as missing.
    pub ignore_import_reptoerr: bool,
    /// Stop at the first link that fails.
    pub return_soon: bool,
    /// Announce each link that was made.
    pub print_info: bool,
}

impl LinkerOpts {
    /// No option set.
    pub fn empty() -> (opts: LinkerOpts)
        ensures
            opts == (LinkerOpts {
                ignore_import_nomsgid: false,
                ignore_import_reptoerr: false,
                return_soon: false,
                print_info: false,
            }),
    {
        LinkerOpts {
            ignore_import_nomsgid: false,
            ignore_import_reptoerr: false,
            return_soon: false,
            print_info: false,
        }
    }

    /// Only `return_soon` is set.
    pub open spec fn is_return_soon(self) -> bool {
        self.return_soon && !self.print_info && !self.ignore_import_nomsgid
            && !self.ignore_import_reptoerr
    }

    /// Only `print_info` is set.
    pub open spec fn is_print_info(self) -> bool {
        self.print_info && !self.return_soon && !self.ignore_import_nomsgid
            && !self.ignore_import_reptoerr
    }

    /// What [`flags_to_str`] says of the options; nothing where it has no
    /// words for them.
    pub fn to_text(&self) -> (text: String)
        ensures
            text@ == match describe(*self) {
                Some(words) => words,
                None => Seq::<char>::empty(),
            },
    {
        match flags_to_str(self) {
            Some(words) => String::from_str(words),
            None => String::new(),
        }
    }
}

/// The words for a set of options: there are some for `return_soon` alone
/// and for `print_info` alone.
pub open spec fn describe(flags: LinkerOpts) -> Option<Seq<char>> {
    if flags.is_return_soon() {
        Some("Return as soon as an error occurs"@)
    } else if flags.is_print_info() {
        Some("Print information if linking succeeded"@)
    } else {
        None
    }
}

/// The words for a set of options, where there are any.
pub fn flags_to_str(flgs: &LinkerOpts) -> (words: Option<&'static str>)
    ensures
        describe(*flgs) == match words {
            Some(w) => Some(w@),
            None => None,
        },
{
    let others = flgs.ignore_import_nomsgid || flgs.ignore_import_reptoerr;
    if flgs.return_soon && !flgs.print_info && !others {
        Some("Return as soon as an error occurs")
    } else if flgs.print_info && !flgs.return_soon && !others {
        Some("Print information if linking succeeded")
    } else {
        None
    }
}

/// The classes of failure of a linker.
#[derive(Clone, Copy, Debug, PartialEq, Eq, Structural)]
pub enum LinkerErrorKind {
    LinkerConstructionError,
    NoMessageIdFoundError,
    LinkerError,
}

/// The description of each class of failure.
pub open spec fn linker_description(kind: LinkerErrorKind) -> Seq<char> {
    match kind {
        LinkerErrorKind::LinkerConstructionError => "Error while build()ing the Linker object"@,
        LinkerErrorKind::NoMessageIdFoundError => "No Message-Id for mail found"@,
        LinkerErrorKind::LinkerError => "Error while linking mails"@,
    }
}

impl LinkerErrorKind {
    /// A sentence for people.
    pub fn description(&self) -> (text: &'static str)
        ensures
            text@ == linker_description(*self),
    {
        match self {
            LinkerErrorKind::LinkerConstructionError => "Error while build()ing the Linker object",
            LinkerErrorKind::NoMessageIdFoundError => "No Message-Id for mail found",
            LinkerErrorKind::LinkerError => "Error while linking mails",
        }
    }
}

/// What lies behind a failure of the linker.
#[derive(Debug, PartialEq, Eq)]
pub enum LinkerCause {
    /// A failure of the linker itself, of this kind.
    Linker(LinkerErrorKind),
    /// A mail could not be read.
    Mail(MailError),
    /// Linking two entries failed; these are the words of whoever tried.
    Link(String),
}

/// The mathematical value of a [`LinkerCause`].
pub enum LinkerCauseView {
    Linker(LinkerErrorKind),
    Mail(MailError),
    Link(Seq<char>),
}

impl View for LinkerCause {
    type V = LinkerCauseView;

    open spec fn view(&self) -> LinkerCauseView {
        match self {
            LinkerCause::Linker(kind) => LinkerCauseView::Linker(*kind),
            LinkerCause::Mail(e) => LinkerCauseView::Mail(*e),
            LinkerCause::Link(words) => LinkerCauseView::Link(words@),
        }
    }
}

/// A failure of the linker, with its cause.
#[derive(Debug, PartialEq, Eq)]
pub struct LinkerError {
    pub kind: LinkerErrorKind,
    pub cause: LinkerCause,
}

/// The mathematical value of a [`LinkerError`].
pub struct LinkerErrorView {
    pub kind: LinkerErrorKind,
    pub cause: LinkerCauseView,
}

impl View for LinkerError {
    type V = LinkerErrorView;

    open spec fn view(&self) -> LinkerErrorView {
        LinkerErrorView { kind: self.kind, cause: self.cause@ }
    }
}

/// The failure to build a linker, for the given reason.
pub open spec fn construction_error(cause: LinkerCauseView) -> LinkerErrorView {
    LinkerErrorView { kind: LinkerErrorKind::LinkerConstructionError, cause }
}

/// What the linker makes of one mail: the id and the mail to keep, nothing
/// for a mail that is left out, or the failure that ends the building.
///
/// A `Message-ID` that cannot be read always fails. An `In-Reply-To` that
/// cannot be read fails unless `ignore_import_reptoerr` is set, in which
/// case the mail counts as answering none. A mail without `Message-ID` is
/// left out if `ignore_import_nomsgid` is set, and fails otherwise.
pub open spec fn enroll(mail: MailView, flags: LinkerOpts) -> Result<
    Option<(Seq<char>, MemMailView)>,
    LinkerErrorView,
> {
    if mail.message_id is Unreadable {
        Err(construction_error(LinkerCauseView::Mail(MailError::HeaderUnreadable)))
    } else if mail.in_reply_to is Unreadable && !flags.ignore_import_reptoerr {
        Err(construction_error(LinkerCauseView::Mail(MailError::HeaderUnreadable)))
    } else {
        let reply_to = match mail.in_reply_to {
            HeaderView::Value(r) => Some(r),
            _ => None,
        };
        match mail.message_id {
            HeaderView::Value(id) => Ok(Some((id, MemMailView { mail, reply_to }))),
            _ => if flags.ignore_import_nomsgid {
                Ok(None)
            } else {
                Err(
                    construction_error(
                        LinkerCauseView::Linker(LinkerErrorKind::NoMessageIdFoundError),
                    ),
                )
            },
        }
    }
}

/// The table that holds `table` and, taken in their order, the mails
/// from position `from` on; or the first failure among these.
pub open spec fn collect_from(
    mails: Seq<MailView>,
    flags: LinkerOpts,
    table: TableView,
    from: int,
) -> Result<TableView, LinkerErrorView>
    decreases mails.len() - from,
{
    if from < 0 || from >= mails.len() {
        Ok(table)
    } else {
        match enroll(mails[from], flags) {
            Err(e) => Err(e),
            Ok(None) => collect_from(mails, flags, table, from + 1),
            Ok(Some((id, kept))) => collect_from(
                mails,
                flags,
                table_insert(table, id, kept),
                from + 1,
            ),
        }
    }
}

/// The table of all the mails, or the first failure.
pub open spec fn collect(mails: Seq<MailView>, flags: LinkerOpts) -> Result<
    TableView,
    LinkerErrorView,
> {
    collect_from(mails, flags, empty_table(), 0)
}

/// The mathematical values of a list of mails.
pub open spec fn mail_views(mails: Seq<Mail>) -> Seq<MailView> {
    mails.map_values(|m: Mail| m@)
}

/// The id of the mail that the mail at `place` answers, if the table holds
/// that mail too.
pub open spec fn link_target(table: TableView, place: int) -> Option<Seq<char>> {
    match table.mails[table.order[place]].reply_to {
        Some(r) => if table.mails.dom().contains(r) {
            Some(r)
        } else {
            None
        },
        None => None,
    }
}

/// The first place from `from` on whose mail answers a mail of the table.
pub open spec fn next_link(table: TableView, from: int) -> Option<int>
    decreases table.order.len() - from,
{
    if from < 0 || from >= table.order.len() {
        None
    } else if link_target(table, from) is Some {
        Some(from)
    } else {
        next_link(table, from + 1)
    }
}

/// The mathematical value of a [`Linker`].
pub struct LinkerView {
    pub table: TableView,
    pub flags: LinkerOpts,
    /// The place from which the next pair is looked for.
    pub cursor: int,
}

/// What the linker asks for next.
#[derive(Debug, PartialEq, Eq)]
pub enum LinkerAction {
    /// Link the entry `from` to the entry `to`: the mail `from_id` answers
    /// the mail `to_id`. Announce the link once it is made if `announce`
    /// says so.
    Link { from: StoreId, to: StoreId, from_id: MessageId, to_id: MessageId, announce: bool },
    /// Nothing more: this is the result of the run.
    Finish(Result<(), LinkerError>),
}

/// The mathematical value of a [`LinkerAction`].
pub enum LinkerActionView {
    Link { from: Seq<char>, to: Seq<char>, from_id: Seq<char>, to_id: Seq<char>, announce: bool },
    Finish(Result<(), LinkerErrorView>),
}

impl View for LinkerAction {
    type V = LinkerActionView;

    open spec fn view(&self) -> LinkerActionView {
        match self {
            LinkerAction::Link { from, to, from_id, to_id, announce } => LinkerActionView::Link {
                from: from@,
                to: to@,
                from_id: from_id@,
                to_id: to_id@,
                announce: *announce,
            },
            LinkerAction::Finish(Ok(())) => LinkerActionView::Finish(Ok(())),
            LinkerAction::Finish(Err(e)) => LinkerActionView::Finish(Err(e@)),
        }
    }
}

/// The mathematical value of what the caller reports of the last link.
pub open spec fn report_view(last: Option<Result<(), String>>) -> Option<Result<(), Seq<char>>> {
    match last {
        None => None,
        Some(Ok(())) => Some(Ok(())),
        Some(Err(words)) => Some(Err(words@)),
    }
}

/// One step of a run. A failed link ends the run with a `LinkerError` if
/// `return_soon` is set, and is passed over if not. Otherwise the next mail
/// that answers a mail of the table is linked to it; when there is none
/// left, the run ends well.
pub open spec fn linker_step(linker: LinkerView, last: Option<Result<(), Seq<char>>>) -> (
    LinkerView,
    LinkerActionView,
) {
    let ended = LinkerView { cursor: linker.table.order.len() as int, ..linker };
    match last {
        Some(Err(words)) if linker.flags.return_soon => (
            ended,
            LinkerActionView::Finish(
                Err(
                    LinkerErrorView {
                        kind: LinkerErrorKind::LinkerError,
                        cause: LinkerCauseView::Link(words),
                    },
                ),
            ),
        ),
        _ => match next_link(linker.table, linker.cursor) {
            Some(place) => {
                let from_id = linker.table.order[place];
                let to_id = link_target(linker.table, place).unwrap();
                (
                    LinkerView { cursor: place + 1, ..linker },
                    LinkerActionView::Link {
                        from: linker.table.mails[from_id].mail.entry,
                        to: linker.table.mails[to_id].mail.entry,
                        from_id,
                        to_id,
                        announce: linker.flags.print_info,
                    },
                )
            },
            None => (ended, LinkerActionView::Finish(Ok(()))),
        },
    }
}

/// The place that [`next_link`] finds lies at or behind `from`, within the
/// table, and its mail answers a mail of the table.
pub proof fn lemma_next_link(table: TableView, from: int)
    requires
        0 <= from,
    ensures
        next_link(table, from) matches Some(place) ==> from <= place < table.order.len()
            && link_target(table, place) is Some,
    decreases table.order.len() - from,
{
    if from < table.order.len() && link_target(table, from) is None {
        lemma_next_link(table, from + 1);
    }
}

/// Each step of a run moves forward: a `Link` names a mail of the table and
/// the mail that it answers, also of the table, and leaves the cursor
/// further on; a `Finish` leaves it at the end. So a run asks for at most
/// one link for each mail.
pub proof fn law_linker_moves_forward(linker: LinkerView, last: Option<Result<(), Seq<char>>>)
    requires
        table_wf(linker.table),
        0 <= linker.cursor,
    ensures
        match linker_step(linker, last).1 {
            LinkerActionView::Link { from, to, from_id, to_id, announce } => {
                &&& linker.table.mails.dom().contains(from_id)
                &&& linker.table.mails.dom().contains(to_id)
                &&& linker.table.mails[from_id].reply_to == Some(to_id)
                &&& from == linker.table.mails[from_id].mail.entry
                &&& to == linker.table.mails[to_id].mail.entry
                &&& linker.cursor < linker_step(linker, last).0.cursor <= linker.table.order.len()
            },
            LinkerActionView::Finish(_) => linker_step(linker, last).0.cursor
                == linker.table.order.len(),
        },
{
    lemma_next_link(linker.table, linker.cursor);
}

/// Mails by message id, ready to be linked.
#[derive(Debug)]
pub struct Linker {
    h: MailTable,
    flags: LinkerOpts,
    cursor: usize,
}

impl View for Linker {
    type V = LinkerView;

    closed spec fn view(&self) -> LinkerView {
        LinkerView { table: self.h@, flags: self.flags, cursor: self.cursor as int }
    }
}

impl Linker {
    /// Sorts the mails into a linker. Fails with a
    /// `LinkerConstructionError` at the first mail that [`enroll`] refuses.
    pub fn build(i: Vec<Mail>, flags: LinkerOpts) -> (built: Result<Linker, LinkerError>)
        ensures
            match collect(mail_views(i@), flags) {
                Ok(table) => built matches Ok(linker) && linker@ == (LinkerView {
                    table,
                    flags,
                    cursor: 0,
                }),
                Err(e) => built matches Err(error) && error@ == e,
            },
    {
        let ghost mails = mail_views(i@);
        let mut h = MailTable::new();
        let mut n: usize = 0;
        while n < i.len()
            invariant
                n <= i.len(),
                mails == mail_views(i@),
                collect(mails, flags) == collect_from(mails, flags, h@, n as int),
            decreases i.len() - n,
        {
            let mail = i[n].clone();
            assert(mail@ == mails[n as int]);
            let id = match mail.get_message_id() {
                Ok(id) => id,
                Err(e) => {
                    return Err(
                        LinkerError {
                            kind: LinkerErrorKind::LinkerConstructionError,
                            cause: LinkerCause::Mail(e),
                        },
                    );
                },
            };
            let inrepto_id = match mail.get_in_reply_to() {
                Ok(r) => r,
                Err(e) => if flags.ignore_import_reptoerr {
                    None
                } else {
                    return Err(
                        LinkerError {
                            kind: LinkerErrorKind::LinkerConstructionError,
                            cause: LinkerCause::Mail(e),
                        },
                    );
                },
            };
            match id {
                Some(id) => {
                    h = h.insert(id, mail, inrepto_id);
                },
                None => {
                    if !flags.ignore_import_nomsgid {
                        return Err(
                            LinkerError {
                                kind: LinkerErrorKind::LinkerConstructionError,
                                cause: LinkerCause::Linker(LinkerErrorKind::NoMessageIdFoundError),
                            },
                        );
                    }
                },
            }
            n += 1;
        }
        Ok(Linker { h, flags, cursor: 0 })
    }

    /// How many mails the linker holds.
    pub fn len(&self) -> (n: usize)
        ensures
            n == self@.table.order.len(),
            table_wf(self@.table),
    {
        self.h.len()
    }

    /// The options that the linker was built with.
    pub fn flags(&self) -> (flags: LinkerOpts)
        ensures
            flags == self@.flags,
    {
        self.flags
    }

    /// Whether the linker holds a mail with this id.
    pub fn contains(&self, id: &String) -> (held: bool)
        ensures
            held == self@.table.mails.dom().contains(id@),
    {
        self.h.position(id).is_some()
    }

    /// Run the linker, one step at a time.
    ///
    /// Call it first with `None`. Each `Link` that it returns is for the
    /// caller to make; the next call takes the result of that, with the
    /// words of the failure if it failed. `Finish` holds the result of the
    /// whole run.
    pub fn run(&mut self, last: Option<Result<(), String>>) -> (action: LinkerAction)
        ensures
            final(self)@ == linker_step(old(self)@, report_view(last)).0,
            action@ == linker_step(old(self)@, report_view(last)).1,
    {
        let total = self.h.len();
        let ghost report = report_view(last);
        match last {
            Some(Err(words)) => {
                if self.flags.return_soon {
                    self.cursor = total;
                    return LinkerAction::Finish(
                        Err(
                            LinkerError {
                                kind: LinkerErrorKind::LinkerError,
                                cause: LinkerCause::Link(words),
                            },
                        ),
                    );
                }
            },
            _ => {},
        }
        let mut place: usize = self.cursor;
        while place < total
            invariant
                total == self.h@.order.len(),
                self.h == old(self).h,
                self.flags == old(self).flags,
                table_wf(self.h@),
                report == report_view(last),
                !(report matches Some(Err(_)) && old(self).flags.return_soon),
                next_link(self.h@, old(self).cursor as int) == next_link(self.h@, place as int),
            decreases total - place,
        {
            let slot = self.h.slot(place);
            match &slot.reply_to {
                Some(r) => {
                    match self.h.position(r) {
                        Some(target) => {
                            let other = self.h.slot(target);
                            let action = LinkerAction::Link {
                                from: slot.mail.entry.clone(),
                                to: other.mail.entry.clone(),
                                from_id: MessageId(slot.id.clone()),
                                to_id: MessageId(r.clone()),
                                announce: self.flags.print_info,
                            };
                            self.cursor = place + 1;
                            assert(link_target(self.h@, place as int) == Some(r@));
                            assert(next_link(self.h@, place as int) == Some(place as int));
                            return action;
                        },
                        None => {},
                    }
                },
                None => {},
            }
            place += 1;
        }
        self.cursor = total;
        LinkerAction::Finish(Ok(()))
    }
}

} // verus!
