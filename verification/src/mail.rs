//! Mails as the linker and the cache see them: where the mail is stored,
//! and what reading its `Message-ID` and `In-Reply-To` headers gave. Also
//! the table by message id that both keep their mails in.

use vstd::prelude::*;
use crate::hook::StoreId;

verus! {

/// The id that a mail gives itself in its `Message-ID` header.
#[derive(Debug, PartialEq, Eq)]
pub struct MessageId(pub String);

impl View for MessageId {
    type V = Seq<char>;

    open spec fn view(&self) -> Seq<char> {
        self.0@
    }
}

impl Clone for MessageId {
    fn clone(&self) -> (copy: MessageId)
        ensures
            copy@ == self@,
    {
        MessageId(self.0.clone())
    }
}

/// What reading one header of a mail gave.
#[derive(Debug, PartialEq, Eq)]
pub enum HeaderField {
    /// The header is there, with this value.
    Value(String),
    /// The mail has no such header.
    Missing,
    /// The mail could not be read or parsed.
    Unreadable,
}

/// The mathematical value of a [`HeaderField`].
pub enum HeaderView {
    Value(Seq<char>),
    Missing,
    Unreadable,
}

impl View for HeaderField {
    type V = HeaderView;

    open spec fn view(&self) -> HeaderView {
        match self {
            HeaderField::Value(s) => HeaderView::Value(s@),
            HeaderField::Missing => HeaderView::Missing,
            HeaderField::Unreadable => HeaderView::Unreadable,
        }
    }
}

impl Clone for HeaderField {
    fn clone(&self) -> (copy: HeaderField)
        ensures
            copy@ == self@,
    {
        match self {
            HeaderField::Value(s) => HeaderField::Value(s.clone()),
            HeaderField::Missing => HeaderField::Missing,
            HeaderField::Unreadable => HeaderField::Unreadable,
        }
    }
}

/// Why a mail could not be used.
#[derive(Clone, Copy, Debug, PartialEq, Eq, Structural)]
pub enum MailError {
    /// A header could not be read.
    HeaderUnreadable,
    /// The mail has no `Message-ID`.
    NoMessageId,
}

/// The header as a result: its value if it is there, nothing if the mail
/// has none, an error if the mail could not be read.
pub open spec fn header_result(header: HeaderView) -> Result<Option<Seq<char>>, MailError> {
    match header {
        HeaderView::Value(s) => Ok(Some(s)),
        HeaderView::Missing => Ok(None),
        HeaderView::Unreadable => Err(MailError::HeaderUnreadable),
    }
}

/// The mathematical value of the result of reading a header.
pub open spec fn read_view(r: Result<Option<String>, MailError>) -> Result<
    Option<Seq<char>>,
    MailError,
> {
    match r {
        Ok(Some(s)) => Ok(Some(s@)),
        Ok(None) => Ok(None),
        Err(e) => Err(e),
    }
}

/// A mail of the store.
#[derive(Debug, PartialEq, Eq)]
pub struct Mail {
    /// The entry that holds the mail.
    pub entry: StoreId,
    pub message_id: HeaderField,
    pub in_reply_to: HeaderField,
}

/// The mathematical value of a [`Mail`].
pub struct MailView {
    pub entry: Seq<char>,
    pub message_id: HeaderView,
    pub in_reply_to: HeaderView,
}

impl View for Mail {
    type V = MailView;

    open spec fn view(&self) -> MailView {
        MailView {
            entry: self.entry@,
            message_id: self.message_id@,
            in_reply_to: self.in_reply_to@,
        }
    }
}

impl Clone for Mail {
    fn clone(&self) -> (copy: Mail)
        ensures
            copy@ == self@,
    {
        Mail {
            entry: self.entry.clone(),
            message_id: self.message_id.clone(),
            in_reply_to: self.in_reply_to.clone(),
        }
    }
}

fn read(header: &HeaderField) -> (r: Result<Option<String>, MailError>)
    ensures
        read_view(r) == header_result(header@),
{
    match header {
        HeaderField::Value(s) => Ok(Some(s.clone())),
        HeaderField::Missing => Ok(None),
        HeaderField::Unreadable => Err(MailError::HeaderUnreadable),
    }
}

impl Mail {
    /// The `Message-ID` of the mail.
    pub fn get_message_id(&self) -> (r: Result<Option<String>, MailError>)
        ensures
            read_view(r) == header_result(self@.message_id),
    {
        read(&self.message_id)
    }

    /// The id of the mail that this one answers, from `In-Reply-To`.
    pub fn get_in_reply_to(&self) -> (r: Result<Option<String>, MailError>)
        ensures
            read_view(r) == header_result(self@.in_reply_to),
    {
        read(&self.in_reply_to)
    }
}

/// A mail in a table, with the id of the mail it answers.
#[derive(Debug)]
pub struct MemMail {
    pub id: String,
    pub mail: Mail,
    pub reply_to: Option<String>,
}

/// The mathematical value of a [`MemMail`], without the id it is kept under.
pub struct MemMailView {
    pub mail: MailView,
    pub reply_to: Option<Seq<char>>,
}

impl View for MemMail {
    type V = MemMailView;

    open spec fn view(&self) -> MemMailView {
        MemMailView {
            mail: self.mail@,
            reply_to: match self.reply_to {
                Some(r) => Some(r@),
                None => None,
            },
        }
    }
}

/// The mathematical value of a [`MailTable`]: the mails by id, and the ids
/// in the order in which the table is walked.
pub struct TableView {
    pub mails: Map<Seq<char>, MemMailView>,
    pub order: Seq<Seq<char>>,
}

/// The table with nothing in it.
pub open spec fn empty_table() -> TableView {
    TableView { mails: Map::empty(), order: Seq::empty() }
}

/// The table after `mail` was put under `id`: a mail that was there under
/// this id is replaced and keeps its place; a new id goes to the end.
pub open spec fn table_insert(table: TableView, id: Seq<char>, mail: MemMailView) -> TableView {
    TableView {
        mails: table.mails.insert(id, mail),
        order: if table.mails.dom().contains(id) {
            table.order
        } else {
            table.order.push(id)
        },
    }
}

/// A table is well formed when its order names each id that has a mail once,
/// and no other.
pub open spec fn table_wf(table: TableView) -> bool {
    &&& forall|i: int, j: int|
        0 <= i < j < table.order.len() ==> table.order[i] != table.order[j]
    &&& forall|i: int| 0 <= i < table.order.len() ==> table.mails.dom().contains(#[trigger] table.order[i])
    &&& forall|id: Seq<char>| #[trigger]
        table.mails.dom().contains(id) ==> exists|i: int|
            0 <= i < table.order.len() && table.order[i] == id
}

spec fn slots_map(slots: Seq<MemMail>) -> Map<Seq<char>, MemMailView>
    decreases slots.len(),
{
    if slots.len() == 0 {
        Map::empty()
    } else {
        slots_map(slots.drop_last()).insert(slots.last().id@, slots.last()@)
    }
}

spec fn slots_order(slots: Seq<MemMail>) -> Seq<Seq<char>> {
    slots.map_values(|m: MemMail| m.id@)
}

spec fn distinct_ids(slots: Seq<MemMail>) -> bool {
    forall|i: int, j: int| 0 <= i < j < slots.len() ==> slots[i].id@ != slots[j].id@
}

proof fn lemma_slots_domain(slots: Seq<MemMail>, id: Seq<char>)
    ensures
        slots_map(slots).dom().contains(id) <==> exists|i: int|
            0 <= i < slots.len() && (#[trigger] slots[i]).id@ == id,
    decreases slots.len(),
{
    if slots.len() > 0 {
        let front = slots.drop_last();
        lemma_slots_domain(front, id);
        if slots_map(slots).dom().contains(id) {
            if slots.last().id@ == id {
                assert(slots[slots.len() - 1].id@ == id);
            } else {
                let i = choose|i: int| 0 <= i < front.len() && (#[trigger] front[i]).id@ == id;
                assert(slots[i].id@ == id);
            }
        }
        if exists|i: int| 0 <= i < slots.len() && (#[trigger] slots[i]).id@ == id {
            let i = choose|i: int| 0 <= i < slots.len() && (#[trigger] slots[i]).id@ == id;
            if i < front.len() {
                assert(front[i].id@ == id);
            }
        }
    }
}

proof fn lemma_slots_value(slots: Seq<MemMail>, i: int)
    requires
        distinct_ids(slots),
        0 <= i < slots.len(),
    ensures
        slots_map(slots).dom().contains(slots[i].id@),
        slots_map(slots)[slots[i].id@] == slots[i]@,
    decreases slots.len(),
{
    let front = slots.drop_last();
    if i < slots.len() - 1 {
        assert(distinct_ids(front)) by {
            assert forall|a: int, b: int| 0 <= a < b < front.len() implies front[a].id@
                != front[b].id@ by {
                assert(slots[a].id@ != slots[b].id@);
            }
        }
        lemma_slots_value(front, i);
        assert(front[i] == slots[i]);
        assert(slots[i].id@ != slots[slots.len() - 1].id@);
    }
}

proof fn lemma_slots_replace(slots: Seq<MemMail>, i: int, slot: MemMail)
    requires
        distinct_ids(slots),
        0 <= i < slots.len(),
        slots[i].id@ == slot.id@,
    ensures
        distinct_ids(slots.update(i, slot)),
        slots_map(slots.update(i, slot)) == slots_map(slots).insert(slot.id@, slot@),
        slots_order(slots.update(i, slot)) == slots_order(slots),
    decreases slots.len(),
{
    let after = slots.update(i, slot);
    assert(slots_order(after) =~= slots_order(slots));
    assert(distinct_ids(after)) by {
        assert forall|a: int, b: int| 0 <= a < b < after.len() implies after[a].id@
            != after[b].id@ by {
            assert(slots[a].id@ != slots[b].id@);
        }
    }
    let front = slots.drop_last();
    if i == slots.len() - 1 {
        assert(after.drop_last() =~= front);
        assert(slots_map(after) =~= slots_map(slots).insert(slot.id@, slot@));
    } else {
        assert(distinct_ids(front)) by {
            assert forall|a: int, b: int| 0 <= a < b < front.len() implies front[a].id@
                != front[b].id@ by {
                assert(slots[a].id@ != slots[b].id@);
            }
        }
        lemma_slots_replace(front, i, slot);
        assert(after.drop_last() =~= front.update(i, slot));
        assert(after.last() == slots.last());
        assert(slots[i].id@ != slots[slots.len() - 1].id@);
        assert(slots_map(after) =~= slots_map(slots).insert(slot.id@, slot@));
    }
}

proof fn lemma_slots_push(slots: Seq<MemMail>, slot: MemMail)
    requires
        distinct_ids(slots),
        !slots_map(slots).dom().contains(slot.id@),
    ensures
        distinct_ids(slots.push(slot)),
        slots_map(slots.push(slot)) == slots_map(slots).insert(slot.id@, slot@),
        slots_order(slots.push(slot)) == slots_order(slots).push(slot.id@),
{
    let after = slots.push(slot);
    assert(after.drop_last() =~= slots);
    assert(slots_order(after) =~= slots_order(slots).push(slot.id@));
    assert forall|a: int, b: int| 0 <= a < b < after.len() implies after[a].id@
        != after[b].id@ by {
        if b == slots.len() {
            lemma_slots_domain(slots, slot.id@);
            assert(slots[a].id@ != slot.id@);
        }
    }
}

proof fn lemma_slots_well_formed(slots: Seq<MemMail>)
    requires
        distinct_ids(slots),
    ensures
        table_wf(TableView { mails: slots_map(slots), order: slots_order(slots) }),
{
    let table = TableView { mails: slots_map(slots), order: slots_order(slots) };
    assert forall|i: int| 0 <= i < table.order.len() implies table.mails.dom().contains(
        #[trigger] table.order[i],
    ) by {
        lemma_slots_value(slots, i);
    }
    assert forall|id: Seq<char>| #[trigger]
        table.mails.dom().contains(id) implies exists|i: int|
        0 <= i < table.order.len() && table.order[i] == id by {
        lemma_slots_domain(slots, id);
        let i = choose|i: int| 0 <= i < slots.len() && (#[trigger] slots[i]).id@ == id;
        assert(table.order[i] == id);
    }
}

/// Mails by message id. An id names at most one mail; the table is walked in
/// the order in which the ids came in.
#[derive(Debug)]
pub struct MailTable {
    slots: Vec<MemMail>,
}

impl View for MailTable {
    type V = TableView;

    closed spec fn view(&self) -> TableView {
        TableView { mails: slots_map(self.slots@), order: slots_order(self.slots@) }
    }
}

impl MailTable {
    #[verifier::type_invariant]
    spec fn ids_are_distinct(self) -> bool {
        distinct_ids(self.slots@)
    }

    /// The table with nothing in it.
    pub fn new() -> (table: MailTable)
        ensures
            table@ == empty_table(),
    {
        let table = MailTable { slots: Vec::new() };
        assert(table@.order =~= Seq::<Seq<char>>::empty());
        table
    }

    /// How many mails the table holds. Every table is well formed.
    pub fn len(&self) -> (n: usize)
        ensures
            n == self@.order.len(),
            table_wf(self@),
    {
        proof {
            use_type_invariant(self);
            lemma_slots_well_formed(self.slots@);
        }
        self.slots.len()
    }

    /// The place of the mail with this id, if the table holds one.
    pub fn position(&self, id: &String) -> (place: Option<usize>)
        ensures
            place is Some <==> self@.mails.dom().contains(id@),
            place matches Some(i) ==> i < self@.order.len() && self@.order[i as int] == id@,
    {
        let mut i: usize = 0;
        while i < self.slots.len()
            invariant
                i <= self.slots.len(),
                forall|j: int| 0 <= j < i ==> (#[trigger] self.slots@[j]).id@ != id@,
            decreases self.slots.len() - i,
        {
            if self.slots[i].id == *id {
                proof {
                    lemma_slots_domain(self.slots@, id@);
                }
                return Some(i);
            }
            i += 1;
        }
        proof {
            lemma_slots_domain(self.slots@, id@);
        }
        None
    }

    /// The mail with this id, if the table holds one.
    pub fn get(&self, id: &String) -> (found: Option<&MemMail>)
        ensures
            found is Some <==> self@.mails.dom().contains(id@),
            found matches Some(kept) ==> kept.id@ == id@ && kept@ == self@.mails[id@],
    {
        match self.position(id) {
            Some(place) => Some(self.slot(place)),
            None => None,
        }
    }

    /// The mail at a place of the walk.
    pub(crate) fn slot(&self, place: usize) -> (found: &MemMail)
        requires
            place < self@.order.len(),
        ensures
            found.id@ == self@.order[place as int],
            self@.mails.dom().contains(found.id@),
            found@ == self@.mails[found.id@],
    {
        proof {
            use_type_invariant(self);
            lemma_slots_value(self.slots@, place as int);
        }
        &self.slots[place]
    }

    /// The table with `mail` put under `id`, in place of the mail that was
    /// there, if any.
    pub fn insert(self, id: String, mail: Mail, reply_to: Option<String>) -> (table: MailTable)
        ensures
            table@ == table_insert(self@, id@, (MemMail { id, mail, reply_to })@),
    {
        proof {
            use_type_invariant(&self);
        }
        let place = self.position(&id);
        let slot = MemMail { id, mail, reply_to };
        let mut slots = self.slots;
        match place {
            Some(i) => {
                proof {
                    lemma_slots_replace(slots@, i as int, slot);
                }
                slots.set(i, slot);
            },
            None => {
                proof {
                    lemma_slots_push(slots@, slot);
                }
                slots.push(slot);
            },
        }
        MailTable { slots }
    }
}

} // verus!
