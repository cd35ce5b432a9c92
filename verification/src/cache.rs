//! A cache of mails by message id.

use vstd::prelude::*;
use crate::linker::mail_views;
use crate::mail::{table_wf, HeaderView, Mail, MailError, MailTable, MailView, TableView};

verus! {

/// The mails of a table by id, without what the table keeps beside them.
pub open spec fn cached_mails(table: TableView) -> Map<Seq<char>, MailView> {
    Map::new(|id: Seq<char>| table.mails.dom().contains(id), |id: Seq<char>| table.mails[id].mail)
}

/// The cache that holds `cache` and, in their order, the mails from
/// position `from` on, each under its `Message-ID`; a later mail replaces an
/// earlier one with the same id. The first mail whose `Message-ID` cannot be
/// read, or that has none, is a failure.
pub open spec fn cache_from(mails: Seq<MailView>, cache: Map<Seq<char>, MailView>, from: int) -> Result<
    Map<Seq<char>, MailView>,
    MailError,
>
    decreases mails.len() - from,
{
    if from < 0 || from >= mails.len() {
        Ok(cache)
    } else {
        match mails[from].message_id {
            HeaderView::Value(id) => cache_from(mails, cache.insert(id, mails[from]), from + 1),
            HeaderView::Missing => Err(MailError::NoMessageId),
            HeaderView::Unreadable => Err(MailError::HeaderUnreadable),
        }
    }
}

/// The cache of all the mails, or the first failure.
pub open spec fn cache_of(mails: Seq<MailView>) -> Result<Map<Seq<char>, MailView>, MailError> {
    cache_from(mails, Map::empty(), 0)
}

/// Mails by message id.
#[derive(Debug)]
pub struct MailCache {
    hm: MailTable,
}

impl View for MailCache {
    type V = Map<Seq<char>, MailView>;

    closed spec fn view(&self) -> Map<Seq<char>, MailView> {
        cached_mails(self.hm@)
    }
}

impl MailCache {
    /// An empty cache.
    pub fn new() -> (cache: MailCache)
        ensures
            cache@ == Map::<Seq<char>, MailView>::empty(),
    {
        let cache = MailCache { hm: MailTable::new() };
        assert(cache@ =~= Map::<Seq<char>, MailView>::empty());
        cache
    }

    /// Create a cache from a list of mails: each mail under its
    /// `Message-ID`. Fails at the first mail that has none, or whose
    /// `Message-ID` cannot be read.
    pub fn from_iter(i: Vec<Mail>) -> (made: Result<MailCache, MailError>)
        ensures
            match cache_of(mail_views(i@)) {
                Ok(mails) => made matches Ok(cache) && cache@ == mails,
                Err(e) => made matches Err(error) && error == e,
            },
    {
        let ghost mails = mail_views(i@);
        let mut hm = MailTable::new();
        assert(cached_mails(hm@) =~= Map::<Seq<char>, MailView>::empty());
        let mut n: usize = 0;
        while n < i.len()
            invariant
                n <= i.len(),
                mails == mail_views(i@),
                cache_of(mails) == cache_from(mails, cached_mails(hm@), n as int),
            decreases i.len() - n,
        {
            let mail = i[n].clone();
            assert(mail@ == mails[n as int]);
            match mail.get_message_id() {
                Ok(Some(id)) => {
                    let ghost before = hm@;
                    hm = hm.insert(id, mail, None);
                    assert(cached_mails(hm@) =~= cached_mails(before).insert(id@, mail@));
                },
                Ok(None) => {
                    return Err(MailError::NoMessageId);
                },
                Err(e) => {
                    return Err(e);
                },
            }
            n += 1;
        }
        Ok(MailCache { hm })
    }

    /// How many mails the cache holds.
    pub fn len(&self) -> (n: usize)
        ensures
            n == self@.dom().len(),
            self@.dom().finite(),
    {
        let n = self.hm.len();
        proof {
            lemma_order_counts(self.hm@);
            assert(self@.dom() =~= self.hm@.mails.dom());
        }
        n
    }

    /// The mail with this id, if the cache holds one.
    pub fn get(&self, id: &String) -> (found: Option<&Mail>)
        ensures
            found is Some <==> self@.dom().contains(id@),
            found matches Some(mail) ==> mail@ == self@[id@],
    {
        match self.hm.get(id) {
            Some(kept) => Some(&kept.mail),
            None => None,
        }
    }
}

/// In a well-formed table, as many ids have a mail as the order names.
proof fn lemma_order_counts(table: TableView)
    requires
        table_wf(table),
    ensures
        table.mails.dom().finite(),
        table.mails.dom().len() == table.order.len(),
{
    table.order.unique_seq_to_set();
    assert(table.order.to_set() =~= table.mails.dom()) by {
        assert forall|id: Seq<char>| table.order.to_set().contains(id) implies table.mails.dom().contains(
            id,
        ) by {
            let i = choose|i: int| 0 <= i < table.order.len() && table.order[i] == id;
            assert(table.mails.dom().contains(table.order[i]));
        }
    }
}

} // verus!
