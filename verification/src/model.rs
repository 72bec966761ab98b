//! Model layer: the in-memory ticket store and its controller.
//!
//! The controller owns the store: an ordered sequence of optional ticket
//! slots, indexed by id. Ids are assigned sequentially at creation and
//! never reused; a deleted ticket leaves its slot empty. Callers receive
//! clones, never references into the store. The store is kept behind one
//! lock by the surrounding application; each operation here is a single
//! critical section over the whole store.

use vstd::prelude::*;

use crate::ctx::Ctx;
use crate::error::{client_error_of, status_of, ClientError, Error};

verus! {

/// Mathematical view of a ticket.
pub struct TicketView {
    pub id: u64,
    pub cid: u64,
    pub title: Seq<char>,
}

/// A stored ticket: id, creator user id, and title.
#[derive(Debug, PartialEq, Eq)]
pub struct Ticket {
    pub id: u64,
    pub cid: u64,
    pub title: String,
}

impl View for Ticket {
    type V = TicketView;

    open spec fn view(&self) -> TicketView {
        TicketView { id: self.id, cid: self.cid, title: self.title@ }
    }
}

impl Clone for Ticket {
    fn clone(&self) -> (r: Self)
        ensures
            r@ == self@,
    {
        Ticket { id: self.id, cid: self.cid, title: self.title.clone() }
    }
}

/// Creation request payload: the title of the ticket to create.
pub struct TicketForCreate {
    pub title: String,
}

/// View of one store slot.
pub open spec fn slot_view(t: Option<Ticket>) -> Option<TicketView> {
    match t {
        Some(tk) => Some(tk@),
        None => None,
    }
}

/// Owner and sole mutator of the ticket store.
pub struct ModelController {
    tickets_store: Vec<Option<Ticket>>,
}

impl View for ModelController {
    type V = Seq<Option<TicketView>>;

    closed spec fn view(&self) -> Seq<Option<TicketView>> {
        self.tickets_store@.map(|i: int, t: Option<Ticket>| slot_view(t))
    }
}

/// Store shape after one create: a slot holding a ticket whose id is the
/// store length at the time of the call.
pub open spec fn create_spec(
    s: Seq<Option<TicketView>>,
    cid: u64,
    title: Seq<char>,
) -> Seq<Option<TicketView>> {
    s.push(Some(TicketView { id: s.len() as u64, cid, title }))
}

/// Tickets a listing returns: the non-empty slots, in store order.
pub open spec fn list_view(s: Seq<Option<TicketView>>) -> Seq<TicketView>
    decreases s.len(),
{
    if s.len() == 0 {
        Seq::empty()
    } else {
        match s.last() {
            Some(t) => list_view(s.drop_last()).push(t),
            None => list_view(s.drop_last()),
        }
    }
}

/// What one delete returns: the removed ticket, or the not-found failure.
pub open spec fn delete_result(s: Seq<Option<TicketView>>, id: u64) -> Result<TicketView, Error> {
    if id < s.len() && s[id as int] is Some {
        Ok(s[id as int]->0)
    } else {
        Err(Error::TicketDeleteFailIdNotFound { id })
    }
}

/// Store shape after one delete: the slot emptied on success, the store
/// untouched on failure.
pub open spec fn delete_post(s: Seq<Option<TicketView>>, id: u64) -> Seq<Option<TicketView>> {
    if id < s.len() && s[id as int] is Some {
        s.update(id as int, None)
    } else {
        s
    }
}

impl ModelController {
    /// Store invariant: a filled slot holds the ticket whose id is that
    /// slot's index.
    pub open spec fn wf(&self) -> bool {
        forall|i: int| 0 <= i < self@.len() && self@[i] is Some ==> (#[trigger] self@[i])->0.id
            == i
    }

    /// A fresh controller with an empty store.
    pub fn new() -> (r: Result<ModelController, Error>)
        ensures
            r is Ok,
            r->Ok_0@ == Seq::<Option<TicketView>>::empty(),
            r->Ok_0.wf(),
    {
        let mc = ModelController { tickets_store: Vec::new() };
        proof {
            assert(mc@ =~= Seq::<Option<TicketView>>::empty());
        }
        Ok(mc)
    }

    /// Creates a ticket for the caller: its id is the current store
    /// length, its creator the caller's user id. Never fails.
    pub fn create_ticket(&mut self, ctx: Ctx, ticket_fc: TicketForCreate) -> (r: Result<
        Ticket,
        Error,
    >)
        requires
            old(self).wf(),
        ensures
            final(self).wf(),
            final(self)@ == create_spec(old(self)@, ctx.spec_user_id(), ticket_fc.title@),
            r is Ok,
            r->Ok_0@ == (TicketView {
                id: old(self)@.len() as u64,
                cid: ctx.spec_user_id(),
                title: ticket_fc.title@,
            }),
    {
        let id = self.tickets_store.len() as u64;
        let ticket = Ticket { id, cid: ctx.user_id(), title: ticket_fc.title };
        self.tickets_store.push(Some(ticket.clone()));
        proof {
            assert(self@ =~= create_spec(old(self)@, ctx.spec_user_id(), ticket@.title));
        }
        Ok(ticket)
    }

    /// Lists clones of all stored tickets, in ascending id order,
    /// irrespective of creator. Never fails.
    #[verifier::loop_isolation(false)]
    pub fn list_tickets(&self, _ctx: Ctx) -> (r: Result<Vec<Ticket>, Error>)
        ensures
            r is Ok,
            r->Ok_0@.map_values(|t: Ticket| t@) == list_view(self@),
    {
        let mut tickets: Vec<Ticket> = Vec::new();
        let mut i: usize = 0;
        while i < self.tickets_store.len()
            invariant
                0 <= i <= self.tickets_store@.len(),
                tickets@.map_values(|t: Ticket| t@) == list_view(self@.take(i as int)),
            decreases self.tickets_store@.len() - i,
        {
            proof {
                assert(self@.take(i + 1).drop_last() =~= self@.take(i as int));
                assert(self@.take(i + 1).last() == self@[i as int]);
            }
            match &self.tickets_store[i] {
                Some(t) => {
                    let c = t.clone();
                    tickets.push(c);
                    proof {
                        assert(tickets@.map_values(|t: Ticket| t@) =~= list_view(
                            self@.take(i + 1),
                        ));
                    }
                },
                None => {
                    proof {
                        assert(tickets@.map_values(|t: Ticket| t@) =~= list_view(
                            self@.take(i + 1),
                        ));
                    }
                },
            }
            i = i + 1;
        }
        proof {
            assert(self@.take(self.tickets_store@.len() as int) =~= self@);
        }
        Ok(tickets)
    }

    /// Deletes the ticket with the given id: empties its slot and returns
    /// the removed ticket, or fails with the not-found error if the id
    /// was never issued or the slot is already empty.
    pub fn delete_ticket(&mut self, _ctx: Ctx, id: u64) -> (r: Result<Ticket, Error>)
        requires
            old(self).wf(),
        ensures
            final(self).wf(),
            final(self)@ == delete_post(old(self)@, id),
            (r is Ok) == (delete_result(old(self)@, id) is Ok),
            r is Ok ==> r->Ok_0@ == delete_result(old(self)@, id)->Ok_0,
            r is Err ==> r->Err_0 == delete_result(old(self)@, id)->Err_0,
    {
        let len_u64 = self.tickets_store.len() as u64;
        if id >= len_u64 {
            return Err(Error::TicketDeleteFailIdNotFound { id });
        }
        let idx = id as usize;
        let taken = self.tickets_store[idx].take();
        proof {
            assert(self@ =~= old(self)@.update(id as int, None));
        }
        match taken {
            Some(t) => Ok(t),
            None => {
                proof {
                    assert(self@ =~= old(self)@);
                }
                Err(Error::TicketDeleteFailIdNotFound { id })
            },
        }
    }
}

/// Store shape after a run of creates, one per title, in order.
pub open spec fn create_all(
    s: Seq<Option<TicketView>>,
    cid: u64,
    titles: Seq<Seq<char>>,
) -> Seq<Option<TicketView>>
    decreases titles.len(),
{
    if titles.len() == 0 {
        s
    } else {
        create_all(create_spec(s, cid, titles.first()), cid, titles.drop_first())
    }
}

/// Law: a run of creates extends the store by one filled slot per call,
/// and the ids handed out are the consecutive indices that follow the
/// store length at the start — pairwise distinct, without gaps, and
/// consistent with the final store length.
pub proof fn lemma_creates_sequential_ids(
    s: Seq<Option<TicketView>>,
    cid: u64,
    titles: Seq<Seq<char>>,
)
    requires
        s.len() + titles.len() <= u64::MAX,
    ensures
        create_all(s, cid, titles).len() == s.len() + titles.len(),
        forall|k: int| 0 <= k < s.len() ==> #[trigger] create_all(s, cid, titles)[k] == s[k],
        forall|k: int| 0 <= k < titles.len() ==> #[trigger] create_all(s, cid, titles)[s.len() + k]
            == Some(TicketView { id: (s.len() + k) as u64, cid, title: titles[k] }),
        forall|k1: int, k2: int|
            0 <= k1 < titles.len() && 0 <= k2 < titles.len() && k1 != k2 ==> (#[trigger] create_all(
                s,
                cid,
                titles,
            )[s.len() + k1])->0.id != (#[trigger] create_all(s, cid, titles)[s.len() + k2])->0.id,
    decreases titles.len(),
{
    if titles.len() > 0 {
        let s1 = create_spec(s, cid, titles.first());
        let rest = titles.drop_first();
        let r = create_all(s, cid, titles);
        lemma_creates_sequential_ids(s1, cid, rest);
        assert(r == create_all(s1, cid, rest));
        assert(s1.len() == s.len() + 1);
        assert(s1[s.len() as int] == Some(
            TicketView { id: s.len() as u64, cid, title: titles[0] },
        ));
        assert(r[s.len() as int] == s1[s.len() as int]);
        assert forall|k: int| 0 <= k < titles.len() implies #[trigger] r[s.len() + k] == Some(
            TicketView { id: (s.len() + k) as u64, cid, title: titles[k] },
        ) by {
            if k > 0 {
                assert(r[s1.len() + (k - 1)] == Some(
                    TicketView { id: (s1.len() + (k - 1)) as u64, cid, title: rest[k - 1] },
                ));
                assert(rest[k - 1] == titles[k]);
            }
        }
        assert forall|k1: int, k2: int|
            0 <= k1 < titles.len() && 0 <= k2 < titles.len() && k1 != k2 implies (
        #[trigger] r[s.len() + k1])->0.id != (#[trigger] r[s.len() + k2])->0.id by {
            assert(r[s.len() + k1] == Some(
                TicketView { id: (s.len() + k1) as u64, cid, title: titles[k1] },
            ));
            assert(r[s.len() + k2] == Some(
                TicketView { id: (s.len() + k2) as u64, cid, title: titles[k2] },
            ));
        }
    }
}

/// Listing a store with no empty slots returns every slot's ticket, in
/// store order.
proof fn lemma_list_view_all_filled(s: Seq<Option<TicketView>>)
    requires
        forall|i: int| 0 <= i < s.len() ==> (#[trigger] s[i]) is Some,
    ensures
        list_view(s).len() == s.len(),
        forall|i: int| 0 <= i < s.len() ==> #[trigger] list_view(s)[i] == s[i]->0,
    decreases s.len(),
{
    if s.len() > 0 {
        lemma_list_view_all_filled(s.drop_last());
    }
}

/// Law: creating N tickets on an empty store and then listing returns
/// exactly those N tickets, in creation order, with ids 0 .. N-1.
pub proof fn lemma_create_list_round_trip(cid: u64, titles: Seq<Seq<char>>)
    requires
        titles.len() <= u64::MAX,
    ensures
        ({
            let listed = list_view(create_all(Seq::empty(), cid, titles));
            &&& listed.len() == titles.len()
            &&& forall|k: int| 0 <= k < titles.len() ==> #[trigger] listed[k] == (TicketView {
                id: k as u64,
                cid,
                title: titles[k],
            })
        }),
{
    let e = Seq::<Option<TicketView>>::empty();
    let s = create_all(e, cid, titles);
    lemma_creates_sequential_ids(e, cid, titles);
    assert(s.len() == titles.len());
    assert forall|i: int| 0 <= i < s.len() implies (#[trigger] s[i]) is Some by {
        assert(s[e.len() + i] == Some(TicketView { id: (e.len() + i) as u64, cid, title: titles[i] }));
    }
    lemma_list_view_all_filled(s);
    assert forall|k: int| 0 <= k < titles.len() implies #[trigger] list_view(s)[k] == (TicketView {
        id: k as u64,
        cid,
        title: titles[k],
    }) by {
        assert(s[e.len() + k] == Some(TicketView { id: (e.len() + k) as u64, cid, title: titles[k] }));
        assert(list_view(s)[k] == s[k]->0);
    }
}

/// Law: deleting the same id twice succeeds at most once. After a
/// successful delete, the same id is reported as not found, and that
/// failure is shown to the client as `INVALID_PARAMS` at status 400.
pub proof fn lemma_delete_twice_fails(s: Seq<Option<TicketView>>, id: u64)
    requires
        delete_result(s, id) is Ok,
    ensures
        ({
            let once = delete_post(s, id);
            &&& delete_result(once, id) == Err::<TicketView, Error>(
                Error::TicketDeleteFailIdNotFound { id },
            )
            &&& delete_post(once, id) == once
            &&& status_of(Error::TicketDeleteFailIdNotFound { id }) == 400
            &&& client_error_of(Error::TicketDeleteFailIdNotFound { id })
                == ClientError::INVALID_PARAMS
        }),
{
}

} // verus!
