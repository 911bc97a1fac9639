pub mod base;
pub mod error;
pub mod task;
pub mod user;

use vstd::prelude::*;

use crate::ctx::Ctx;
use crate::error::Error as WebError;

pub use error::Error;

verus! {

/// A ticket of the slot-based store.
#[derive(Debug)]
pub struct Ticket {
    pub id: u64,
    pub cid: u64,  // creator id
    pub title: String,
}

pub struct TicketForCreate {
    pub title: String,
}

/// The slot-based ticket store: the id is the slot index, and a deleted
/// slot stays empty, so ids are never reused.
pub struct ModelController {
    pub ticket_store: Vec<Option<Ticket>>,
}

/// The tickets still present, in slot order.
pub open spec fn present_tickets(s: Seq<Option<Ticket>>) -> Seq<Ticket>
    decreases s.len(),
{
    if s.len() == 0 {
        Seq::empty()
    } else {
        present_tickets(s.drop_last()) + (match s.last() {
            Some(t) => seq![t],
            None => Seq::empty(),
        })
    }
}

impl ModelController {
    pub fn new() -> (r: Result<ModelController, WebError>)
        ensures
            r matches Ok(mc) && mc.ticket_store@ == Seq::<Option<Ticket>>::empty(),
    {
        Ok(ModelController { ticket_store: Vec::new() })
    }

    /// Creates a ticket owned by the calling identity: its id is the next
    /// slot index, and the new slot holds exactly the returned ticket.
    pub fn create_ticket(&mut self, ctx: Ctx, ticket: TicketForCreate) -> (r: Result<
        Ticket,
        WebError,
    >)
        requires
            old(self).ticket_store@.len() < usize::MAX,
        ensures
            r matches Ok(t) && t.id == old(self).ticket_store@.len() && t.cid
                == ctx.spec_user_id() && t.title@ == ticket.title@,
            r matches Ok(t) && final(self).ticket_store@ == old(self).ticket_store@.push(
                Some(Ticket { id: t.id, cid: t.cid, title: t.title }),
            ),
    {
        let id = self.ticket_store.len() as u64;
        let t = Ticket { id, cid: ctx.user_id(), title: ticket.title };
        let stored = Ticket { id: t.id, cid: t.cid, title: t.title.clone() };
        self.ticket_store.push(Some(stored));
        Ok(t)
    }

    /// Lists the tickets that are still present, in slot (id) order.
    pub fn list_tickets(&self, _ctx: Ctx) -> (r: Result<Vec<Ticket>, WebError>)
        ensures
            r matches Ok(v) && v@ == present_tickets(self.ticket_store@),
    {
        let n = self.ticket_store.len();
        let mut out: Vec<Ticket> = Vec::new();
        for k in 0..n
            invariant
                n == self.ticket_store@.len(),
                out@ == present_tickets(self.ticket_store@.subrange(0, k as int)),
        {
            let ghost pre = self.ticket_store@.subrange(0, k as int);
            match &self.ticket_store[k] {
                Some(t) => {
                    out.push(Ticket { id: t.id, cid: t.cid, title: t.title.clone() });
                },
                None => {},
            }
            proof {
                let cur = self.ticket_store@.subrange(0, k + 1);
                assert(cur.drop_last() =~= pre);
                assert(cur.last() == self.ticket_store@[k as int]);
            }
        }
        proof {
            assert(self.ticket_store@.subrange(0, n as int) =~= self.ticket_store@);
        }
        Ok(out)
    }

    /// Deletes the ticket in the given slot and returns it.  An id beyond
    /// the store or an already emptied slot fails with the ticket-deletion
    /// error carrying the id; nothing changes then.
    pub fn delete_ticket(&mut self, _ctx: Ctx, id: u64) -> (r: Result<Ticket, WebError>)
        ensures
            (id < old(self).ticket_store@.len() && old(self).ticket_store@[id as int] is Some)
                ==> r is Ok && Some(r->Ok_0) == old(self).ticket_store@[id as int]
                && final(self).ticket_store@ == old(self).ticket_store@.update(id as int, None),
            !(id < old(self).ticket_store@.len() && old(self).ticket_store@[id as int] is Some)
                ==> r == Err::<Ticket, WebError>(
                WebError::TicketDeletionFailtureIdNotfound { id },
            ) && final(self).ticket_store@ == old(self).ticket_store@,
    {
        let n = self.ticket_store.len();
        if id >= n as u64 {
            return Err(WebError::TicketDeletionFailtureIdNotfound { id });
        }
        let idx = id as usize;
        let slot = &mut self.ticket_store[idx];
        match slot.take() {
            Some(t) => Ok(t),
            None => Err(WebError::TicketDeletionFailtureIdNotfound { id }),
        }
    }
}

/// The in-process data store behind the model layer: the task table and the
/// user store.
pub struct Db {
    pub tasks: base::Table<task::TaskForCreate>,
    pub users: user::UserStore,
}

/// The model manager: owns the store and hands the model controllers
/// access to it.
pub struct ModelManager {
    pub db: Db,
}

impl ModelManager {
    pub open spec fn wf(&self) -> bool {
        &&& self.db.tasks.wf()
        &&& self.db.users.wf()
    }

    pub open spec fn spec_tasks(&self) -> base::Table<task::TaskForCreate> {
        self.db.tasks
    }

    pub open spec fn spec_users(&self) -> user::UserStore {
        self.db.users
    }

    pub fn new() -> (r: Result<ModelManager, Error>)
        ensures
            r matches Ok(mm) && mm.wf(),
            r matches Ok(mm) && mm.spec_tasks().rows@.len() == 0,
            r matches Ok(mm) && mm.spec_users().users@.len() == 0,
    {
        Ok(ModelManager { db: Db { tasks: base::Table::new(), users: user::UserStore::new() } })
    }

    /// The store, read-only; the model layer reaches it here.
    pub fn db(&self) -> (r: &Db)
        ensures
            r == &self.db,
    {
        &self.db
    }
}

} // verus!
