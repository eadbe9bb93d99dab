//! The registry of handlers, its fluent builder, and the console state that
//! the builder produces.

use crate::error::{decimal_text, id_text, Error};
use crate::text::{ensure_newline, with_newline};
use vstd::prelude::*;

verus! {

/// Service ids in order of registration, one for each entry.
pub open spec fn ids_of<H>(entries: Seq<(u64, H)>) -> Seq<u64> {
    entries.map_values(|e: (u64, H)| e.0)
}

/// One registration on a list of service ids: the longer list, or `None`
/// where the id is taken.
pub open spec fn register(ids: Seq<u64>, id: u64) -> Option<Seq<u64>> {
    if ids.contains(id) {
        None
    } else {
        Some(ids.push(id))
    }
}

/// Registrations of `more`, one after another, on `ids`; `None` from the
/// first that fails on.
pub open spec fn register_all(ids: Seq<u64>, more: Seq<u64>) -> Option<Seq<u64>>
    decreases more.len(),
{
    if more.len() == 0 {
        Some(ids)
    } else {
        match register(ids, more[0]) {
            Some(next) => register_all(next, more.subrange(1, more.len() as int)),
            None => None,
        }
    }
}

/// Builds a [`ConsoleState`]: handlers under unique service ids, a bind
/// address, a welcome text and the origin restriction.
pub struct Builder<H, A> {
    subscriptions: Vec<(u64, H)>,
    bind_address: Option<A>,
    welcome: Option<String>,
    accept_only_localhost: bool,
}

impl<H, A> Builder<H, A> {
    /// The registered handlers with their service ids, in order of registration.
    pub closed spec fn entries(&self) -> Seq<(u64, H)> {
        self.subscriptions@
    }

    /// The service ids registered so far.
    pub open spec fn service_ids(&self) -> Seq<u64> {
        ids_of(self.entries())
    }

    /// The bind address, once given.
    pub closed spec fn bind_target(&self) -> Option<A> {
        self.bind_address
    }

    /// The welcome text, once given.
    pub closed spec fn welcome_text(&self) -> Option<Seq<char>> {
        match self.welcome {
            Some(w) => Some(w@),
            None => None,
        }
    }

    /// Whether only loopback peers will be accepted.
    pub closed spec fn localhost_only(&self) -> bool {
        self.accept_only_localhost
    }

    /// No two registrations share a service id.
    pub open spec fn wf(&self) -> bool {
        self.service_ids().no_duplicates()
    }

    /// An empty configuration: no handler, no bind address, no welcome text,
    /// every origin accepted.
    pub fn new() -> (r: Self)
        ensures
            r.entries() == Seq::<(u64, H)>::empty(),
            r.service_ids() == Seq::<u64>::empty(),
            r.bind_target() is None,
            r.welcome_text() is None,
            !r.localhost_only(),
            r.wf(),
    {
        let r = Builder {
            subscriptions: Vec::new(),
            bind_address: None,
            welcome: None,
            accept_only_localhost: false,
        };
        assert(r.service_ids() =~= Seq::<u64>::empty());
        r
    }

    /// Registers `subscription` under `service_id`. Fails, and registers
    /// nothing, where that id is already taken; it never overwrites.
    pub fn subscribe(self, service_id: u64, subscription: H) -> (r: Result<Self, Error>)
        ensures
            r is Ok <==> !self.service_ids().contains(service_id),
            r matches Ok(b) ==> {
                &&& b.entries() == self.entries().push((service_id, subscription))
                &&& b.service_ids() == self.service_ids().push(service_id)
                &&& Some(b.service_ids()) == register(self.service_ids(), service_id)
                &&& b.bind_target() == self.bind_target()
                &&& b.welcome_text() == self.welcome_text()
                &&& b.localhost_only() == self.localhost_only()
                &&& (self.wf() ==> b.wf())
            },
            r matches Err(e) ==> e is ServiceIdUsed && e->ServiceIdUsed_0@ == decimal_text(
                service_id as nat,
            ),
            r is Err ==> register(self.service_ids(), service_id) is None,
    {
        let mut b = self;
        let n = b.subscriptions.len();
        let mut i: usize = 0;
        while i < n
            invariant
                n == b.subscriptions@.len(),
                b == self,
                0 <= i <= n,
                forall|j: int| 0 <= j < i ==> b.service_ids()[j] != service_id,
            decreases n - i,
        {
            if b.subscriptions[i].0 == service_id {
                assert(b.service_ids()[i as int] == service_id);
                return Err(Error::ServiceIdUsed(id_text(service_id)));
            }
            i = i + 1;
        }
        assert(!b.service_ids().contains(service_id));
        b.subscriptions.push((service_id, subscription));
        assert(b.service_ids() =~= self.service_ids().push(service_id));
        Ok(b)
    }

    /// Sets the address that the console will listen on.
    pub fn bind_address(self, bind_address: A) -> (r: Self)
        ensures
            r.entries() == self.entries(),
            r.bind_target() == Some(bind_address),
            r.welcome_text() == self.welcome_text(),
            r.localhost_only() == self.localhost_only(),
    {
        let mut b = self;
        b.bind_address = Some(bind_address);
        b
    }

    /// Sets the text sent first on every accepted connection.
    pub fn welcome(self, message: &str) -> (r: Self)
        ensures
            r.entries() == self.entries(),
            r.bind_target() == self.bind_target(),
            r.welcome_text() == Some(message@),
            r.localhost_only() == self.localhost_only(),
    {
        let mut b = self;
        b.welcome = Some(message.to_owned());
        b
    }

    /// Restricts the console to peers on the loopback interface.
    pub fn accept_only_localhost(self) -> (r: Self)
        ensures
            r.entries() == self.entries(),
            r.bind_target() == self.bind_target(),
            r.welcome_text() == self.welcome_text(),
            r.localhost_only(),
    {
        let mut b = self;
        b.accept_only_localhost = true;
        b
    }

    /// The console state of this configuration. Fails, before any socket is
    /// opened, where no bind address was given. The welcome text (empty by
    /// default) is terminated by a line feed.
    pub fn build(self) -> (r: Result<ConsoleState<H, A>, Error>)
        ensures
            r is Err <==> self.bind_target() is None,
            r matches Err(e) ==> e is NoBindAddress,
            r matches Ok(c) ==> {
                &&& c.entries() == self.entries()
                &&& Some(c.bind_target()) == self.bind_target()
                &&& c.welcome_text() == with_newline(
                    match self.welcome_text() {
                        Some(w) => w,
                        None => Seq::<char>::empty(),
                    },
                )
                &&& c.localhost_only() == self.localhost_only()
            },
    {
        let Builder { subscriptions, bind_address, welcome, accept_only_localhost } = self;
        match bind_address {
            None => Err(Error::NoBindAddress),
            Some(bind_address) => {
                let text = match welcome {
                    Some(w) => w,
                    None => String::new(),
                };
                Ok(
                    ConsoleState {
                        subscriptions,
                        bind_address,
                        welcome: ensure_newline(text),
                        accept_only_localhost,
                    },
                )
            },
        }
    }
}

impl<H, A> Default for Builder<H, A> {
    /// The empty configuration of [`Builder::new`].
    fn default() -> (r: Self)
        ensures
            r.entries() == Seq::<(u64, H)>::empty(),
            r.service_ids() == Seq::<u64>::empty(),
            r.bind_target() is None,
            r.welcome_text() is None,
            !r.localhost_only(),
    {
        let r = Self::new();
        r
    }
}

/// Law: a list of registrations succeeds exactly when no service id occurs
/// twice in it, counting those already registered, whatever their order.
pub proof fn lemma_register_all_unique(ids: Seq<u64>, more: Seq<u64>)
    requires
        ids.no_duplicates(),
    ensures
        register_all(ids, more) is Some <==> (ids + more).no_duplicates(),
        register_all(ids, more) matches Some(all) ==> all == ids + more,
    decreases more.len(),
{
    if more.len() == 0 {
        assert(ids + more =~= ids);
    } else {
        let rest = more.subrange(1, more.len() as int);
        assert(ids + more =~= ids.push(more[0]) + rest);
        if ids.contains(more[0]) {
            let k = choose|k: int| 0 <= k < ids.len() && ids[k] == more[0];
            assert((ids + more)[k] == (ids + more)[ids.len() as int]);
        } else {
            let next = ids.push(more[0]);
            assert(next.no_duplicates()) by {
                assert forall|a: int, b: int| 0 <= a < next.len() && 0 <= b < next.len() && a != b
                    implies next[a] != next[b] by {
                    if a == ids.len() {
                        assert(ids[b] == next[b]);
                    } else if b == ids.len() {
                        assert(ids[a] == next[a]);
                    }
                }
            }
            lemma_register_all_unique(next, rest);
        }
    }
}

/// Whether a peer is admitted: its address must be known, and under the origin
/// restriction it must be on the loopback interface.
pub open spec fn admitted(localhost_only: bool, peer_is_loopback: Option<bool>) -> bool {
    peer_is_loopback matches Some(l) && (l || !localhost_only)
}

/// The console state: the registry, the bind address, the welcome text and
/// the origin restriction, fixed once built.
pub struct ConsoleState<H, A> {
    subscriptions: Vec<(u64, H)>,
    bind_address: A,
    welcome: String,
    accept_only_localhost: bool,
}

impl<H, A> ConsoleState<H, A> {
    /// The registered handlers with their service ids, in registry order.
    pub closed spec fn entries(&self) -> Seq<(u64, H)> {
        self.subscriptions@
    }

    /// The registered service ids, in registry order.
    pub open spec fn service_ids(&self) -> Seq<u64> {
        ids_of(self.entries())
    }

    /// The address to listen on.
    pub closed spec fn bind_target(&self) -> A {
        self.bind_address
    }

    /// The text sent first on every accepted connection.
    pub closed spec fn welcome_text(&self) -> Seq<char> {
        self.welcome@
    }

    /// Whether only loopback peers are accepted.
    pub closed spec fn localhost_only(&self) -> bool {
        self.accept_only_localhost
    }

    /// The number of registered handlers.
    pub fn len(&self) -> (r: usize)
        ensures
            r == self.entries().len(),
    {
        self.subscriptions.len()
    }

    /// The service id at `index` in registry order.
    pub fn service_id(&self, index: usize) -> (r: u64)
        requires
            index < self.entries().len(),
        ensures
            r == self.service_ids()[index as int],
    {
        self.subscriptions[index].0
    }

    /// The handler at `index` in registry order.
    pub fn subscription(&self, index: usize) -> (r: &H)
        requires
            index < self.entries().len(),
        ensures
            *r == self.entries()[index as int].1,
    {
        &self.subscriptions[index].1
    }

    /// The address to listen on.
    pub fn bind_address(&self) -> (r: &A)
        ensures
            *r == self.bind_target(),
    {
        &self.bind_address
    }

    /// The welcome text, terminated by a line feed.
    pub fn welcome(&self) -> (r: &String)
        ensures
            r@ == self.welcome_text(),
    {
        &self.welcome
    }

    /// Whether only loopback peers are accepted.
    pub fn accept_only_localhost(&self) -> (r: bool)
        ensures
            r == self.localhost_only(),
    {
        self.accept_only_localhost
    }

    /// The position in registry order of the handler for `service_id`.
    pub fn find(&self, service_id: u64) -> (r: Option<usize>)
        ensures
            r is Some <==> self.service_ids().contains(service_id),
            r matches Some(i) ==> i < self.entries().len() && self.service_ids()[i as int]
                == service_id && forall|j: int| 0 <= j < i ==> self.service_ids()[j] != service_id,
    {
        let n = self.subscriptions.len();
        let mut i: usize = 0;
        while i < n
            invariant
                n == self.entries().len(),
                0 <= i <= n,
                forall|j: int| 0 <= j < i ==> self.service_ids()[j] != service_id,
            decreases n - i,
        {
            if self.subscriptions[i].0 == service_id {
                assert(self.service_ids()[i as int] == service_id);
                return Some(i);
            }
            i = i + 1;
        }
        None
    }

    /// Whether a connection from a peer is admitted. `peer_is_loopback` is
    /// `None` where the peer's address could not be read: such a peer is
    /// refused, as a foreign one is under the origin restriction.
    pub fn admits(&self, peer_is_loopback: Option<bool>) -> (r: bool)
        ensures
            r == admitted(self.localhost_only(), peer_is_loopback),
    {
        match peer_is_loopback {
            None => false,
            Some(l) => l || !self.accept_only_localhost,
        }
    }
}

} // verus!
