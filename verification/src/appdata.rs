//! The register of push clients, the address the service is bound to, and the
//! signal that announces a new reading.

use crate::endpoint::Endpoint;
use crate::error::ControlError;
use vstd::prelude::*;

verus! {

/// `event_listener::Event`, held and handed on without a look inside.
#[verifier::external_type_specification]
#[verifier::external_body]
#[verifier::reject_recursive_types(T)]
pub struct ExEvent<T>(event_listener::Event<T>);

/// `event_listener::EventListener`, handed to the task that waits on it.
#[verifier::external_type_specification]
#[verifier::external_body]
#[verifier::reject_recursive_types(T)]
pub struct ExEventListener<T>(event_listener::EventListener<T>);

/// `event_listener::Event::new`: a signal that nobody listens to yet. Nothing
/// is claimed of it.
#[verifier::external_body]
fn new_event() -> event_listener::Event<()> {
    event_listener::Event::new()
}

/// What the tasks of the service share besides the reading: the address the
/// control interface is bound to, the set of registered clients, and the
/// signal on which the push task waits.
///
/// The register holds no endpoint twice.
pub struct AppData {
    local_addr: Endpoint,
    client_register: Vec<Endpoint>,
    event_listener: event_listener::Event<()>,
}

impl AppData {
    #[verifier::type_invariant]
    spec fn no_client_twice(self) -> bool {
        self.client_register@.no_duplicates()
    }

    /// The set of registered clients.
    pub closed spec fn clients(self) -> Set<Endpoint> {
        self.client_register@.to_set()
    }

    /// The address the control interface is bound to.
    pub closed spec fn bound_to(self) -> Endpoint {
        self.local_addr
    }

    /// The signal that announces a new reading.
    pub closed spec fn signal(self) -> event_listener::Event<()> {
        self.event_listener
    }

    /// The register of a service is finite at all times.
    pub proof fn lemma_clients_finite(self)
        ensures
            self.clients().finite(),
    {
        vstd::seq_lib::seq_to_set_is_finite(self.client_register@);
    }

    /// The data of a service bound to `local_addr`, with no client registered.
    pub fn new(local_addr: Endpoint) -> (r: Self)
        ensures
            r.bound_to() == local_addr,
            r.clients() == Set::<Endpoint>::empty(),
    {
        let r = AppData {
            local_addr,
            client_register: Vec::new(),
            event_listener: new_event(),
        };
        assert(r.client_register@.to_set() =~= Set::<Endpoint>::empty());
        r
    }

    /// The address the control interface is bound to.
    pub fn local_addr(&self) -> (r: &Endpoint)
        ensures
            *r == self.bound_to(),
    {
        &self.local_addr
    }

    /// Announces a new reading: `event_listener::Event::notify` with the
    /// largest count, which is meant to wake every task that listens at this
    /// moment. The effect is on tasks, not on values: the contract claims
    /// nothing.
    #[verifier::external_body]
    pub fn emit_event(&self) {
        self.event_listener.notify(usize::MAX);
    }

    /// A listener on the signal, from `event_listener::Event::listen`, for a
    /// task that wants to wait for the next announcement. The contract claims
    /// nothing of it.
    #[verifier::external_body]
    pub fn event_listener(&self) -> event_listener::EventListener<()> {
        self.event_listener.listen()
    }

    /// Whether `client_addr` is registered.
    pub fn is_registered(&self, client_addr: Endpoint) -> (r: bool)
        ensures
            r == self.clients().contains(client_addr),
    {
        let mut i: usize = 0;
        while i < self.client_register.len()
            invariant
                i <= self.client_register.len(),
                forall|j: int| 0 <= j < i ==> self.client_register@[j] != client_addr,
            decreases self.client_register.len() - i,
        {
            if self.client_register[i] == client_addr {
                return true;
            }
            i += 1;
        }
        false
    }

    /// Adds `client_addr` to the register, unless it is there already.
    pub fn register_client(&mut self, client_addr: Endpoint) -> (r: Result<(), ControlError>)
        ensures
            final(self).bound_to() == old(self).bound_to(),
            final(self).signal() == old(self).signal(),
            final(self).clients() == clients_after(
                old(self).clients(),
                RegisterCall::Register(client_addr),
            ),
            r == reply_to(old(self).clients(), RegisterCall::Register(client_addr)),
    {
        proof {
            use_type_invariant(&*self);
        }
        if self.is_registered(client_addr) {
            assert(self.clients().insert(client_addr) =~= self.clients());
            return Err(ControlError::AlreadyRegistered);
        }
        let mut clients = self.client_register.clone();
        clients.push(client_addr);
        proof {
            assert(clients@ =~= old(self).client_register@.push(client_addr));
            old(self).client_register@.lemma_push_to_set_commute(client_addr);
        }
        self.client_register = clients;
        Ok(())
    }

    /// Takes `client_addr` out of the register. Where it is not registered the
    /// call changes nothing, and is no failure.
    pub fn unregister_client(&mut self, client_addr: Endpoint)
        ensures
            final(self).bound_to() == old(self).bound_to(),
            final(self).signal() == old(self).signal(),
            final(self).clients() == clients_after(
                old(self).clients(),
                RegisterCall::Unregister(client_addr),
            ),
    {
        proof {
            use_type_invariant(&*self);
        }
        let mut i: usize = 0;
        while i < self.client_register.len()
            invariant
                i <= self.client_register.len(),
                *self == *old(self),
                self.client_register@.no_duplicates(),
                forall|j: int| 0 <= j < i ==> self.client_register@[j] != client_addr,
            decreases self.client_register.len() - i,
        {
            if self.client_register[i] == client_addr {
                let mut clients = self.client_register.clone();
                clients.remove(i);
                proof {
                    assert(clients@ =~= self.client_register@.remove(i as int));
                    lemma_remove_entry(self.client_register@, i as int);
                }
                self.client_register = clients;
                return ;
            }
            i += 1;
        }
        proof {
            assert(self.client_register@.to_set() =~= self.client_register@.to_set().remove(
                client_addr,
            ));
        }
    }

    /// The registered clients, each of them once.
    pub fn list_clients(&self) -> (r: Vec<Endpoint>)
        ensures
            r@.no_duplicates(),
            r@.to_set() == self.clients(),
    {
        proof {
            use_type_invariant(self);
        }
        self.client_register.clone()
    }
}

/// One call on the register.
pub enum RegisterCall {
    /// A call of [`AppData::register_client`].
    Register(Endpoint),
    /// A call of [`AppData::unregister_client`].
    Unregister(Endpoint),
}

impl RegisterCall {
    /// The endpoint that the call is about.
    pub open spec fn subject(self) -> Endpoint {
        match self {
            RegisterCall::Register(e) => e,
            RegisterCall::Unregister(e) => e,
        }
    }
}

/// The registered clients after one call. To register a client that is there
/// changes nothing, and so does to unregister one that is not.
pub open spec fn clients_after(clients: Set<Endpoint>, call: RegisterCall) -> Set<Endpoint> {
    match call {
        RegisterCall::Register(e) => clients.insert(e),
        RegisterCall::Unregister(e) => clients.remove(e),
    }
}

/// The registered clients after a sequence of calls, the first of them first.
pub open spec fn clients_after_all(clients: Set<Endpoint>, calls: Seq<RegisterCall>) -> Set<
    Endpoint,
>
    decreases calls.len(),
{
    if calls.len() == 0 {
        clients
    } else {
        clients_after(clients_after_all(clients, calls.drop_last()), calls.last())
    }
}

/// What a call is answered: a registration of a client that is registered
/// is refused, and every other call succeeds.
pub open spec fn reply_to(clients: Set<Endpoint>, call: RegisterCall) -> Result<(), ControlError> {
    if call is Register && clients.contains(call.subject()) {
        Err(ControlError::AlreadyRegistered)
    } else {
        Ok(())
    }
}

/// A registration that is refused changes nothing, and neither does it to
/// unregister a client that is not registered.
pub proof fn lemma_refused_or_absent_changes_nothing(clients: Set<Endpoint>, call: RegisterCall)
    requires
        reply_to(clients, call) is Err || (call is Unregister && !clients.contains(call.subject())),
    ensures
        clients_after(clients, call) == clients,
{
    assert(clients_after(clients, call) =~= clients);
}

/// After any sequence of calls, an endpoint is registered exactly if the last
/// call about it registered it, or if no call was about it and it was
/// registered before.
pub proof fn lemma_last_call_decides(clients: Set<Endpoint>, calls: Seq<RegisterCall>, e: Endpoint)
    ensures
        clients_after_all(clients, calls).contains(e) <==> {
            ||| exists|i: int|
                {
                    &&& 0 <= i < calls.len()
                    &&& #[trigger] calls[i] == RegisterCall::Register(e)
                    &&& forall|j: int| i < j < calls.len() ==> (#[trigger] calls[j]).subject() != e
                }
            ||| {
                &&& clients.contains(e)
                &&& forall|j: int| 0 <= j < calls.len() ==> (#[trigger] calls[j]).subject() != e
            }
        },
    decreases calls.len(),
{
    if calls.len() > 0 {
        let before = calls.drop_last();
        let n = calls.len() - 1;
        lemma_last_call_decides(clients, before, e);
        assert forall|j: int| 0 <= j < n implies before[j] == calls[j] by {}
        if calls.last().subject() == e {
            if calls.last() is Register {
                assert(calls[n] == RegisterCall::Register(e));
            } else {
                assert(calls[n].subject() == e);
            }
        } else if clients_after_all(clients, before).contains(e) {
            if exists|i: int|
                {
                    &&& 0 <= i < before.len()
                    &&& #[trigger] before[i] == RegisterCall::Register(e)
                    &&& forall|j: int| i < j < before.len() ==> (#[trigger] before[j]).subject() != e
                } {
                let i = choose|i: int|
                    {
                        &&& 0 <= i < before.len()
                        &&& #[trigger] before[i] == RegisterCall::Register(e)
                        &&& forall|j: int|
                            i < j < before.len() ==> (#[trigger] before[j]).subject() != e
                    };
                assert(calls[i] == RegisterCall::Register(e));
                assert forall|j: int| i < j < calls.len() implies (#[trigger] calls[j]).subject()
                    != e by {
                    if j < n {
                        assert(before[j].subject() != e);
                    }
                }
            } else {
                assert forall|j: int| 0 <= j < calls.len() implies (#[trigger] calls[j]).subject()
                    != e by {
                    if j < n {
                        assert(before[j].subject() != e);
                    }
                }
            }
        } else {
            if exists|i: int|
                {
                    &&& 0 <= i < calls.len()
                    &&& #[trigger] calls[i] == RegisterCall::Register(e)
                    &&& forall|j: int| i < j < calls.len() ==> (#[trigger] calls[j]).subject() != e
                } {
                let i = choose|i: int|
                    {
                        &&& 0 <= i < calls.len()
                        &&& #[trigger] calls[i] == RegisterCall::Register(e)
                        &&& forall|j: int| i < j < calls.len() ==> (#[trigger] calls[j]).subject() != e
                    };
                assert(i < n);
                assert(before[i] == RegisterCall::Register(e));
                assert forall|j: int| i < j < before.len() implies (#[trigger] before[j]).subject()
                    != e by {
                    assert(calls[j].subject() != e);
                }
            }
            if clients.contains(e) && forall|j: int|
                0 <= j < calls.len() ==> (#[trigger] calls[j]).subject() != e {
                assert forall|j: int| 0 <= j < before.len() implies (#[trigger] before[j]).subject()
                    != e by {
                    assert(calls[j].subject() != e);
                }
            }
        }
    }
}

/// After any sequence of calls on a finite register the register is finite.
pub proof fn lemma_register_stays_finite(clients: Set<Endpoint>, calls: Seq<RegisterCall>)
    requires
        clients.finite(),
    ensures
        clients_after_all(clients, calls).finite(),
    decreases calls.len(),
{
    if calls.len() > 0 {
        lemma_register_stays_finite(clients, calls.drop_last());
    }
}

/// A list without repetitions that holds an endpoint holds it at one place
/// only.
pub proof fn lemma_listed_once(list: Seq<Endpoint>, e: Endpoint)
    requires
        list.no_duplicates(),
        list.to_set().contains(e),
    ensures
        exists|i: int|
            {
                &&& 0 <= i < list.len()
                &&& #[trigger] list[i] == e
                &&& forall|j: int| 0 <= j < list.len() && j != i ==> list[j] != e
            },
{
    let i = choose|i: int| 0 <= i < list.len() && list[i] == e;
    assert(list[i] == e);
}

/// The list of clients that is taken right after two different endpoints
/// were registered holds each of the two exactly once.
pub proof fn lemma_two_registrations_are_listed(
    clients: Set<Endpoint>,
    a: Endpoint,
    b: Endpoint,
    list: Seq<Endpoint>,
)
    requires
        a != b,
        list.no_duplicates(),
        list.to_set() == clients_after(
            clients_after(clients, RegisterCall::Register(a)),
            RegisterCall::Register(b),
        ),
    ensures
        exists|i: int, j: int|
            {
                &&& 0 <= i < list.len() && 0 <= j < list.len() && i != j
                &&& #[trigger] list[i] == a
                &&& #[trigger] list[j] == b
                &&& forall|k: int| 0 <= k < list.len() && k != i ==> list[k] != a
                &&& forall|k: int| 0 <= k < list.len() && k != j ==> list[k] != b
            },
{
    lemma_listed_once(list, a);
    lemma_listed_once(list, b);
    let i = choose|i: int|
        {
            &&& 0 <= i < list.len()
            &&& #[trigger] list[i] == a
            &&& forall|j: int| 0 <= j < list.len() && j != i ==> list[j] != a
        };
    let j = choose|j: int|
        {
            &&& 0 <= j < list.len()
            &&& #[trigger] list[j] == b
            &&& forall|k: int| 0 <= k < list.len() && k != j ==> list[k] != b
        };
    assert(list[i] == a && list[j] == b);
}

/// Taking one entry out of a sequence without repetitions leaves a sequence
/// without repetitions, whose entries are the others.
proof fn lemma_remove_entry(s: Seq<Endpoint>, i: int)
    requires
        s.no_duplicates(),
        0 <= i < s.len(),
    ensures
        s.remove(i).no_duplicates(),
        s.remove(i).to_set() == s.to_set().remove(s[i]),
{
    let rest = s.remove(i);
    assert forall|x: Endpoint| rest.contains(x) <==> (s.contains(x) && x != s[i]) by {
        if rest.contains(x) {
            let j = choose|j: int| 0 <= j < rest.len() && rest[j] == x;
            if j < i {
                assert(s[j] == x);
            } else {
                assert(s[j + 1] == x);
            }
        }
        if s.contains(x) && x != s[i] {
            let j = choose|j: int| 0 <= j < s.len() && s[j] == x;
            if j < i {
                assert(rest[j] == x);
            } else {
                assert(rest[j - 1] == x);
            }
        }
    }
    assert(rest.to_set() =~= s.to_set().remove(s[i]));
}

} // verus!
