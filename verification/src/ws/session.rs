//! Per-connection state for one browser socket: the port selected via
//! `connect` (the daemon itself is connectionless per port), whether a serial
//! monitor is open (at most one per session), and the ids of the in-flight
//! long-running requests that `cancel{id}` can reach.
//!
//! The live handles behind this state (the daemon client, cancellation
//! tokens, the monitor's channels, the scratch directory) are held by the socket
//! driver; this type is the state that decides what each request does.

use vstd::prelude::*;
use crate::resource::ResourceRoot;

verus! {

pub open spec fn ids_view(v: Seq<String>) -> Seq<Seq<char>> {
    v.map_values(|s: String| s@)
}

/// State for one browser WS connection.
pub struct Session {
    resource_root: ResourceRoot,
    selected_port: Option<String>,
    in_flight: Vec<String>,
    monitor_open: bool,
}

/// A session over mathematical values.
pub struct SessionView {
    pub resource_root: Seq<char>,
    pub selected_port: Option<Seq<char>>,
    pub in_flight: Set<Seq<char>>,
    pub monitor_open: bool,
}

impl View for Session {
    type V = SessionView;

    closed spec fn view(&self) -> SessionView {
        SessionView {
            resource_root: self.resource_root@,
            selected_port: match self.selected_port {
                Some(p) => Some(p@),
                None => None,
            },
            in_flight: ids_view(self.in_flight@).to_set(),
            monitor_open: self.monitor_open,
        }
    }
}

proof fn lemma_push_keeps_no_duplicates(s: Seq<Seq<char>>, x: Seq<char>)
    requires
        s.no_duplicates(),
        !s.contains(x),
    ensures
        s.push(x).no_duplicates(),
{
    let t = s.push(x);
    assert forall|i: int, j: int| 0 <= i < t.len() && 0 <= j < t.len() && i != j implies t[i] != t[j] by {
        if i == s.len() {
            assert(s[j] == t[j]);
        } else if j == s.len() {
            assert(s[i] == t[i]);
        }
    }
}

proof fn lemma_push_to_set(s: Seq<Seq<char>>, x: Seq<char>)
    ensures
        s.push(x).to_set() == s.to_set().insert(x),
{
    let t = s.push(x);
    assert forall|y: Seq<char>| t.contains(y) <==> s.to_set().insert(x).contains(y) by {
        if t.contains(y) {
            let k = choose|k: int| 0 <= k < t.len() && t[k] == y;
            if k < s.len() {
                assert(s[k] == y);
            }
        }
        if s.contains(y) {
            let k = choose|k: int| 0 <= k < s.len() && s[k] == y;
            assert(t[k] == y);
        }
        if y == x {
            assert(t[s.len() as int] == y);
        }
    }
    assert(t.to_set() =~= s.to_set().insert(x));
}

proof fn lemma_remove_keeps_no_duplicates(s: Seq<Seq<char>>, i: int)
    requires
        s.no_duplicates(),
        0 <= i < s.len(),
    ensures
        s.remove(i).no_duplicates(),
{
    let t = s.remove(i);
    assert forall|a: int, b: int| 0 <= a < t.len() && 0 <= b < t.len() && a != b implies t[a] != t[b] by {
        let sa = if a < i { a } else { a + 1 };
        let sb = if b < i { b } else { b + 1 };
        assert(t[a] == s[sa]);
        assert(t[b] == s[sb]);
    }
}

impl Session {
    /// Each in-flight id is registered once.
    #[verifier::type_invariant]
    closed spec fn well_formed(self) -> bool {
        ids_view(self.in_flight@).no_duplicates()
    }

    /// A fresh session: no port selected, no monitor, nothing in flight.
    pub fn new(resource_root: ResourceRoot) -> (r: Session)
        ensures
            r@.resource_root == resource_root@,
            r@.selected_port is None,
            r@.in_flight == Set::<Seq<char>>::empty(),
            !r@.monitor_open,
    {
        let r = Session { resource_root, selected_port: None, in_flight: Vec::new(), monitor_open: false };
        proof {
            assert(ids_view(r.in_flight@).to_set() =~= Set::<Seq<char>>::empty());
        }
        r
    }

    /// The resource root, for `compile` library resolution.
    pub fn resource_root(&self) -> (r: &ResourceRoot)
        ensures
            r@ == self@.resource_root,
    {
        &self.resource_root
    }

    /// The port chosen via `connect`, if any.
    pub fn selected_port(&self) -> (r: Option<&String>)
        ensures
            match r {
                Some(p) => self@.selected_port == Some(p@),
                None => self@.selected_port is None,
            },
    {
        match &self.selected_port {
            Some(p) => Some(p),
            None => None,
        }
    }

    /// Store the port chosen via `connect` as this session's selected port.
    pub fn select_port(&mut self, port: String)
        ensures
            final(self)@ == (SessionView { selected_port: Some(port@), ..old(self)@ }),
    {
        proof {
            use_type_invariant(&*self);
        }
        self.selected_port = Some(port);
    }

    /// Clear the selected port (via `disconnect`).
    pub fn clear_port(&mut self)
        ensures
            final(self)@ == (SessionView { selected_port: None, ..old(self)@ }),
    {
        proof {
            use_type_invariant(&*self);
        }
        self.selected_port = None;
    }

    /// Whether a serial monitor is currently open.
    pub fn has_monitor(&self) -> (r: bool)
        ensures
            r == self@.monitor_open,
    {
        self.monitor_open
    }

    /// Record that the monitor opened (after `monitorOpen` confirmed the port).
    pub fn set_monitor(&mut self)
        ensures
            final(self)@ == (SessionView { monitor_open: true, ..old(self)@ }),
    {
        proof {
            use_type_invariant(&*self);
        }
        self.monitor_open = true;
    }

    /// Record that the monitor is closed; returns whether one was open (and so
    /// has live handles to wind down).
    pub fn close_monitor(&mut self) -> (was_open: bool)
        ensures
            was_open == old(self)@.monitor_open,
            final(self)@ == (SessionView { monitor_open: false, ..old(self)@ }),
    {
        proof {
            use_type_invariant(&*self);
        }
        let was_open = self.monitor_open;
        self.monitor_open = false;
        was_open
    }

    fn find_in_flight(&self, id: &String) -> (r: Option<usize>)
        ensures
            match r {
                Some(i) => i < self.in_flight@.len() && self.in_flight@[i as int]@ == id@,
                None => !ids_view(self.in_flight@).contains(id@),
            },
    {
        let n = self.in_flight.len();
        for i in 0..n
            invariant
                n == self.in_flight@.len(),
                forall|j: int| 0 <= j < i ==> self.in_flight@[j]@ != id@,
        {
            if self.in_flight[i] == *id {
                return Some(i);
            }
        }
        proof {
            if ids_view(self.in_flight@).contains(id@) {
                let j = choose|j: int| 0 <= j < ids_view(self.in_flight@).len() && ids_view(self.in_flight@)[j] == id@;
                assert(self.in_flight@[j]@ == id@);
            }
        }
        None
    }

    /// Whether `id` names an in-flight request.
    pub fn is_in_flight(&self, id: &String) -> (r: bool)
        ensures
            r == self@.in_flight.contains(id@),
    {
        let r = self.find_in_flight(id).is_some();
        proof {
            if r {
                let i = choose|i: int| 0 <= i < self.in_flight@.len() && self.in_flight@[i]@ == id@;
                assert(ids_view(self.in_flight@)[i] == id@);
            }
        }
        r
    }

    /// Register a long-running request by its id (re-registering an id keeps a
    /// single entry, as a map insert would).
    pub fn register_in_flight(&mut self, id: String)
        ensures
            final(self)@ == (SessionView { in_flight: old(self)@.in_flight.insert(id@), ..old(self)@ }),
    {
        proof {
            use_type_invariant(&*self);
        }
        let ghost before = ids_view(self.in_flight@);
        match self.find_in_flight(&id) {
            Some(i) => {
                proof {
                    assert(before[i as int] == id@);
                    assert(before.to_set().insert(id@) =~= before.to_set());
                }
            },
            None => {
                let mut ids: Vec<String> = Vec::new();
                std::mem::swap(&mut ids, &mut self.in_flight);
                ids.push(id);
                proof {
                    assert(ids_view(ids@) =~= before.push(id@));
                    lemma_push_keeps_no_duplicates(before, id@);
                    lemma_push_to_set(before, id@);
                }
                self.in_flight = ids;
            },
        }
    }

    /// Deregister a request once its task has sent its terminal reply.
    pub fn finish_in_flight(&mut self, id: &String)
        ensures
            final(self)@ == (SessionView { in_flight: old(self)@.in_flight.remove(id@), ..old(self)@ }),
    {
        proof {
            use_type_invariant(&*self);
        }
        let ghost before = ids_view(self.in_flight@);
        match self.find_in_flight(id) {
            Some(i) => {
                let mut ids: Vec<String> = Vec::new();
                std::mem::swap(&mut ids, &mut self.in_flight);
                ids.remove(i);
                proof {
                    assert(ids_view(ids@) =~= before.remove(i as int));
                    lemma_remove_keeps_no_duplicates(before, i as int);
                }
                self.in_flight = ids;
                proof {
                    let after = ids_view(self.in_flight@);
                    assert(after =~= before.remove(i as int));
                    assert forall|x: Seq<char>| after.contains(x) <==> before.to_set().remove(id@).contains(x) by {
                        if after.contains(x) {
                            let k = choose|k: int| 0 <= k < after.len() && after[k] == x;
                            let kb = if k < i { k } else { k + 1 };
                            assert(before[kb] == x);
                            assert(kb != i);
                            assert(before[kb] != before[i as int]);
                            assert(before.contains(x));
                            assert(before.to_set().contains(x));
                        }
                        if before.to_set().remove(id@).contains(x) {
                            let k = choose|k: int| 0 <= k < before.len() && before[k] == x;
                            assert(k != i);
                            if k < i {
                                assert(after[k] == x);
                            } else {
                                assert(after[k - 1] == x);
                            }
                        }
                    }
                    assert(after.to_set() =~= before.to_set().remove(id@));
                }
            },
            None => {
                proof {
                    assert(before.to_set().remove(id@) =~= before.to_set());
                }
            },
        }
    }

    /// Take every in-flight id (on socket teardown, to cancel them all), leaving
    /// none registered.
    pub fn drain_in_flight(&mut self) -> (r: Vec<String>)
        ensures
            ids_view(r@).to_set() == old(self)@.in_flight,
            ids_view(r@).no_duplicates(),
            final(self)@ == (SessionView { in_flight: Set::empty(), ..old(self)@ }),
    {
        proof {
            use_type_invariant(&*self);
        }
        let mut taken: Vec<String> = Vec::new();
        std::mem::swap(&mut taken, &mut self.in_flight);
        proof {
            assert(ids_view(self.in_flight@).to_set() =~= Set::<Seq<char>>::empty());
        }
        taken
    }
}

} // verus!
