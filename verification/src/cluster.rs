//! The set of named clusters the server can talk to, and which one is active.
use vstd::prelude::*;

use crate::text::str_eq;

verus! {

/// What a cluster manager holds: a client per cluster name, and the active name.
pub struct ClusterView<C> {
    pub clients: Map<Seq<char>, C>,
    pub active: Seq<char>,
}

/// Named cluster clients, one of them active.
pub struct ClusterManager<C> {
    names: Vec<String>,
    clients: Vec<C>,
    active: String,
}

/// The refusal of a switch to a cluster that is not registered.
pub open spec fn not_found_text(name: Seq<char>) -> Seq<char> {
    "cluster '"@ + name + "' not found"@
}

spec fn name_at<C>(names: Seq<String>, name: Seq<char>) -> int {
    choose|i: int| 0 <= i < names.len() && #[trigger] names[i]@ == name
}

spec fn registered(names: Seq<String>, name: Seq<char>) -> bool {
    exists|i: int| 0 <= i < names.len() && #[trigger] names[i]@ == name
}

impl<C> View for ClusterManager<C> {
    type V = ClusterView<C>;

    closed spec fn view(&self) -> ClusterView<C> {
        ClusterView {
            clients: Map::new(
                |k: Seq<char>| registered(self.names@, k),
                |k: Seq<char>| self.clients@[name_at::<C>(self.names@, k)],
            ),
            active: self.active@,
        }
    }
}

impl<C> ClusterManager<C> {
    /// Names are distinct, each has a client, and the active name is registered.
    pub closed spec fn wf(&self) -> bool {
        &&& self.names@.len() == self.clients@.len()
        &&& forall|i: int, j: int|
            0 <= i < j < self.names@.len() ==> #[trigger] self.names@[i]@ != #[trigger] self.names@[j]@
        &&& registered(self.names@, self.active@)
    }

    /// A manager holding one cluster, which is active.
    pub fn new(default_client: C, default_name: String) -> (r: Self)
        ensures
            r.wf(),
            r@.clients == Map::<Seq<char>, C>::empty().insert(default_name@, default_client),
            r@.active == default_name@,
    {
        let mut names: Vec<String> = Vec::new();
        let mut clients: Vec<C> = Vec::new();
        let ghost client = default_client;
        let active = default_name.clone();
        names.push(default_name);
        clients.push(default_client);
        let r = ClusterManager { names, clients, active };
        proof {
            assert(r.names@[0]@ == r.active@);
            assert(r@.clients =~= Map::<Seq<char>, C>::empty().insert(r.active@, client)) by {
                assert forall|k: Seq<char>| #[trigger] registered(r.names@, k) == (k == r.active@) by {
                    if k == r.active@ {
                        assert(r.names@[0]@ == k);
                    }
                }
            }
        }
        r
    }

    fn position(&self, name: &str) -> (r: Option<usize>)
        requires
            self.wf(),
        ensures
            match r {
                Some(i) => i < self.names@.len() && self.names@[i as int]@ == name@,
                None => !registered(self.names@, name@),
            },
    {
        let n = self.names.len();
        for i in 0..n
            invariant
                n == self.names@.len(),
                forall|j: int| 0 <= j < i ==> self.names@[j]@ != name@,
        {
            if str_eq(self.names[i].as_str(), name) {
                return Some(i);
            }
        }
        None
    }

    /// The client of the active cluster (always present).
    pub fn active_client(&self) -> (r: Option<&C>)
        requires
            self.wf(),
        ensures
            r matches Some(c) && self@.clients.contains_key(self@.active) && *c
                == self@.clients[self@.active],
    {
        match self.position(self.active.as_str()) {
            Some(i) => {
                proof {
                    assert(name_at::<C>(self.names@, self.active@) == i);
                }
                Some(&self.clients[i])
            },
            None => None,
        }
    }

    /// The name of the active cluster.
    pub fn active_name(&self) -> (r: String)
        ensures
            r@ == self@.active,
    {
        self.active.clone()
    }

    /// Makes `name` the active cluster; refused when it is not registered.
    pub fn switch(&mut self, name: &str) -> (r: Result<(), String>)
        requires
            old(self).wf(),
        ensures
            final(self).wf(),
            final(self)@.clients == old(self)@.clients,
            r is Ok <==> old(self)@.clients.contains_key(name@),
            r is Ok ==> final(self)@.active == name@,
            r matches Err(e) ==> e@ == not_found_text(name@) && final(self)@.active == old(self)@.active,
    {
        match self.position(name) {
            Some(i) => {
                self.active = String::from_str(name);
                proof {
                    assert(self.names@[i as int]@ == self.active@);
                    assert(self@.clients =~= old(self)@.clients);
                }
                Ok(())
            },
            None => {
                let mut m = String::from_str("cluster '");
                m.append(name);
                m.append("' not found");
                proof {
                    reveal_strlit("cluster '");
                    reveal_strlit("' not found");
                }
                Err(m)
            },
        }
    }

    /// The names of all registered clusters, each once.
    pub fn list_clusters(&self) -> (r: Vec<String>)
        requires
            self.wf(),
        ensures
            r@.len() == self@.clients.dom().len(),
            forall|i: int| 0 <= i < r@.len() ==> self@.clients.contains_key(#[trigger] r@[i]@),
            forall|k: Seq<char>| self@.clients.contains_key(k) ==> exists|i: int| 0 <= i < r@.len() && #[trigger] r@[i]@ == k,
            forall|i: int, j: int| 0 <= i < j < r@.len() ==> #[trigger] r@[i]@ != #[trigger] r@[j]@,
    {
        let mut out: Vec<String> = Vec::new();
        let n = self.names.len();
        for i in 0..n
            invariant
                n == self.names@.len(),
                out@.len() == i,
                forall|j: int| 0 <= j < i ==> #[trigger] out@[j]@ == self.names@[j]@,
        {
            out.push(self.names[i].clone());
        }
        proof {
            let names = self.names@;
            let views = names.map_values(|s: String| s@);
            assert forall|k: Seq<char>| #[trigger] self@.clients.contains_key(k) == views.contains(k) by {
                if registered(names, k) {
                    let i = choose|i: int| 0 <= i < names.len() && #[trigger] names[i]@ == k;
                    assert(views[i] == k);
                }
                if views.contains(k) {
                    let i = choose|i: int| 0 <= i < views.len() && views[i] == k;
                    assert(names[i]@ == k);
                }
            }
            assert(self@.clients.dom() =~= views.to_set());
            assert(views.no_duplicates()) by {
                assert forall|i: int, j: int| 0 <= i < views.len() && 0 <= j < views.len() && i != j
                    implies views[i] != views[j] by {
                    if i < j {
                        assert(names[i]@ != names[j]@);
                    } else {
                        assert(names[j]@ != names[i]@);
                    }
                }
            }
            views.unique_seq_to_set();
            assert forall|k: Seq<char>| self@.clients.contains_key(k) implies exists|i: int|
                0 <= i < out@.len() && #[trigger] out@[i]@ == k by {
                let i = choose|i: int| 0 <= i < names.len() && #[trigger] names[i]@ == k;
                assert(out@[i]@ == k);
            }
            assert forall|i: int| 0 <= i < out@.len() implies self@.clients.contains_key(#[trigger] out@[i]@) by {
                assert(names[i]@ == out@[i]@);
            }
        }
        out
    }

    /// Registers `client` under `name`, replacing any client of that name.
    pub fn add_cluster(&mut self, name: String, client: C)
        requires
            old(self).wf(),
        ensures
            final(self).wf(),
            final(self)@.clients == old(self)@.clients.insert(name@, client),
            final(self)@.active == old(self)@.active,
    {
        let ghost k = name@;
        let ghost c = client;
        let ghost old_names = self.names@;
        let ghost old_clients = self.clients@;
        match self.position(name.as_str()) {
            Some(i) => {
                self.clients.set(i, client);
                proof {
                    assert(self.names@ == old_names);
                    assert(self@.clients =~= old(self)@.clients.insert(k, c)) by {
                        assert forall|x: Seq<char>| registered(self.names@, x) implies self.clients@[name_at::<C>(self.names@, x)]
                            == old(self)@.clients.insert(k, c)[x] by {
                            let j = name_at::<C>(self.names@, x);
                            if x == k {
                                assert(self.names@[i as int]@ == x);
                                assert(j == i);
                            } else {
                                assert(j != i);
                            }
                        }
                        assert forall|x: Seq<char>| #[trigger] registered(self.names@, x) == (registered(old_names, x) || x == k) by {
                            if x == k {
                                assert(self.names@[i as int]@ == x);
                            }
                        }
                    }
                }
            },
            None => {
                self.names.push(name);
                self.clients.push(client);
                proof {
                    let n = old_names.len();
                    let names = self.names@;
                    assert forall|x: Seq<char>| #[trigger] registered(names, x) == (registered(old_names, x) || x == k) by {
                        if registered(old_names, x) {
                            let j = choose|j: int| 0 <= j < old_names.len() && #[trigger] old_names[j]@ == x;
                            assert(names[j] == old_names[j]);
                        }
                        if x == k {
                            assert(names[n as int]@ == k);
                        }
                        if registered(names, x) {
                            let j = choose|j: int| 0 <= j < names.len() && #[trigger] names[j]@ == x;
                            if j < n {
                                assert(names[j] == old_names[j]);
                            }
                        }
                    }
                    assert forall|a: int, b: int| 0 <= a < b < names.len() implies #[trigger] names[a]@
                        != #[trigger] names[b]@ by {
                        if b < n {
                            assert(names[a] == old_names[a] && names[b] == old_names[b]);
                        } else {
                            assert(names[a] == old_names[a]);
                        }
                    }
                    assert(registered(names, self.active@)) by {
                        let j = choose|j: int| 0 <= j < old_names.len() && #[trigger] old_names[j]@ == self.active@;
                        assert(names[j] == old_names[j]);
                    }
                    assert(self@.clients =~= old(self)@.clients.insert(k, c)) by {
                        assert forall|x: Seq<char>| registered(names, x) implies self.clients@[name_at::<C>(names, x)]
                            == old(self)@.clients.insert(k, c)[x] by {
                            let j = name_at::<C>(names, x);
                            if x == k {
                                assert(names[n as int]@ == x);
                                assert(j == n);
                            } else {
                                assert(j < n);
                                assert(names[j] == old_names[j]);
                                let j2 = name_at::<C>(old_names, x);
                                assert(old_names[j2]@ == x);
                                assert(j2 == j);
                                assert(self.clients@[j] == old_clients[j]);
                            }
                        }
                    }
                }
            },
        }
    }
}

/// The line listing cluster `name`: marked when it is the active one.
pub open spec fn cluster_line(name: Seq<char>, active: Seq<char>) -> Seq<char> {
    if name == active {
        "* "@ + name + " (active)"@
    } else {
        "  "@ + name
    }
}

/// The confirmation of a switch.
pub open spec fn switched_text(name: Seq<char>) -> Seq<char> {
    "Switched active cluster to '"@ + name + "'"@
}

impl<C> ClusterManager<C> {
    /// The text of the `list_clusters` tool: one line per registered cluster,
    /// each cluster named on exactly one line, the active one marked.
    pub fn cluster_list_text(&self) -> (r: String)
        requires
            self.wf(),
        ensures
            exists|names: Seq<String>|
                #![trigger names.len()]
                names.len() == self@.clients.dom().len() && (forall|i: int|
                    0 <= i < names.len() ==> self@.clients.contains_key(#[trigger] names[i]@))
                    && (forall|k: Seq<char>|
                    self@.clients.contains_key(k) ==> exists|i: int|
                        0 <= i < names.len() && #[trigger] names[i]@ == k) && (forall|i: int, j: int|
                    0 <= i < j < names.len() ==> #[trigger] names[i]@ != #[trigger] names[j]@)
                    && r@ == crate::handlers::join(
                    Seq::new(names.len(), |i: int| cluster_line(names[i]@, self@.active)),
                    "\n"@,
                ),
    {
        proof {
            reveal_strlit("* ");
            reveal_strlit(" (active)");
            reveal_strlit("  ");
        }
        let names = self.list_clusters();
        let mut lines: Vec<String> = Vec::new();
        let n = names.len();
        for i in 0..n
            invariant
                n == names@.len(),
                lines@.len() == i,
                forall|j: int| 0 <= j < i ==> #[trigger] lines@[j]@ == cluster_line(names@[j]@, self@.active),
        {
            let line = if str_eq(names[i].as_str(), self.active.as_str()) {
                let mut l = String::from_str("* ");
                l.append(names[i].as_str());
                l.append(" (active)");
                l
            } else {
                let mut l = String::from_str("  ");
                l.append(names[i].as_str());
                l
            };
            lines.push(line);
        }
        let r = crate::handlers::join_texts(&lines, "\n");
        proof {
            assert(crate::model::texts(lines@) =~= Seq::new(
                names@.len(),
                |i: int| cluster_line(names@[i]@, self@.active),
            ));
            assert(names@.len() == self@.clients.dom().len());
        }
        r
    }

    /// The `switch_cluster` tool: the name is required; the switch may be refused.
    pub fn switch_cluster_tool(&mut self, name: Option<&str>) -> (r: Result<String, String>)
        requires
            old(self).wf(),
        ensures
            final(self).wf(),
            final(self)@.clients == old(self)@.clients,
            match name {
                None => r matches Err(e) && e@ == "name is required"@ && final(self)@ == old(self)@,
                Some(n) => if old(self)@.clients.contains_key(n@) {
                    r matches Ok(m) && m@ == switched_text(n@) && final(self)@.active == n@
                } else {
                    r matches Err(e) && e@ == not_found_text(n@) && final(self)@.active == old(self)@.active
                },
            },
    {
        proof {
            reveal_strlit("name is required");
            reveal_strlit("Switched active cluster to '");
            reveal_strlit("'");
        }
        let n = match name {
            Some(n) => n,
            None => return Err(String::from_str("name is required")),
        };
        match self.switch(n) {
            Ok(()) => {
                let mut m = String::from_str("Switched active cluster to '");
                m.append(n);
                m.append("'");
                Ok(m)
            },
            Err(e) => Err(e),
        }
    }
}

/// A cluster just added can be switched to, and its client is the one added.
pub proof fn lemma_added_cluster_is_reachable<C>(c: ClusterView<C>, name: Seq<char>, client: C)
    ensures
        c.clients.insert(name, client).contains_key(name),
        c.clients.insert(name, client)[name] == client,
{
}

/// In a cluster list as `cluster_list_text` describes it, every registered
/// cluster is named on exactly one line.
pub proof fn lemma_each_cluster_on_one_line<C>(v: ClusterView<C>, names: Seq<String>, k: Seq<char>)
    requires
        forall|c: Seq<char>|
            v.clients.contains_key(c) ==> exists|i: int| 0 <= i < names.len() && #[trigger] names[i]@ == c,
        forall|i: int, j: int| 0 <= i < j < names.len() ==> #[trigger] names[i]@ != #[trigger] names[j]@,
        v.clients.contains_key(k),
    ensures
        exists|i: int|
            0 <= i < names.len() && names[i]@ == k && forall|j: int|
                0 <= j < names.len() && #[trigger] names[j]@ == k ==> j == i,
{
    let i = choose|i: int| 0 <= i < names.len() && #[trigger] names[i]@ == k;
    assert forall|j: int| 0 <= j < names.len() && #[trigger] names[j]@ == k implies j == i by {
        if j < i {
            assert(names[j]@ != names[i]@);
        } else if i < j {
            assert(names[i]@ != names[j]@);
        }
    }
}

} // verus!
