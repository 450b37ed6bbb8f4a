use vstd::prelude::*;

verus! {

/// Why a session operation failed.
#[derive(Debug, PartialEq, Eq)]
pub enum McpError {
    /// No session is registered under the id.
    NotFound,
    /// The transport or the protocol handshake could not be set up.
    ConnectFailure(String),
    /// The remote side or the protocol engine rejected a call.
    RpcFailure(String),
}

impl McpError {
    /// The message that callers show for this failure.
    pub fn message(&self) -> (r: String)
        ensures
            r@ == match self {
                McpError::NotFound => "Client not found"@,
                McpError::ConnectFailure(cause) => cause@,
                McpError::RpcFailure(cause) => cause@,
            },
    {
        match self {
            McpError::NotFound => String::from_str("Client not found"),
            McpError::ConnectFailure(cause) => cause.clone(),
            McpError::RpcFailure(cause) => cause.clone(),
        }
    }
}

/// The position of `id` in `ids`.
fn position_in(ids: &Vec<String>, id: &str) -> (r: Option<usize>)
    ensures
        match r {
            Some(i) => i < ids@.len() && ids@[i as int]@ == id@,
            None => forall|k: int| 0 <= k < ids@.len() ==> ids@[k]@ != id@,
        },
{
    let mut i: usize = 0;
    while i < ids.len()
        invariant
            i <= ids@.len(),
            forall|k: int| 0 <= k < i ==> ids@[k]@ != id@,
        decreases ids@.len() - i,
    {
        if crate::transport::same_text(ids[i].as_str(), id) {
            return Some(i);
        }
        i = i + 1;
    }
    None
}

/// Maps session ids to live session handles. Each id has at most one handle.
pub struct SessionRegistry<H> {
    ids: Vec<String>,
    handles: Vec<H>,
    model: Ghost<Map<Seq<char>, H>>,
}

impl<H> View for SessionRegistry<H> {
    type V = Map<Seq<char>, H>;

    closed spec fn view(&self) -> Map<Seq<char>, H> {
        self.model@
    }
}

impl<H> SessionRegistry<H> {
    #[verifier::type_invariant]
    spec fn well_formed(&self) -> bool {
        &&& self.ids@.len() == self.handles@.len()
        &&& forall|i: int, j: int|
            0 <= i < j < self.ids@.len() ==> self.ids@[i]@ != self.ids@[j]@
        &&& forall|i: int|
            0 <= i < self.ids@.len() ==> self.model@.contains_key(#[trigger] self.ids@[i]@)
                && self.model@[self.ids@[i]@] == self.handles@[i]
        &&& forall|k: Seq<char>|
            #[trigger] self.model@.contains_key(k) ==> exists|i: int|
                0 <= i < self.ids@.len() && self.ids@[i]@ == k
    }

    /// An empty registry.
    pub fn new() -> (r: Self)
        ensures
            r@ == Map::<Seq<char>, H>::empty(),
    {
        SessionRegistry { ids: Vec::new(), handles: Vec::new(), model: Ghost(Map::empty()) }
    }

    /// The number of registered sessions.
    pub fn len(&self) -> (r: usize)
        ensures
            r == self@.len(),
    {
        proof {
            use_type_invariant(self);
            self.lemma_len();
        }
        self.ids.len()
    }

    proof fn lemma_len(&self)
        requires
            self.well_formed(),
        ensures
            self.model@.dom().finite(),
            self.model@.len() == self.ids@.len(),
        decreases self.ids@.len(),
    {
        let keys = self.ids@.map_values(|s: String| s@);
        assert(self.model@.dom() =~= keys.to_set()) by {
            assert forall|k: Seq<char>| keys.to_set().contains(k) implies self.model@.contains_key(
                k,
            ) by {
                let i = choose|i: int| 0 <= i < keys.len() && keys[i] == k;
                assert(self.ids@[i]@ == k);
            }
            assert forall|k: Seq<char>| self.model@.contains_key(k) implies keys.to_set().contains(
                k,
            ) by {
                let i = choose|i: int| 0 <= i < self.ids@.len() && self.ids@[i]@ == k;
                assert(keys[i] == k);
            }
        }
        assert(keys.no_duplicates()) by {
            assert forall|i: int, j: int|
                0 <= i < keys.len() && 0 <= j < keys.len() && i != j implies keys[i]
                != keys[j] by {
                if i < j {
                    assert(self.ids@[i]@ != self.ids@[j]@);
                } else {
                    assert(self.ids@[j]@ != self.ids@[i]@);
                }
            }
        }
        keys.unique_seq_to_set();
    }

    /// Registers `handle` under `id`, replacing any handle that the id had.
    pub fn insert(&mut self, id: String, handle: H)
        ensures
            final(self)@ == old(self)@.insert(id@, handle),
    {
        proof {
            use_type_invariant(&*self);
        }
        let mut taken = SessionRegistry::new();
        std::mem::swap(&mut taken, self);
        proof {
            use_type_invariant(&taken);
        }
        let SessionRegistry { mut ids, mut handles, model } = taken;
        let ghost old_ids = ids@;
        let ghost old_handles = handles@;
        let ghost new_model = model@.insert(id@, handle);
        match position_in(&ids, id.as_str()) {
            Some(i) => {
                handles.set(i, handle);
                proof {
                    assert forall|j: int| 0 <= j < ids@.len() implies new_model.contains_key(
                        #[trigger] ids@[j]@,
                    ) && new_model[ids@[j]@] == handles@[j] by {
                        if j != i {
                            if j < i {
                                assert(old_ids[j]@ != old_ids[i as int]@);
                            } else {
                                assert(old_ids[i as int]@ != old_ids[j]@);
                            }
                        }
                    }
                    assert forall|k: Seq<char>| #[trigger]
                        new_model.contains_key(k) implies exists|j: int|
                        0 <= j < ids@.len() && ids@[j]@ == k by {
                        if k != id@ {
                            assert(model@.contains_key(k));
                        } else {
                            assert(ids@[i as int]@ == k);
                        }
                    }
                }
            },
            None => {
                ids.push(id);
                handles.push(handle);
                proof {
                    let n = old_ids.len() as int;
                    assert forall|j: int| 0 <= j < ids@.len() implies new_model.contains_key(
                        #[trigger] ids@[j]@,
                    ) && new_model[ids@[j]@] == handles@[j] by {
                        if j < n {
                            assert(old_ids[j] == ids@[j]);
                            assert(old_ids[j]@ != id@);
                        }
                    }
                    assert forall|k: Seq<char>| #[trigger]
                        new_model.contains_key(k) implies exists|j: int|
                        0 <= j < ids@.len() && ids@[j]@ == k by {
                        if k != id@ {
                            assert(model@.contains_key(k));
                            let j = choose|j: int| 0 <= j < old_ids.len() && old_ids[j]@ == k;
                            assert(ids@[j] == old_ids[j]);
                        } else {
                            assert(ids@[n]@ == k);
                        }
                    }
                    assert forall|a: int, b: int|
                        0 <= a < b < ids@.len() implies ids@[a]@ != ids@[b]@ by {
                        if b < n {
                            assert(ids@[a] == old_ids[a] && ids@[b] == old_ids[b]);
                        } else {
                            assert(ids@[a] == old_ids[a]);
                        }
                    }
                }
            },
        }
        let mut rebuilt = SessionRegistry { ids, handles, model: Ghost(new_model) };
        std::mem::swap(&mut rebuilt, self);
    }

    /// Removes the session registered under `id` and hands its handle back,
    /// so that the caller can close it; `None` where there was none.
    pub fn remove(&mut self, id: &str) -> (r: Option<H>)
        ensures
            final(self)@ == old(self)@.remove(id@),
            r == if old(self)@.contains_key(id@) {
                Some(old(self)@[id@])
            } else {
                None::<H>
            },
    {
        proof {
            use_type_invariant(&*self);
        }
        let mut taken = SessionRegistry::new();
        std::mem::swap(&mut taken, self);
        proof {
            use_type_invariant(&taken);
        }
        let SessionRegistry { mut ids, mut handles, model } = taken;
        let ghost old_ids = ids@;
        let ghost old_handles = handles@;
        let ghost new_model = model@.remove(id@);
        let r = match position_in(&ids, id) {
            Some(i) => {
                ids.remove(i);
                let h = handles.remove(i);
                proof {
                    assert forall|j: int| 0 <= j < ids@.len() implies new_model.contains_key(
                        #[trigger] ids@[j]@,
                    ) && new_model[ids@[j]@] == handles@[j] by {
                        let o = if j < i { j } else { j + 1 };
                        assert(ids@[j] == old_ids[o] && handles@[j] == old_handles[o]);
                        if o < i {
                            assert(old_ids[o]@ != old_ids[i as int]@);
                        } else {
                            assert(old_ids[i as int]@ != old_ids[o]@);
                        }
                    }
                    assert forall|k: Seq<char>| #[trigger]
                        new_model.contains_key(k) implies exists|j: int|
                        0 <= j < ids@.len() && ids@[j]@ == k by {
                        let o = choose|o: int| 0 <= o < old_ids.len() && old_ids[o]@ == k;
                        assert(o != i);
                        if o < i {
                            assert(ids@[o] == old_ids[o]);
                        } else {
                            assert(ids@[o - 1] == old_ids[o]);
                        }
                    }
                    assert forall|a: int, b: int|
                        0 <= a < b < ids@.len() implies ids@[a]@ != ids@[b]@ by {
                        let oa = if a < i { a } else { a + 1 };
                        let ob = if b < i { b } else { b + 1 };
                        assert(ids@[a] == old_ids[oa] && ids@[b] == old_ids[ob]);
                    }
                }
                Some(h)
            },
            None => {
                proof {
                    assert(new_model =~= model@);
                }
                None
            },
        };
        let mut rebuilt = SessionRegistry { ids, handles, model: Ghost(new_model) };
        std::mem::swap(&mut rebuilt, self);
        r
    }

    /// The handle registered under `id`, or `NotFound` where there is none.
    pub fn lookup(&self, id: &str) -> (r: Result<&H, McpError>)
        ensures
            self@.contains_key(id@) ==> r == Ok::<&H, McpError>(&self@[id@]),
            !self@.contains_key(id@) ==> r == Err::<&H, McpError>(McpError::NotFound),
    {
        proof {
            use_type_invariant(self);
        }
        match position_in(&self.ids, id) {
            Some(i) => Ok(&self.handles[i]),
            None => Err(McpError::NotFound),
        }
    }

    /// Applies the outcome of one connection attempt for `id`: a new handle
    /// is registered under `id`, replacing any earlier one; a failure leaves
    /// the registry as it was and is reported with its cause.
    pub fn record_connect(&mut self, id: String, outcome: Result<H, String>) -> (r: Result<
        (),
        McpError,
    >)
        ensures
            match outcome {
                Ok(h) => r == Ok::<(), McpError>(()) && final(self)@ == old(self)@.insert(id@, h),
                Err(cause) => r == Err::<(), McpError>(McpError::ConnectFailure(cause))
                    && final(self)@ == old(self)@,
            },
    {
        match outcome {
            Ok(h) => {
                self.insert(id, h);
                Ok(())
            },
            Err(cause) => Err(McpError::ConnectFailure(cause)),
        }
    }
}

/// Reports the outcome of one call on a session: a result is passed on, a
/// failure of the protocol engine becomes `RpcFailure` with its cause.
pub fn rpc_outcome<T>(outcome: Result<T, String>) -> (r: Result<T, McpError>)
    ensures
        match outcome {
            Ok(v) => r == Ok::<T, McpError>(v),
            Err(cause) => r == Err::<T, McpError>(McpError::RpcFailure(cause)),
        },
{
    match outcome {
        Ok(v) => Ok(v),
        Err(cause) => Err(McpError::RpcFailure(cause)),
    }
}

/// The contents of a registry that started empty and then had each pair of
/// `inserts` registered, in order.
pub open spec fn registered_after<H>(inserts: Seq<(Seq<char>, H)>) -> Map<Seq<char>, H>
    decreases inserts.len(),
{
    if inserts.len() == 0 {
        Map::empty()
    } else {
        let last = inserts.last();
        registered_after(inserts.drop_last()).insert(last.0, last.1)
    }
}

/// Once a session has been registered under `id`, a lookup of `id` finds that
/// very handle, and every other id keeps what it had.
pub proof fn lemma_lookup_after_connect<H>(
    before: SessionRegistry<H>,
    after: SessionRegistry<H>,
    id: Seq<char>,
    handle: H,
)
    requires
        after@ == before@.insert(id, handle),
    ensures
        after@.contains_key(id),
        after@[id] == handle,
        forall|other: Seq<char>|
            other != id ==> (#[trigger] after@.contains_key(other) == before@.contains_key(other)
                && (before@.contains_key(other) ==> after@[other] == before@[other])),
{
}

/// Connecting again under an id that is taken replaces its handle: the old
/// one is no longer reached through the id, and the number of sessions stays.
pub proof fn lemma_reconnect_replaces<H>(
    before: SessionRegistry<H>,
    after: SessionRegistry<H>,
    id: Seq<char>,
    handle: H,
)
    requires
        before@.contains_key(id),
        after@ == before@.insert(id, handle),
    ensures
        after@[id] == handle,
        after@.dom() == before@.dom(),
{
    assert(after@.dom() =~= before@.dom());
}

/// An id that no insertion named is absent from the registry, so a lookup of
/// it reports `NotFound`.
pub proof fn lemma_never_inserted_not_found<H>(inserts: Seq<(Seq<char>, H)>, id: Seq<char>)
    requires
        forall|i: int| 0 <= i < inserts.len() ==> (#[trigger] inserts[i]).0 != id,
    ensures
        !registered_after(inserts).contains_key(id),
    decreases inserts.len(),
{
    if inserts.len() > 0 {
        let prefix = inserts.drop_last();
        assert forall|i: int| 0 <= i < prefix.len() implies (#[trigger] prefix[i]).0 != id by {
            assert(prefix[i] == inserts[i]);
        }
        lemma_never_inserted_not_found(prefix, id);
    }
}

} // verus!
