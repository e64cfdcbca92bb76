use vstd::prelude::*;

verus! {

/// Readiness events a registration is interested in.
#[derive(Clone, Copy, Debug, PartialEq, Eq, Structural)]
pub struct Interest {
    pub readable: bool,
    pub writable: bool,
}

impl Interest {
    pub fn new(readable: bool, writable: bool) -> (r: Self)
        ensures
            r == (Interest { readable, writable }),
    {
        Interest { readable, writable }
    }
}

/// One registered descriptor: the token that names it and the events it
/// currently cares about.
#[derive(Clone, Copy, Debug, PartialEq, Eq, Structural)]
pub struct Registration {
    pub token: usize,
    pub interest: Interest,
}

/// The interest table of a readiness multiplexer. Everything here runs
/// on the single control thread, so no locking is involved. The actual
/// poll call is the caller's: it asks the operating system which
/// registered tokens became ready and feeds each one back into the
/// owning connection.
pub struct Selector {
    pub entries: Vec<Registration>,
    pub next_token: usize,
}

impl Selector {
    /// Tokens are pairwise distinct and every issued token is below the
    /// next fresh one.
    pub open spec fn wf(self) -> bool {
        &&& forall|i: int, j: int|
            0 <= i < j < self.entries@.len() ==> self.entries@[i].token
                != self.entries@[j].token
        &&& forall|i: int|
            0 <= i < self.entries@.len() ==> self.entries@[i].token < self.next_token
    }

    /// Whether `t` is currently registered.
    pub open spec fn has_token(self, t: usize) -> bool {
        exists|i: int| 0 <= i < self.entries@.len() && self.entries@[i].token == t
    }

    /// The interest bits registered for token `t`.
    pub open spec fn interest_of(self, t: usize) -> Interest {
        self.entries@[choose|i: int|
            0 <= i < self.entries@.len() && self.entries@[i].token == t].interest
    }

    pub fn new() -> (r: Self)
        ensures
            r.wf(),
            r.entries@.len() == 0,
            r.next_token == 0,
    {
        Selector { entries: Vec::new(), next_token: 0 }
    }

    /// Register a new descriptor with the given interest; returns a
    /// fresh token that names it from now on.
    pub fn register(&mut self, interest: Interest) -> (t: usize)
        requires
            old(self).wf(),
            old(self).next_token < usize::MAX,
        ensures
            final(self).wf(),
            t == old(self).next_token,
            !old(self).has_token(t),
            final(self).has_token(t),
            final(self).interest_of(t) == interest,
            final(self).entries@ == old(self).entries@.push(
                Registration { token: t, interest },
            ),
            final(self).next_token == old(self).next_token + 1,
            forall|u: usize| u != t ==> (final(self).has_token(u) <==> old(self).has_token(u)),
    {
        let t = self.next_token;
        self.entries.push(Registration { token: t, interest });
        self.next_token = t + 1;
        proof {
            let n = self.entries@.len() - 1;
            assert(self.entries@[n].token == t);
            assert forall|u: usize| u != t && old(self).has_token(u) implies self.has_token(
                u,
            ) by {
                let i = choose|i: int|
                    0 <= i < old(self).entries@.len() && old(self).entries@[i].token == u;
                assert(self.entries@[i].token == u);
            }
            let w = choose|i: int|
                0 <= i < self.entries@.len() && self.entries@[i].token == t;
            assert(w == n);
        }
        t
    }

    /// Change the interest of token `t`; registrations of other tokens
    /// are untouched, and an unknown token is a no-op.
    pub fn update_interest(&mut self, t: usize, interest: Interest)
        requires
            old(self).wf(),
        ensures
            final(self).wf(),
            final(self).next_token == old(self).next_token,
            final(self).entries@.len() == old(self).entries@.len(),
            forall|i: int|
                0 <= i < old(self).entries@.len() ==> final(self).entries@[i].token == old(
                    self,
                ).entries@[i].token,
            forall|i: int|
                0 <= i < old(self).entries@.len() ==> final(self).entries@[i].interest == (
                if old(self).entries@[i].token == t {
                    interest
                } else {
                    old(self).entries@[i].interest
                }),
            forall|u: usize| final(self).has_token(u) <==> old(self).has_token(u),
            old(self).has_token(t) ==> final(self).interest_of(t) == interest,
    {
        let n = self.entries.len();
        let mut i: usize = 0;
        while i < n
            invariant
                n == self.entries@.len() == old(self).entries@.len(),
                i <= n,
                self.next_token == old(self).next_token,
                forall|k: int|
                    0 <= k < n ==> self.entries@[k].token == old(self).entries@[k].token,
                forall|k: int|
                    0 <= k < i ==> self.entries@[k].interest == (if old(self).entries@[k].token
                        == t {
                        interest
                    } else {
                        old(self).entries@[k].interest
                    }),
                forall|k: int| i <= k < n ==> self.entries@[k] == old(self).entries@[k],
            decreases n - i,
        {
            if self.entries[i].token == t {
                let tok = self.entries[i].token;
                self.entries[i] = Registration { token: tok, interest };
            }
            i = i + 1;
        }
        proof {
            assert forall|u: usize| self.has_token(u) implies old(self).has_token(u) by {
                let k = choose|k: int|
                    0 <= k < self.entries@.len() && self.entries@[k].token == u;
                assert(old(self).entries@[k].token == u);
            }
            assert forall|u: usize| old(self).has_token(u) implies self.has_token(u) by {
                let k = choose|k: int|
                    0 <= k < old(self).entries@.len() && old(self).entries@[k].token == u;
                assert(self.entries@[k].token == u);
            }
        }
    }

    /// Remove the registration of token `t`, if any; all other
    /// registrations stay, with their interest unchanged.
    pub fn deregister(&mut self, t: usize)
        requires
            old(self).wf(),
        ensures
            final(self).wf(),
            final(self).next_token == old(self).next_token,
            !final(self).has_token(t),
            forall|u: usize| u != t ==> (final(self).has_token(u) <==> old(self).has_token(u)),
            forall|i: int|
                0 <= i < final(self).entries@.len() ==> old(self).entries@.contains(
                    final(self).entries@[i],
                ),
    {
        let n = self.entries.len();
        let mut i: usize = 0;
        while i < n
            invariant
                n == self.entries@.len(),
                i <= n,
                *self == *old(self),
                old(self).wf(),
                forall|k: int| 0 <= k < i ==> self.entries@[k].token != t,
            decreases n - i,
        {
            if self.entries[i].token == t {
                proof {
                    assert(old(self).entries@[i as int].token == t);
                }
                self.entries.remove(i);
                proof {
                    let s_old = old(self).entries@;
                    let s_new = self.entries@;
                    let ii = i as int;
                    assert forall|k: int|
                        0 <= k < s_new.len() implies s_new[k] == s_old[(if k < ii {
                        k
                    } else {
                        k + 1
                    })] by {
                        assert(s_new == s_old.subrange(0, ii) + s_old.subrange(
                            ii + 1,
                            s_old.len() as int,
                        ));
                    };
                    assert forall|k: int|
                        0 <= k < s_new.len() implies s_new[k].token != t by {
                        let o = if k < ii {
                            k
                        } else {
                            k + 1
                        };
                        assert(s_new[k] == s_old[o]);
                        if o < ii {
                            assert(s_old[o].token != s_old[ii].token);
                        } else {
                            assert(s_old[ii].token != s_old[o].token);
                        }
                    };
                    assert forall|k1: int, k2: int|
                        0 <= k1 < k2 < s_new.len() implies s_new[k1].token
                        != s_new[k2].token by {
                        let o1 = if k1 < ii {
                            k1
                        } else {
                            k1 + 1
                        };
                        let o2 = if k2 < ii {
                            k2
                        } else {
                            k2 + 1
                        };
                        assert(s_new[k1] == s_old[o1]);
                        assert(s_new[k2] == s_old[o2]);
                        assert(s_old[o1].token != s_old[o2].token);
                    };
                    assert forall|k: int|
                        0 <= k < s_new.len() implies s_old.contains(s_new[k]) by {
                        let o = if k < ii {
                            k
                        } else {
                            k + 1
                        };
                        assert(s_new[k] == s_old[o]);
                    };
                    assert forall|u: usize|
                        u != t && old(self).has_token(u) implies self.has_token(u) by {
                        let k = choose|k: int|
                            0 <= k < s_old.len() && s_old[k].token == u;
                        if k < ii {
                            assert(s_new[k].token == u);
                        } else {
                            assert(k != ii);
                            assert(s_new[k - 1] == s_old[k]);
                            assert(s_new[k - 1].token == u);
                        }
                    };
                    assert forall|u: usize|
                        u != t && self.has_token(u) implies old(self).has_token(u) by {
                        let k = choose|k: int|
                            0 <= k < s_new.len() && s_new[k].token == u;
                        let o = if k < ii {
                            k
                        } else {
                            k + 1
                        };
                        assert(s_old[o].token == u);
                    };
                }
                return ;
            }
            i = i + 1;
        }
    }
}

} // verus!
