//! The session registry: exclusive owner of all live sessions, one per
//! peer address, viewed abstractly as a map from address to session.
use vstd::prelude::*;

use crate::session::TftpSessionInfo;

verus! {

/// Mapping from peer address to its session. No entry means no transfer in
/// progress for that peer. Every stored session is well formed and no two
/// entries share an address.
pub struct SessionRegistry {
    sessions: Vec<(u64, TftpSessionInfo)>,
}

/// The map an association list denotes; with distinct keys the order of
/// the entries is irrelevant.
spec fn assoc_map(s: Seq<(u64, TftpSessionInfo)>) -> Map<u64, TftpSessionInfo>
    decreases s.len(),
{
    if s.len() == 0 {
        Map::empty()
    } else {
        assoc_map(s.drop_last()).insert(s.last().0, s.last().1)
    }
}

/// A key is in the denoted map exactly when some entry carries it.
proof fn lemma_assoc_contains(s: Seq<(u64, TftpSessionInfo)>, k: u64)
    ensures
        assoc_map(s).dom().contains(k) <==> exists|i: int| 0 <= i < s.len() && s[i].0 == k,
    decreases s.len(),
{
    if s.len() > 0 {
        lemma_assoc_contains(s.drop_last(), k);
        if s.last().0 != k && assoc_map(s).dom().contains(k) {
            let i = choose|i: int| 0 <= i < s.drop_last().len() && s.drop_last()[i].0 == k;
            assert(s[i].0 == k);
        }
        if exists|i: int| 0 <= i < s.len() && s[i].0 == k {
            let i = choose|i: int| 0 <= i < s.len() && s[i].0 == k;
            if i < s.len() - 1 {
                assert(s.drop_last()[i].0 == k);
            }
        }
    }
}

/// With distinct keys, the denoted map sends each carried key to the
/// session stored beside it.
proof fn lemma_assoc_get(s: Seq<(u64, TftpSessionInfo)>, i: int)
    requires
        forall|p: int, q: int|
            0 <= p < q < s.len() ==> (#[trigger] s[p]).0 != (#[trigger] s[q]).0,
        0 <= i < s.len(),
    ensures
        assoc_map(s).dom().contains(s[i].0),
        assoc_map(s)[s[i].0] == s[i].1,
    decreases s.len(),
{
    if i < s.len() - 1 {
        lemma_assoc_get(s.drop_last(), i);
    }
}

/// Appending an entry inserts its binding.
proof fn lemma_assoc_push(s: Seq<(u64, TftpSessionInfo)>, p: (u64, TftpSessionInfo))
    ensures
        assoc_map(s.push(p)) == assoc_map(s).insert(p.0, p.1),
{
    assert(s.push(p).drop_last() =~= s);
}

/// Removing the entry that carries `k` removes `k`'s binding, provided the
/// keys are distinct.
proof fn lemma_assoc_remove(s: Seq<(u64, TftpSessionInfo)>, i: int)
    requires
        forall|p: int, q: int|
            0 <= p < q < s.len() ==> (#[trigger] s[p]).0 != (#[trigger] s[q]).0,
        0 <= i < s.len(),
    ensures
        assoc_map(s.remove(i)) == assoc_map(s).remove(s[i].0),
    decreases s.len(),
{
    let k = s[i].0;
    if i == s.len() - 1 {
        assert(s.remove(i) =~= s.drop_last());
        lemma_assoc_contains(s.drop_last(), k);
        assert(forall|j: int| 0 <= j < s.drop_last().len() ==> (#[trigger] s.drop_last()[j]).0
            != k);
        assert(assoc_map(s.drop_last()).remove(k) =~= assoc_map(s.drop_last()));
        assert(assoc_map(s).remove(k) =~= assoc_map(s.drop_last()));
    } else {
        assert(s.remove(i).drop_last() =~= s.drop_last().remove(i));
        assert(s.remove(i).last() == s.last());
        lemma_assoc_remove(s.drop_last(), i);
        assert(assoc_map(s.remove(i)) == assoc_map(s.drop_last()).remove(k).insert(
            s.last().0,
            s.last().1,
        ));
        assert(assoc_map(s.drop_last()).remove(k).insert(s.last().0, s.last().1)
            =~= assoc_map(s.drop_last()).insert(s.last().0, s.last().1).remove(k));
    }
}

impl View for SessionRegistry {
    type V = Map<u64, TftpSessionInfo>;

    closed spec fn view(&self) -> Map<u64, TftpSessionInfo> {
        assoc_map(self.sessions@)
    }
}

impl SessionRegistry {
    #[verifier::type_invariant]
    spec fn inv(self) -> bool {
        &&& forall|p: int, q: int|
            0 <= p < q < self.sessions@.len() ==> (#[trigger] self.sessions@[p]).0
                != (#[trigger] self.sessions@[q]).0
        &&& forall|i: int|
            0 <= i < self.sessions@.len() ==> (#[trigger] self.sessions@[i]).1.wf()
    }

    /// An empty registry: no peer has a transfer in progress.
    pub fn new() -> (r: Self)
        ensures
            r@ == Map::<u64, TftpSessionInfo>::empty(),
    {
        SessionRegistry { sessions: Vec::new() }
    }

    /// Index of the entry that carries `address`, if one does.
    fn find_index(&self, address: u64) -> (r: Option<usize>)
        ensures
            match r {
                Some(i) => {
                    &&& i < self.sessions@.len()
                    &&& self.sessions@[i as int].0 == address
                    &&& self@.dom().contains(address)
                    &&& self@[address] == self.sessions@[i as int].1
                },
                None => !self@.dom().contains(address),
            },
    {
        proof {
            use_type_invariant(&*self);
        }
        let mut i: usize = 0;
        while i < self.sessions.len()
            invariant
                i <= self.sessions@.len(),
                forall|t: int| 0 <= t < i ==> (#[trigger] self.sessions@[t]).0 != address,
            decreases self.sessions@.len() - i,
        {
            if self.sessions[i].0 == address {
                proof {
                    use_type_invariant(&*self);
                    lemma_assoc_get(self.sessions@, i as int);
                }
                return Some(i);
            }
            i = i + 1;
        }
        proof {
            lemma_assoc_contains(self.sessions@, address);
        }
        None
    }

    /// Registers a session for `address` unless one is already tracked;
    /// idempotent, as the first registration wins.
    pub fn register(&mut self, address: u64, session_info: TftpSessionInfo)
        requires
            session_info.wf(),
        ensures
            final(self)@ == if old(self)@.dom().contains(address) {
                old(self)@
            } else {
                old(self)@.insert(address, session_info)
            },
    {
        proof {
            use_type_invariant(&*self);
        }
        if self.find_index(address).is_none() {
            proof {
                lemma_assoc_push(self.sessions@, (address, session_info));
                lemma_assoc_contains(self.sessions@, address);
            }
            let mut sessions: Vec<(u64, TftpSessionInfo)> = Vec::new();
            std::mem::swap(&mut sessions, &mut self.sessions);
            sessions.push((address, session_info));
            self.sessions = sessions;
        }
    }

    /// Removes the session for `address`; removing an absent key is a
    /// no-op, not an error.
    pub fn deregister(&mut self, address: u64)
        ensures
            final(self)@ == old(self)@.remove(address),
    {
        proof {
            use_type_invariant(&*self);
        }
        match self.find_index(address) {
            Some(i) => {
                proof {
                    lemma_assoc_remove(self.sessions@, i as int);
                }
                let mut sessions: Vec<(u64, TftpSessionInfo)> = Vec::new();
                std::mem::swap(&mut sessions, &mut self.sessions);
                sessions.remove(i);
                self.sessions = sessions;
            },
            None => {
                proof {
                    assert(self@.remove(address) =~= self@);
                }
            },
        }
    }

    /// Looks up the session tracked for `address`; absence means no
    /// transfer is in progress for that peer.
    pub fn get_session(&self, address: u64) -> (r: Option<&TftpSessionInfo>)
        ensures
            match r {
                Some(s) => {
                    &&& self@.dom().contains(address)
                    &&& *s == self@[address]
                    &&& s.wf()
                },
                None => !self@.dom().contains(address),
            },
    {
        proof {
            use_type_invariant(&*self);
        }
        match self.find_index(address) {
            Some(i) => Some(&self.sessions[i].1),
            None => None,
        }
    }

    /// Takes the session tracked for `address` out of the registry,
    /// leaving the peer with no transfer in progress.
    pub fn take_session(&mut self, address: u64) -> (r: Option<TftpSessionInfo>)
        ensures
            match r {
                Some(s) => {
                    &&& old(self)@.dom().contains(address)
                    &&& s == old(self)@[address]
                    &&& s.wf()
                    &&& final(self)@ == old(self)@.remove(address)
                },
                None => {
                    &&& !old(self)@.dom().contains(address)
                    &&& final(self)@ == old(self)@
                },
            },
    {
        proof {
            use_type_invariant(&*self);
        }
        match self.find_index(address) {
            Some(i) => {
                proof {
                    lemma_assoc_remove(self.sessions@, i as int);
                }
                let mut sessions: Vec<(u64, TftpSessionInfo)> = Vec::new();
                std::mem::swap(&mut sessions, &mut self.sessions);
                let pair = sessions.remove(i);
                self.sessions = sessions;
                Some(pair.1)
            },
            None => None,
        }
    }
}

} // verus!
