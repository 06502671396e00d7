//! A per-session record of which host names resolved, so that each name is
//! looked up once. The lookup itself is left to the caller.
//!
//! The record is a list searched from its latest entry rather than a
//! `HashMap`: vstd specifies `HashMap` for keys whose hashing and equality
//! it models, and `String` keys give it no usable model, so a map keyed by
//! host name would leave `lookup` and `record` without an exact contract.
use vstd::prelude::*;
use crate::text::{chars_of, eq_chars};

verus! {

pub struct HostCache {
    entries: Vec<(String, bool)>,
}

/// What the cache says of `host`: the latest answer recorded for it.
pub open spec fn cached(s: Seq<(Seq<char>, bool)>, host: Seq<char>) -> Option<bool>
    decreases s.len(),
{
    if s.len() == 0 {
        None
    } else if s.last().0 == host {
        Some(s.last().1)
    } else {
        cached(s.drop_last(), host)
    }
}

impl View for HostCache {
    type V = Seq<(Seq<char>, bool)>;

    closed spec fn view(&self) -> Seq<(Seq<char>, bool)> {
        self.entries@.map_values(|e: (String, bool)| (e.0@, e.1))
    }
}

impl HostCache {
    pub fn new() -> (r: HostCache)
        ensures
            forall|h: Seq<char>| cached(r@, h) is None,
    {
        let r = HostCache { entries: Vec::new() };
        assert(r@ =~= Seq::<(Seq<char>, bool)>::empty());
        r
    }

    /// Whether `host` resolved, if it was looked up before.
    pub fn lookup(&self, host: &str) -> (r: Option<bool>)
        ensures
            r == cached(self@, host@),
    {
        let h = chars_of(host);
        let mut i: usize = self.entries.len();
        proof {
            assert(self@.take(i as int) =~= self@);
        }
        while i > 0
            invariant
                0 <= i <= self.entries@.len(),
                h@ == host@,
                cached(self@.take(i as int), host@) == cached(self@, host@),
            decreases i,
        {
            let ghost t = self@.take(i as int);
            proof {
                assert(t.drop_last() =~= self@.take(i - 1));
                assert(t.last() == (self.entries@[i - 1].0@, self.entries@[i - 1].1));
            }
            let k = chars_of(self.entries[i - 1].0.as_str());
            if eq_chars(&k, &h) {
                return Some(self.entries[i - 1].1);
            }
            i = i - 1;
        }
        proof {
            assert(self@.take(0) =~= Seq::<(Seq<char>, bool)>::empty());
        }
        None
    }

    /// Records whether `host` resolved.
    pub fn record(&mut self, host: &str, valid: bool)
        ensures
            cached(final(self)@, host@) == Some(valid),
            forall|other: Seq<char>| other != host@ ==> cached(final(self)@, other) == cached(
                old(self)@,
                other,
            ),
    {
        let ghost before = self@;
        self.entries.push((host.to_owned(), valid));
        proof {
            assert(self@.drop_last() =~= before);
        }
    }
}

} // verus!
