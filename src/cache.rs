//! The cache of conic vertex streams, keyed by gradient and aspect ratio.
use vstd::prelude::*;
use crate::gradient::{Gradient, GradientView};
use crate::registry::{Keyed, Remapper};

verus! {

/// What a conic vertex stream depends on: the gradient and the aspect ratio
/// its angle is corrected for.
#[derive(Debug)]
pub struct MeshKey {
    pub gradient: Gradient,
    pub aspect_ratio: i64,
}

pub struct MeshKeyView {
    pub gradient: GradientView,
    pub aspect_ratio: i64,
}

impl View for MeshKey {
    type V = MeshKeyView;

    open spec fn view(&self) -> MeshKeyView {
        MeshKeyView { gradient: self.gradient@, aspect_ratio: self.aspect_ratio }
    }
}

impl Keyed for MeshKey {
    fn same(&self, o: &MeshKey) -> (r: bool) {
        self.aspect_ratio == o.aspect_ratio && self.gradient.same(&o.gradient)
    }

    fn duplicate(&self) -> (r: MeshKey) {
        MeshKey { gradient: self.gradient.duplicate(), aspect_ratio: self.aspect_ratio }
    }
}

/// Vertex streams computed before, each under its key.
pub struct MeshCache {
    keys: Remapper<MeshKey>,
    streams: Vec<Vec<u8>>,
}

impl MeshCache {
    pub closed spec fn keys(&self) -> Seq<MeshKeyView> {
        self.keys@
    }

    pub closed spec fn streams(&self) -> Seq<Seq<u8>> {
        self.streams@.map_values(|v: Vec<u8>| v@)
    }

    /// Each key once, and one stream per key.
    pub closed spec fn wf(&self) -> bool {
        self.keys.wf() && self.streams@.len() == self.keys@.len()
    }

    /// The stream stored under `k`, if any.
    pub open spec fn lookup_spec(&self, k: MeshKeyView) -> Option<Seq<u8>> {
        if exists|i: int| 0 <= i < self.keys().len() && self.keys()[i] == k {
            Some(self.streams()[choose|i: int| 0 <= i < self.keys().len() && self.keys()[i] == k])
        } else {
            None
        }
    }

    /// An empty cache.
    pub fn new() -> (r: MeshCache)
        ensures
            r.wf(),
            forall|k: MeshKeyView| r.lookup_spec(k) is None,
    {
        MeshCache { keys: Remapper::new(), streams: Vec::new() }
    }

    /// The stream stored under a key equal to `key`.
    pub fn get(&self, key: &MeshKey) -> (r: Option<&Vec<u8>>)
        requires
            self.wf(),
        ensures
            match r {
                Some(b) => self.lookup_spec(key@) == Some(b@),
                None => self.lookup_spec(key@) is None,
            },
    {
        match self.keys.find(key) {
            Some(i) => {
                proof {
                    let j = choose|j: int| 0 <= j < self.keys().len() && self.keys()[j] == key@;
                    assert(crate::registry::distinct(self.keys()));
                    assert(i as int == j);
                }
                Some(&self.streams[i])
            },
            None => None,
        }
    }

    /// Stores a stream under a key. A stream already stored under an equal
    /// key stays: a stream is a function of its key, so both are the same.
    pub fn store(&mut self, key: MeshKey, stream: Vec<u8>)
        requires
            old(self).wf(),
        ensures
            final(self).wf(),
            old(self).lookup_spec(key@) is Some ==> forall|k: MeshKeyView| #[trigger] final(self).lookup_spec(k) == old(self).lookup_spec(k),
            old(self).lookup_spec(key@) is None ==> final(self).lookup_spec(key@) == Some(stream@),
            forall|k: MeshKeyView| k != key@ ==> #[trigger] final(self).lookup_spec(k) == old(self).lookup_spec(k),
    {
        let ghost kv = key@;
        let ghost sv = stream@;
        let n = self.keys.len();
        let h = self.keys.insert(key);
        if h == n {
            self.streams.push(stream);
            proof {
                let ok = old(self).keys();
                let nk = self.keys();
                assert(!(exists|i: int| 0 <= i < ok.len() && ok[i] == kv));
                assert(nk == ok.push(kv));
                assert(self.streams() =~= old(self).streams().push(sv));
                assert(nk[n as int] == kv);
                assert(crate::registry::distinct(nk));
                assert forall|k: MeshKeyView| k != kv implies #[trigger] self.lookup_spec(k) == old(self).lookup_spec(k) by {
                    if exists|i: int| 0 <= i < ok.len() && ok[i] == k {
                        let i = choose|i: int| 0 <= i < ok.len() && ok[i] == k;
                        assert(nk[i] == k);
                        let j = choose|j: int| 0 <= j < nk.len() && nk[j] == k;
                        assert(i == j);
                    } else {
                        assert forall|i: int| 0 <= i < nk.len() implies nk[i] != k by {
                            if i < ok.len() {
                            } else {
                                assert(nk[i] == kv);
                            }
                        }
                    }
                }
                let j = choose|j: int| 0 <= j < nk.len() && nk[j] == kv;
                assert(j == n);
            }
        } else {
            proof {
                let ok = old(self).keys();
                if !(exists|i: int| 0 <= i < ok.len() && ok[i] == kv) {
                    assert(h == ok.len());
                }
                assert(self.keys() == ok);
                assert(self.streams() == old(self).streams());
            }
        }
    }
}

} // verus!
