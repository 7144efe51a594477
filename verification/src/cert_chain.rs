//! A read-only navigator over a verified certificate chain.
//!
//! A chain context holds the candidate chains that a verification produced.
//! The last of them is the one the verification engine settled on; within a
//! chain, index 0 is the end-entity certificate and the last index is the
//! trust anchor.

use std::sync::Arc;
use vstd::prelude::*;

verus! {

/// Hands out another owner of the same allocation.
///
/// Wraps `Arc::clone`, which raises the strong count of the allocation and
/// returns a pointer to it: the value behind the new pointer is the value
/// behind the old one. Not proved; taken from the documentation of `Arc`.
#[verifier::external_body]
fn share<T>(shared: &Arc<T>) -> (other: Arc<T>)
    ensures
        other == *shared,
{
    Arc::clone(shared)
}

/// One certificate, held by its encoded bytes.
///
/// The bytes are shared, not copied, between the chain and every handle that
/// was taken out of it, so a handle stays valid after the chain is gone.
#[derive(Debug)]
pub struct CertContext {
    encoded: Arc<Vec<u8>>,
}

impl View for CertContext {
    type V = Seq<u8>;

    closed spec fn view(&self) -> Seq<u8> {
        (*self.encoded)@
    }
}

impl CertContext {
    /// Takes ownership of an encoded certificate.
    pub fn new(encoded: Vec<u8>) -> (cert: CertContext)
        ensures
            cert@ == encoded@,
    {
        CertContext { encoded: Arc::new(encoded) }
    }

    /// The encoded certificate.
    pub fn to_der(&self) -> (bytes: &[u8])
        ensures
            bytes@ == self@,
    {
        self.encoded.as_slice()
    }
}

impl Clone for CertContext {
    /// Another handle on the same certificate.
    fn clone(&self) -> (other: Self)
        ensures
            other@ == self@,
    {
        CertContext { encoded: share(&self.encoded) }
    }
}

/// The certificates of one chain, each by its encoded bytes.
pub open spec fn chain_view(chain: Seq<CertContext>) -> Seq<Seq<u8>> {
    Seq::new(chain.len(), |i: int| chain[i]@)
}

/// The candidate chains of a context, each by the encoded bytes of its
/// certificates.
pub open spec fn chains_view(chains: Seq<Vec<CertContext>>) -> Seq<Seq<Seq<u8>>> {
    Seq::new(chains.len(), |i: int| chain_view(chains[i]@))
}

/// Owner of the candidate chains that one verification produced.
///
/// The chain data is reference-counted: a duplicate shares it, and it is
/// released when the last owner goes away.
#[derive(Debug)]
pub struct CertChainContext {
    chains: Arc<Vec<Vec<CertContext>>>,
}

impl View for CertChainContext {
    type V = Seq<Seq<Seq<u8>>>;

    closed spec fn view(&self) -> Seq<Seq<Seq<u8>>> {
        chains_view((*self.chains)@)
    }
}

impl CertChainContext {
    /// Takes ownership of the candidate chains of a verification, in the
    /// order in which the verification engine listed them.
    pub fn new(chains: Vec<Vec<CertContext>>) -> (context: CertChainContext)
        ensures
            context@ == chains_view(chains@),
    {
        CertChainContext { chains: Arc::new(chains) }
    }

    /// The chain that a context's final chain shows: the last candidate.
    pub open spec fn spec_final_chain(self) -> Option<Seq<Seq<u8>>> {
        if self@.len() == 0 {
            None
        } else {
            Some(self@.last())
        }
    }

    /// Get the final (for a successful verification this means successful)
    /// certificate chain: the last in the list of candidates.
    ///
    /// The returned chain keeps the chain data alive on its own. `None` only
    /// for a context without any chain.
    pub fn final_chain(&self) -> (chain: Option<CertChain>)
        ensures
            match chain {
                Some(c) => self.spec_final_chain() == Some(c@),
                None => self.spec_final_chain().is_none(),
            },
    {
        let cloned = self.clone();
        let count = cloned.chains.len();
        if count == 0 {
            None
        } else {
            Some(CertChain { context: cloned, index: count - 1 })
        }
    }
}

impl Clone for CertChainContext {
    /// Another owner of the same chain data; nothing is copied.
    fn clone(&self) -> (other: Self)
        ensures
            other@ == self@,
    {
        CertChainContext { chains: share(&self.chains) }
    }
}

/// One chain of a context: an ordered, read-only sequence of certificates,
/// leaf first.
#[derive(Debug)]
pub struct CertChain {
    context: CertChainContext,
    index: usize,
}

impl View for CertChain {
    type V = Seq<Seq<u8>>;

    closed spec fn view(&self) -> Seq<Seq<u8>> {
        self.context@[self.index as int]
    }
}

impl CertChain {
    #[verifier::type_invariant]
    spec fn within_context(self) -> bool {
        self.index < (*self.context.chains)@.len()
    }

    /// What `get` returns at an index: the certificate there, or nothing
    /// past the end.
    pub open spec fn spec_get(self, idx: int) -> Option<Seq<u8>> {
        if 0 <= idx < self@.len() {
            Some(self@[idx])
        } else {
            None
        }
    }

    /// Returns the number of certificates in the chain
    pub fn len(&self) -> (n: usize)
        ensures
            n == self@.len(),
    {
        proof {
            use_type_invariant(self);
        }
        self.context.chains[self.index].len()
    }

    /// Get the n-th certificate from the current chain
    ///
    /// Index 0 is the end-entity certificate, the last index the trust
    /// anchor. The handle that comes back owns its certificate and outlives
    /// the chain.
    pub fn get(&self, idx: usize) -> (cert: Option<CertContext>)
        ensures
            match cert {
                Some(c) => self.spec_get(idx as int) == Some(c@),
                None => self.spec_get(idx as int).is_none(),
            },
    {
        proof {
            use_type_invariant(self);
        }
        let elements = &self.context.chains[self.index];
        if idx < elements.len() {
            Some(elements[idx].clone())
        } else {
            None
        }
    }

    /// Return an iterator over all certificates in this chain
    pub fn certificates(&self) -> (iter: Certificates<'_>)
        ensures
            iter@ == self@,
            iter.chain() == self,
            iter.position() == 0,
    {
        Certificates { chain: self, idx: 0 }
    }
}

/// A forward traversal of a chain, leaf first.
#[derive(Debug)]
pub struct Certificates<'a> {
    chain: &'a CertChain,
    idx: usize,
}

impl<'a> View for Certificates<'a> {
    type V = Seq<Seq<u8>>;

    /// The certificates still to come.
    closed spec fn view(&self) -> Seq<Seq<u8>> {
        self.chain@.skip(self.idx as int)
    }
}

impl<'a> Certificates<'a> {
    #[verifier::type_invariant]
    spec fn within_chain(self) -> bool {
        self.idx <= self.chain@.len()
    }

    /// The chain that is traversed.
    pub closed spec fn chain(self) -> &'a CertChain {
        self.chain
    }

    /// How many certificates have been handed out.
    pub closed spec fn position(self) -> nat {
        self.idx as nat
    }

    /// The next certificate of the chain, or `None` once the chain is
    /// exhausted.
    pub fn next(&mut self) -> (cert: Option<CertContext>)
        ensures
            final(self).chain() == old(self).chain(),
            match cert {
                Some(c) => {
                    &&& old(self)@.len() > 0
                    &&& c@ == old(self)@.first()
                    &&& final(self)@ == old(self)@.drop_first()
                    &&& final(self).position() == old(self).position() + 1
                    &&& old(self).chain().spec_get(old(self).position() as int) == Some(c@)
                },
                None => {
                    &&& old(self)@.len() == 0
                    &&& final(self)@ == old(self)@
                    &&& final(self).position() == old(self).position()
                    &&& old(self).chain().spec_get(old(self).position() as int).is_none()
                },
            },
    {
        proof {
            use_type_invariant(&*self);
        }
        let idx = self.idx;
        if idx < self.chain.len() {
            self.idx = idx + 1;
        }
        self.chain.get(idx)
    }
}

/// The final chain of a context with at least one chain is its last
/// candidate. If it holds `n >= 1` certificates, then it has length `n`,
/// index 0 gives its first certificate (the end entity), index `n - 1` its
/// last (the trust anchor), and index `n` gives nothing.
pub proof fn lemma_final_chain_ends(context: CertChainContext, chain: CertChain)
    requires
        context.spec_final_chain() == Some(chain@),
        chain@.len() >= 1,
    ensures
        context@.len() >= 1,
        chain@ == context@[context@.len() - 1],
        chain.spec_get(0) == Some(chain@.first()),
        chain.spec_get(chain@.len() - 1) == Some(chain@.last()),
        chain.spec_get(chain@.len() as int).is_none(),
{
}

/// A context without chains has no final chain, and only such a context.
pub proof fn lemma_final_chain_none(context: CertChainContext)
    ensures
        context.spec_final_chain().is_none() <==> context@.len() == 0,
{
}

/// A fresh traversal of a chain yields exactly what indexed access yields at
/// 0, 1, 2, ... in that order, and ends where indexed access first gives
/// nothing.
pub proof fn lemma_traversal_matches_get(chain: CertChain, iter: Certificates<'_>)
    requires
        iter@ == chain@,
    ensures
        iter@.len() == chain@.len(),
        forall|i: int| 0 <= i < chain@.len() ==> chain.spec_get(i) == Some(#[trigger] iter@[i]),
        forall|i: int| i >= chain@.len() ==> (#[trigger] chain.spec_get(i)).is_none(),
{
}

} // verus!
