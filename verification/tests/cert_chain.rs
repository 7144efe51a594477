use schannel::cert_chain::{CertChainContext, CertContext};

fn cert(tag: u8) -> CertContext {
    CertContext::new(vec![0x30, 0x82, tag, tag.wrapping_mul(3)])
}

fn der(tag: u8) -> Vec<u8> {
    vec![0x30, 0x82, tag, tag.wrapping_mul(3)]
}

fn three_chains() -> CertChainContext {
    CertChainContext::new(vec![
        vec![cert(1), cert(9)],
        vec![cert(1)],
        vec![cert(1), cert(2), cert(3)],
    ])
}

#[test]
fn final_chain_is_the_last_candidate() {
    let chain = three_chains().final_chain().unwrap();
    assert_eq!(chain.len(), 3);
    assert_eq!(chain.get(0).unwrap().to_der(), &der(1)[..]);
    assert_eq!(chain.get(1).unwrap().to_der(), &der(2)[..]);
    assert_eq!(chain.get(2).unwrap().to_der(), &der(3)[..]);
}

#[test]
fn leaf_first_anchor_last_nothing_beyond() {
    let chain = three_chains().final_chain().unwrap();
    let n = chain.len();
    assert_eq!(chain.get(0).unwrap().to_der(), &der(1)[..]);
    assert_eq!(chain.get(n - 1).unwrap().to_der(), &der(3)[..]);
    assert!(chain.get(n).is_none());
    assert!(chain.get(usize::MAX).is_none());
}

#[test]
fn context_without_chains_has_no_final_chain() {
    let context = CertChainContext::new(Vec::new());
    assert!(context.final_chain().is_none());
}

#[test]
fn empty_final_chain_is_a_chain() {
    let context = CertChainContext::new(vec![vec![cert(1)], Vec::new()]);
    let chain = context.final_chain().unwrap();
    assert_eq!(chain.len(), 0);
    assert!(chain.get(0).is_none());
    assert!(chain.certificates().next().is_none());
}

#[test]
fn single_certificate_is_leaf_and_anchor() {
    let context = CertChainContext::new(vec![vec![cert(7)]]);
    let chain = context.final_chain().unwrap();
    assert_eq!(chain.len(), 1);
    assert_eq!(chain.get(0).unwrap().to_der(), &der(7)[..]);
    assert!(chain.get(1).is_none());
}

#[test]
fn traversal_matches_indexed_access() {
    let chain = three_chains().final_chain().unwrap();
    let mut iter = chain.certificates();
    let mut seen = Vec::new();
    while let Some(c) = iter.next() {
        seen.push(c.to_der().to_vec());
    }
    assert_eq!(seen.len(), chain.len());
    for (i, bytes) in seen.iter().enumerate() {
        assert_eq!(&chain.get(i).unwrap().to_der().to_vec(), bytes);
    }
    assert!(iter.next().is_none());
    assert!(iter.next().is_none());
}

#[test]
fn traversal_restarts_with_a_fresh_call() {
    let chain = three_chains().final_chain().unwrap();
    let mut first = chain.certificates();
    assert_eq!(first.next().unwrap().to_der(), &der(1)[..]);
    assert_eq!(first.next().unwrap().to_der(), &der(2)[..]);
    let mut second = chain.certificates();
    assert_eq!(second.next().unwrap().to_der(), &der(1)[..]);
    assert_eq!(first.next().unwrap().to_der(), &der(3)[..]);
}

#[test]
fn duplicate_survives_the_original() {
    let original = three_chains();
    let duplicate = original.clone();
    drop(original);
    let chain = duplicate.final_chain().unwrap();
    assert_eq!(chain.len(), 3);
    assert_eq!(chain.get(2).unwrap().to_der(), &der(3)[..]);
}

#[test]
fn chain_survives_its_context() {
    let context = three_chains();
    let chain = context.final_chain().unwrap();
    drop(context);
    assert_eq!(chain.len(), 3);
    assert_eq!(chain.get(0).unwrap().to_der(), &der(1)[..]);
}

#[test]
fn certificate_survives_its_chain() {
    let chain = three_chains().final_chain().unwrap();
    let anchor = chain.get(2).unwrap();
    let copy = anchor.clone();
    drop(chain);
    drop(anchor);
    assert_eq!(copy.to_der(), &der(3)[..]);
}
