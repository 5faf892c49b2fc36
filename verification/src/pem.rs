//! What a server certificate file must hold: the sections of a PEM file,
//! sorted into the certificate chain and the private key.

use vstd::prelude::*;

verus! {

/// One section of a PEM file.
#[derive(Clone, Debug, PartialEq, Eq)]
pub enum PemSection {
    /// An X.509 certificate, DER encoded.
    Certificate(Vec<u8>),
    /// An RSA private key, DER encoded.
    RsaKey(Vec<u8>),
    /// Any other section.
    Other,
}

/// A [`PemSection`] with its bytes as a sequence.
pub enum PemSectionView {
    Certificate(Seq<u8>),
    RsaKey(Seq<u8>),
    Other,
}

impl View for PemSection {
    type V = PemSectionView;

    open spec fn view(&self) -> PemSectionView {
        match self {
            PemSection::Certificate(der) => PemSectionView::Certificate(der@),
            PemSection::RsaKey(der) => PemSectionView::RsaKey(der@),
            PemSection::Other => PemSectionView::Other,
        }
    }
}

/// The views of a run of sections.
pub open spec fn section_views(sections: Seq<PemSection>) -> Seq<PemSectionView> {
    sections.map_values(|s: PemSection| s@)
}

/// The byte strings that a run of byte vectors holds.
pub open spec fn byte_strings(ders: Seq<Vec<u8>>) -> Seq<Seq<u8>> {
    ders.map_values(|der: Vec<u8>| der@)
}

/// The certificates among the sections, in their order.
pub open spec fn certificates_of(sections: Seq<PemSectionView>) -> Seq<Seq<u8>>
    decreases sections.len(),
{
    if sections.len() == 0 {
        Seq::empty()
    } else {
        match sections.last() {
            PemSectionView::Certificate(der) => certificates_of(sections.drop_last()).push(der),
            _ => certificates_of(sections.drop_last()),
        }
    }
}

/// The first RSA key among the sections, if there is one.
pub open spec fn first_key_of(sections: Seq<PemSectionView>) -> Option<Seq<u8>>
    decreases sections.len(),
{
    if sections.len() == 0 {
        None
    } else {
        match first_key_of(sections.drop_last()) {
            Some(der) => Some(der),
            None => match sections.last() {
                PemSectionView::RsaKey(der) => Some(der),
                _ => None,
            },
        }
    }
}

/// An RSA key is found exactly when the sections hold one, and the key found
/// has none before it.
pub proof fn lemma_first_key(sections: Seq<PemSectionView>)
    ensures
        first_key_of(sections) is None <==> forall|i: int|
            0 <= i < sections.len() ==> !(#[trigger] sections[i] is RsaKey),
        first_key_of(sections) matches Some(der) ==> exists|k: int|
            0 <= k < sections.len() && #[trigger] sections[k] == PemSectionView::RsaKey(der)
                && forall|i: int| 0 <= i < k ==> !(#[trigger] sections[i] is RsaKey),
    decreases sections.len(),
{
    if sections.len() > 0 {
        let before = sections.drop_last();
        lemma_first_key(before);
        assert forall|i: int| 0 <= i < before.len() implies before[i] == sections[i] by {}
        match first_key_of(before) {
            Some(der) => {
                let k = choose|k: int|
                    0 <= k < before.len() && #[trigger] before[k] == PemSectionView::RsaKey(der)
                        && forall|i: int| 0 <= i < k ==> !(#[trigger] before[i] is RsaKey);
                assert forall|i: int| 0 <= i < k implies !(#[trigger] sections[i] is RsaKey) by {}
            },
            None => {
                if sections.last() is RsaKey {
                    let k = sections.len() - 1;
                    assert forall|i: int| 0 <= i < k implies !(#[trigger] sections[i] is RsaKey) by {}
                } else {
                    assert forall|i: int| 0 <= i < sections.len() implies !(
                    #[trigger] sections[i] is RsaKey) by {}
                }
            },
        }
    }
}

/// Copies a byte string.
fn copy_bytes(der: &Vec<u8>) -> (r: Vec<u8>)
    ensures
        r@ == der@,
{
    let mut out: Vec<u8> = Vec::new();
    let mut i: usize = 0;
    while i < der.len()
        invariant
            i <= der.len(),
            out@ == der@.take(i as int),
        decreases der.len() - i,
    {
        out.push(der[i]);
        i += 1;
    }
    out
}

/// The certificate chain of a PEM file: its certificates, in their order.
pub fn certificates(sections: &Vec<PemSection>) -> (r: Vec<Vec<u8>>)
    ensures
        byte_strings(r@) == certificates_of(section_views(sections@)),
{
    let mut chain: Vec<Vec<u8>> = Vec::new();
    let mut i: usize = 0;
    while i < sections.len()
        invariant
            i <= sections.len(),
            byte_strings(chain@) == certificates_of(section_views(sections@).take(i as int)),
        decreases sections.len() - i,
    {
        proof {
            assert(section_views(sections@).take(i + 1).drop_last() == section_views(
                sections@,
            ).take(i as int));
        }
        match &sections[i] {
            PemSection::Certificate(der) => {
                let copy = copy_bytes(der);
                chain.push(copy);
            },
            _ => {},
        }
        i += 1;
    }
    proof {
        assert(section_views(sections@).take(sections@.len() as int) == section_views(
            sections@,
        ));
    }
    chain
}

/// The private key of a PEM file: its first RSA key, `None` if it has none.
pub fn first_rsa_key(sections: &Vec<PemSection>) -> (r: Option<Vec<u8>>)
    ensures
        match r {
            Some(der) => first_key_of(section_views(sections@)) == Some(der@),
            None => first_key_of(section_views(sections@)) is None,
        },
{
    let mut i: usize = 0;
    while i < sections.len()
        invariant
            i <= sections.len(),
            first_key_of(section_views(sections@).take(i as int)) is None,
        decreases sections.len() - i,
    {
        proof {
            assert(section_views(sections@).take(i + 1).drop_last() == section_views(
                sections@,
            ).take(i as int));
        }
        match &sections[i] {
            PemSection::RsaKey(der) => {
                proof {
                    lemma_key_stays(section_views(sections@), i + 1);
                }
                return Some(copy_bytes(der));
            },
            _ => {},
        }
        i += 1;
    }
    proof {
        assert(section_views(sections@).take(sections@.len() as int) == section_views(
            sections@,
        ));
    }
    None
}

/// A key found among the first `k` sections is the key found among all.
proof fn lemma_key_stays(sections: Seq<PemSectionView>, k: int)
    requires
        0 <= k <= sections.len(),
        first_key_of(sections.take(k)) is Some,
    ensures
        first_key_of(sections) == first_key_of(sections.take(k)),
    decreases sections.len(),
{
    if k == sections.len() {
        assert(sections.take(k) == sections);
    } else {
        assert(sections.drop_last().take(k) == sections.take(k));
        lemma_key_stays(sections.drop_last(), k);
    }
}

} // verus!
