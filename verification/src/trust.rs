//! Loading trust anchors from a PEM bundle into a root store.
//!
//! The bundle is decoded as a whole first: one malformed entry anywhere fails
//! the load with `CertificateParseError`. Then each certificate is added to a
//! fresh store, in order; the first one that cannot be added fails the load
//! with `CertificateTrustError`. A certificate cannot be added where it
//! yields no trust anchor, or where it yields one that the store holds
//! already: the store is a set, and a certificate that occurs twice is the
//! plain case of a duplicate. A store is handed out only when every entry
//! went in, so no caller ever sees a partial one.

use vstd::prelude::*;
use crate::error::ClientError;

verus! {

/// rustls's container of trust anchors. Opaque here: what it holds is
/// `trusted_roots`.
#[verifier::external_type_specification]
#[verifier::external_body]
pub struct ExRootCertStore(rustls::RootCertStore);

/// rustls's error type. Opaque here.
#[verifier::external_type_specification]
#[verifier::external_body]
pub struct ExTlsError(rustls::Error);

/// One entry of a decoded bundle.
#[derive(Debug)]
pub enum PemEntry {
    /// A certificate section, as the DER bytes it carried.
    Certificate(Vec<u8>),
    /// A section that could not be decoded.
    Malformed,
}

/// The mathematical model of a bundle entry.
pub enum PemEntryView {
    Certificate(Seq<u8>),
    Malformed,
}

impl View for PemEntry {
    type V = PemEntryView;

    open spec fn view(&self) -> PemEntryView {
        match self {
            PemEntry::Certificate(der) => PemEntryView::Certificate(der@),
            PemEntry::Malformed => PemEntryView::Malformed,
        }
    }
}

/// A decoded bundle as a sequence of entry models.
pub open spec fn entry_views(entries: Seq<PemEntry>) -> Seq<PemEntryView> {
    entries.map_values(|e: PemEntry| e@)
}

/// The mathematical model of a trust anchor.
pub struct AnchorView {
    pub subject: Seq<u8>,
    pub public_key_info: Seq<u8>,
    pub name_constraints: Option<Seq<u8>>,
}

/// A trust anchor: the parts of a CA certificate that path validation uses,
/// each as its DER bytes.
#[derive(Debug)]
pub struct Anchor {
    pub subject: Vec<u8>,
    pub public_key_info: Vec<u8>,
    pub name_constraints: Option<Vec<u8>>,
}

impl View for Anchor {
    type V = AnchorView;

    open spec fn view(&self) -> AnchorView {
        AnchorView {
            subject: self.subject@,
            public_key_info: self.public_key_info@,
            name_constraints: match self.name_constraints {
                Some(der) => Some(der@),
                None => None,
            },
        }
    }
}

/// What `rustls_pemfile::certs` yields for a bundle, in order: for each
/// certificate section its DER bytes, and for each section that does not
/// decode a failure. Well-formed sections of other kinds do not appear.
pub uninterp spec fn pem_certificates(bundle: Seq<u8>) -> Seq<PemEntryView>;

/// The trust anchor that `RootCertStore::add` derives from a certificate's
/// DER bytes, or `None` where it rejects them.
pub uninterp spec fn trust_anchor_of(der: Seq<u8>) -> Option<AnchorView>;

/// The trust anchors a root store holds, in the order they were added.
pub uninterp spec fn trusted_roots(store: rustls::RootCertStore) -> Seq<AnchorView>;

/// Calls `rustls_pemfile::certs` on the bundle and collects everything it
/// yields. Trusted: the result is what `pem_certificates` names; reading from
/// memory, the parser's outcome depends on the bytes alone.
#[verifier::external_body]
fn decode_bundle(bundle: &[u8]) -> (entries: Vec<PemEntry>)
    ensures
        entry_views(entries@) == pem_certificates(bundle@),
{
    let mut reader = bundle;
    rustls_pemfile::certs(&mut reader).map(
        |item| match item {
            Ok(der) => PemEntry::Certificate(der.as_ref().to_vec()),
            Err(_) => PemEntry::Malformed,
        },
    ).collect()
}

/// Calls `RootCertStore::empty`. Trusted: the new store holds no anchor.
#[verifier::external_body]
fn empty_store() -> (store: rustls::RootCertStore)
    ensures
        trusted_roots(store) == Seq::<AnchorView>::empty(),
{
    rustls::RootCertStore::empty()
}

/// Calls `RootCertStore::add`. Trusted: where the certificate yields a trust
/// anchor, the anchor is appended and the call succeeds; where it does not,
/// the call fails and the store is as before.
#[verifier::external_body]
fn add_root(store: &mut rustls::RootCertStore, der: &Vec<u8>) -> (r: Result<(), rustls::Error>)
    ensures
        trust_anchor_of(der@) is Some ==> r is Ok && trusted_roots(*final(store)) == trusted_roots(
            *old(store),
        ).push(trust_anchor_of(der@)->Some_0),
        trust_anchor_of(der@) is None ==> r is Err && trusted_roots(*final(store))
            == trusted_roots(*old(store)),
{
    store.add(rustls::pki_types::CertificateDer::from(der.as_slice()))
}

/// Reads the anchor a root store got last, from its field `roots`. Trusted:
/// the result is the last of `trusted_roots`, and `None` only for an empty
/// store.
#[verifier::external_body]
fn last_root(store: &rustls::RootCertStore) -> (r: Option<Anchor>)
    ensures
        r is Some <==> trusted_roots(*store).len() > 0,
        r is Some ==> r->Some_0@ == trusted_roots(*store).last(),
{
    store.roots.last().map(
        |root| Anchor {
            subject: root.subject.as_ref().to_vec(),
            public_key_info: root.subject_public_key_info.as_ref().to_vec(),
            name_constraints: root.name_constraints.as_ref().map(|der| der.as_ref().to_vec()),
        },
    )
}

/// What can be wrong with an entry.
#[derive(Clone, Copy, Debug, PartialEq, Eq, Structural)]
pub enum Defect {
    /// The entry could not be decoded.
    Malformed,
    /// The entry cannot be added to the store.
    Untrusted,
}

/// The trust anchor an entry yields, if it yields one.
pub open spec fn record_of(entry: PemEntryView) -> Option<AnchorView> {
    match entry {
        PemEntryView::Certificate(der) => trust_anchor_of(der),
        PemEntryView::Malformed => None,
    }
}

/// Whether entry `i` yields what an earlier entry yields too.
pub open spec fn repeats_earlier(entries: Seq<PemEntryView>, i: int) -> bool {
    exists|j: int| 0 <= j < i && record_of(#[trigger] entries[j]) == record_of(entries[i])
}

/// Whether entry `i` has the given defect. An entry cannot be added where it
/// yields no trust anchor or repeats an earlier one.
pub open spec fn has_defect(entries: Seq<PemEntryView>, i: int, defect: Defect) -> bool {
    match defect {
        Defect::Malformed => entries[i] is Malformed,
        Defect::Untrusted => record_of(entries[i]) is None || repeats_earlier(entries, i),
    }
}

/// The index of the first entry with `defect`, if there is one.
pub open spec fn first_defect(entries: Seq<PemEntryView>, defect: Defect) -> Option<int>
    decreases entries.len(),
{
    if entries.len() == 0 {
        None
    } else {
        match first_defect(entries.drop_last(), defect) {
            Some(i) => Some(i),
            None => if has_defect(entries, entries.len() - 1, defect) {
                Some(entries.len() - 1)
            } else {
                None
            },
        }
    }
}

/// The anchors of a bundle whose every entry yields one.
pub open spec fn anchors_of(entries: Seq<PemEntryView>) -> Seq<AnchorView> {
    Seq::new(entries.len(), |i: int| record_of(entries[i])->Some_0)
}

/// What loading a decoded bundle comes to: a parse error at the first
/// malformed entry; else a trust error at the first certificate that cannot
/// be added; else the anchors of all entries, in order.
pub open spec fn load_outcome(entries: Seq<PemEntryView>) -> Result<Seq<AnchorView>, ClientError> {
    match first_defect(entries, Defect::Malformed) {
        Some(i) => Err(ClientError::CertificateParseError { entry: i as usize }),
        None => match first_defect(entries, Defect::Untrusted) {
            Some(i) => Err(ClientError::CertificateTrustError { entry: i as usize }),
            None => Ok(anchors_of(entries)),
        },
    }
}

/// Whether no two anchors of the sequence are the same.
pub open spec fn pairwise_distinct(anchors: Seq<AnchorView>) -> bool {
    forall|i: int, j: int| 0 <= i < j < anchors.len() ==> anchors[i] != anchors[j]
}

/// Whether entry `i` has a defect depends on the entries up to `i` alone.
proof fn lemma_defect_is_local(a: Seq<PemEntryView>, b: Seq<PemEntryView>, i: int, defect: Defect)
    requires
        0 <= i < a.len(),
        i < b.len(),
        forall|m: int| 0 <= m <= i ==> a[m] == b[m],
    ensures
        has_defect(a, i, defect) == has_defect(b, i, defect),
{
    if repeats_earlier(a, i) {
        let j = choose|j: int| 0 <= j < i && record_of(#[trigger] a[j]) == record_of(a[i]);
        assert(record_of(b[j]) == record_of(b[i]));
    }
    if repeats_earlier(b, i) {
        let j = choose|j: int| 0 <= j < i && record_of(#[trigger] b[j]) == record_of(b[i]);
        assert(record_of(a[j]) == record_of(a[i]));
    }
}

/// `first_defect` finds the least index with the defect, and finds none only
/// where no entry has it.
pub proof fn law_first_defect_is_least(entries: Seq<PemEntryView>, defect: Defect)
    ensures
        match first_defect(entries, defect) {
            Some(i) => 0 <= i < entries.len() && has_defect(entries, i, defect) && forall|j: int|
                0 <= j < i ==> !has_defect(entries, j, defect),
            None => forall|j: int| 0 <= j < entries.len() ==> !has_defect(entries, j, defect),
        },
    decreases entries.len(),
{
    if entries.len() > 0 {
        let head = entries.drop_last();
        law_first_defect_is_least(head, defect);
        assert forall|j: int| 0 <= j < head.len() implies has_defect(head, j, defect)
            == has_defect(entries, j, defect) by {
            lemma_defect_is_local(head, entries, j, defect);
        }
    }
}

/// A defect found right after a prefix without one is the first defect of the
/// whole.
proof fn lemma_defect_in_prefix(entries: Seq<PemEntryView>, defect: Defect, k: int)
    requires
        0 <= k < entries.len(),
        first_defect(entries.take(k), defect) is None,
        has_defect(entries, k, defect),
    ensures
        first_defect(entries, defect) == Some(k),
{
    law_first_defect_is_least(entries, defect);
    law_first_defect_is_least(entries.take(k), defect);
    let found = first_defect(entries, defect)->Some_0;
    if found < k {
        lemma_defect_is_local(entries.take(k), entries, found, defect);
    }
}

/// A prefix without a defect stays so when its next entry has none.
proof fn lemma_prefix_grows(entries: Seq<PemEntryView>, defect: Defect, k: int)
    requires
        0 <= k < entries.len(),
        first_defect(entries.take(k), defect) is None,
        !has_defect(entries, k, defect),
    ensures
        first_defect(entries.take(k + 1), defect) is None,
{
    assert(entries.take(k + 1).drop_last() == entries.take(k));
    lemma_defect_is_local(entries.take(k + 1), entries, k, defect);
}

/// Whether two byte strings are the same.
fn same_bytes(a: &Vec<u8>, b: &Vec<u8>) -> (same: bool)
    ensures
        same == (a@ == b@),
{
    if a.len() != b.len() {
        return false;
    }
    let mut i: usize = 0;
    while i < a.len()
        invariant
            i <= a.len(),
            a.len() == b.len(),
            forall|m: int| 0 <= m < i ==> a@[m] == b@[m],
        decreases a.len() - i,
    {
        if a[i] != b[i] {
            return false;
        }
        i = i + 1;
    }
    proof {
        assert(a@ =~= b@);
    }
    true
}

/// Whether two anchors are the same record.
pub fn same_anchor(a: &Anchor, b: &Anchor) -> (same: bool)
    ensures
        same == (a@ == b@),
{
    let constraints = match (&a.name_constraints, &b.name_constraints) {
        (Some(x), Some(y)) => same_bytes(x, y),
        (None, None) => true,
        _ => false,
    };
    constraints && same_bytes(&a.subject, &b.subject) && same_bytes(
        &a.public_key_info,
        &b.public_key_info,
    )
}

/// Whether `anchor` is among `held`.
fn holds(held: &Vec<Anchor>, anchor: &Anchor) -> (found: bool)
    ensures
        found == exists|j: int| 0 <= j < held.len() && (#[trigger] held[j])@ == anchor@,
{
    let mut i: usize = 0;
    while i < held.len()
        invariant
            i <= held.len(),
            forall|j: int| 0 <= j < i ==> (#[trigger] held[j])@ != anchor@,
        decreases held.len() - i,
    {
        if same_anchor(&held[i], anchor) {
            return true;
        }
        i = i + 1;
    }
    false
}

/// Builds a root store from a decoded bundle. The store that comes back holds
/// one anchor for each entry, in order, and no anchor twice.
pub fn build_trust_store(entries: &Vec<PemEntry>) -> (r: Result<rustls::RootCertStore, ClientError>)
    ensures
        match r {
            Ok(store) => load_outcome(entry_views(entries@)) == Ok::<Seq<AnchorView>, ClientError>(
                trusted_roots(store),
            ),
            Err(e) => load_outcome(entry_views(entries@)) == Err::<Seq<AnchorView>, ClientError>(e),
        },
        r matches Ok(store) ==> trusted_roots(store).len() == entries@.len() && pairwise_distinct(
            trusted_roots(store),
        ),
{
    let ghost views = entry_views(entries@);
    let mut i: usize = 0;
    while i < entries.len()
        invariant
            i <= entries.len(),
            views == entry_views(entries@),
            first_defect(views.take(i as int), Defect::Malformed) is None,
        decreases entries.len() - i,
    {
        match &entries[i] {
            PemEntry::Malformed => {
                proof {
                    lemma_defect_in_prefix(views, Defect::Malformed, i as int);
                }
                return Err(ClientError::CertificateParseError { entry: i });
            },
            PemEntry::Certificate(_) => {
                proof {
                    lemma_prefix_grows(views, Defect::Malformed, i as int);
                }
            },
        }
        i = i + 1;
    }
    proof {
        assert(views.take(entries.len() as int) == views);
        law_first_defect_is_least(views, Defect::Malformed);
    }
    let mut store = empty_store();
    let mut held: Vec<Anchor> = Vec::new();
    let mut k: usize = 0;
    while k < entries.len()
        invariant
            k <= entries.len(),
            views == entry_views(entries@),
            first_defect(views, Defect::Malformed) is None,
            forall|j: int| 0 <= j < views.len() ==> !has_defect(views, j, Defect::Malformed),
            first_defect(views.take(k as int), Defect::Untrusted) is None,
            trusted_roots(store) == anchors_of(views.take(k as int)),
            held.len() == k,
            forall|j: int| 0 <= j < k ==> record_of(views[j]) == Some((#[trigger] held[j])@),
        decreases entries.len() - k,
    {
        match &entries[k] {
            PemEntry::Certificate(der) => {
                if add_root(&mut store, der).is_err() {
                    proof {
                        lemma_defect_in_prefix(views, Defect::Untrusted, k as int);
                    }
                    return Err(ClientError::CertificateTrustError { entry: k });
                }
                let anchor = match last_root(&store) {
                    Some(anchor) => anchor,
                    None => {
                        return Err(ClientError::CertificateTrustError { entry: k });
                    },
                };
                assert(record_of(views[k as int]) == Some(anchor@));
                if holds(&held, &anchor) {
                    proof {
                        let j = choose|j: int| 0 <= j < held.len() && (#[trigger] held[j])@ == anchor@;
                        assert(record_of(views[j]) == record_of(views[k as int]));
                        lemma_defect_in_prefix(views, Defect::Untrusted, k as int);
                    }
                    return Err(ClientError::CertificateTrustError { entry: k });
                }
                proof {
                    if repeats_earlier(views, k as int) {
                        let j = choose|j: int|
                            0 <= j < k && record_of(#[trigger] views[j]) == record_of(
                                views[k as int],
                            );
                        assert(held[j]@ == anchor@);
                    }
                    lemma_prefix_grows(views, Defect::Untrusted, k as int);
                    assert(anchors_of(views.take(k + 1)) == anchors_of(views.take(k as int)).push(
                        anchor@,
                    ));
                }
                held.push(anchor);
            },
            PemEntry::Malformed => {
                proof {
                    assert(has_defect(views, k as int, Defect::Malformed));
                }
                return Err(ClientError::CertificateParseError { entry: k });
            },
        }
        k = k + 1;
    }
    proof {
        assert(views.take(entries.len() as int) == views);
        law_loaded_store_is_a_set(views);
    }
    Ok(store)
}

/// Loads the trust anchors of a PEM bundle into a fresh root store. The store
/// that comes back holds one anchor for each certificate of the bundle, in
/// order, and no anchor twice.
pub fn load_ca_cert(bundle: &[u8]) -> (r: Result<rustls::RootCertStore, ClientError>)
    ensures
        match r {
            Ok(store) => load_outcome(pem_certificates(bundle@)) == Ok::<
                Seq<AnchorView>,
                ClientError,
            >(trusted_roots(store)),
            Err(e) => load_outcome(pem_certificates(bundle@)) == Err::<Seq<AnchorView>, ClientError>(
                e,
            ),
        },
        r matches Ok(store) ==> trusted_roots(store).len() == pem_certificates(bundle@).len()
            && pairwise_distinct(trusted_roots(store)),
{
    let entries = decode_bundle(bundle);
    build_trust_store(&entries)
}

/// A bundle of N certificates that all yield trust anchors, no two the same,
/// loads into exactly N anchors: entry by entry, in order.
pub proof fn law_every_certificate_is_loaded(entries: Seq<PemEntryView>)
    requires
        forall|i: int| 0 <= i < entries.len() ==> record_of(#[trigger] entries[i]) is Some,
        forall|i: int, j: int|
            0 <= i < j < entries.len() ==> record_of(#[trigger] entries[i]) != record_of(
                #[trigger] entries[j],
            ),
    ensures
        load_outcome(entries) is Ok,
        load_outcome(entries)->Ok_0.len() == entries.len(),
        forall|i: int|
            0 <= i < entries.len() ==> Some(#[trigger] load_outcome(entries)->Ok_0[i])
                == record_of(entries[i]),
{
    law_first_defect_is_least(entries, Defect::Malformed);
    law_first_defect_is_least(entries, Defect::Untrusted);
    if first_defect(entries, Defect::Malformed) is Some {
        let i = first_defect(entries, Defect::Malformed)->Some_0;
        assert(record_of(entries[i]) is None);
    }
    if first_defect(entries, Defect::Untrusted) is Some {
        let i = first_defect(entries, Defect::Untrusted)->Some_0;
        assert(record_of(entries[i]) is Some);
        let j = choose|j: int| 0 <= j < i && record_of(#[trigger] entries[j]) == record_of(entries[i]);
        assert(false);
    }
}

/// A malformed entry anywhere in the bundle fails the load with
/// `CertificateParseError`, naming the first malformed entry; nothing is
/// loaded.
pub proof fn law_malformed_entry_fails(entries: Seq<PemEntryView>, i: int)
    requires
        0 <= i < entries.len(),
        entries[i] is Malformed,
    ensures
        load_outcome(entries) is Err,
        first_defect(entries, Defect::Malformed) is Some,
        first_defect(entries, Defect::Malformed)->Some_0 <= i,
        load_outcome(entries)->Err_0 == (ClientError::CertificateParseError {
            entry: first_defect(entries, Defect::Malformed)->Some_0 as usize,
        }),
{
    law_first_defect_is_least(entries, Defect::Malformed);
    assert(has_defect(entries, i, Defect::Malformed));
}

/// A certificate that cannot be added fails the load of a bundle without
/// malformed entries with `CertificateTrustError`, naming the first such
/// certificate: one that yields no trust anchor, or one that repeats an
/// earlier entry.
pub proof fn law_unaddable_certificate_fails(entries: Seq<PemEntryView>, k: int)
    requires
        forall|i: int| 0 <= i < entries.len() ==> !(#[trigger] entries[i] is Malformed),
        0 <= k < entries.len(),
        record_of(entries[k]) is None || exists|j: int| 0 <= j < k && #[trigger] entries[j] == entries[k],
    ensures
        load_outcome(entries) is Err,
        first_defect(entries, Defect::Untrusted) is Some,
        first_defect(entries, Defect::Untrusted)->Some_0 <= k,
        load_outcome(entries)->Err_0 == (ClientError::CertificateTrustError {
            entry: first_defect(entries, Defect::Untrusted)->Some_0 as usize,
        }),
{
    law_first_defect_is_least(entries, Defect::Malformed);
    law_first_defect_is_least(entries, Defect::Untrusted);
    if record_of(entries[k]) is Some {
        let j = choose|j: int| 0 <= j < k && #[trigger] entries[j] == entries[k];
        assert(record_of(entries[j]) == record_of(entries[k]));
        assert(repeats_earlier(entries, k));
    }
    assert(has_defect(entries, k, Defect::Untrusted));
}

/// What a bundle loads into is a set: no anchor occurs twice.
pub proof fn law_loaded_store_is_a_set(entries: Seq<PemEntryView>)
    requires
        load_outcome(entries) is Ok,
    ensures
        pairwise_distinct(load_outcome(entries)->Ok_0),
{
    law_first_defect_is_least(entries, Defect::Untrusted);
    let anchors = load_outcome(entries)->Ok_0;
    assert forall|i: int, j: int| 0 <= i < j < anchors.len() implies anchors[i] != anchors[j] by {
        assert(!has_defect(entries, i, Defect::Untrusted));
        assert(!has_defect(entries, j, Defect::Untrusted));
        if anchors[i] == anchors[j] {
            assert(record_of(entries[i]) == record_of(entries[j]));
            assert(repeats_earlier(entries, j));
        }
    }
}

} // verus!
