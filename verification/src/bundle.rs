//! Certificate records and the two swappable TLS configuration bundles.
//!
//! A record owns a certificate chain and the private key issued with it;
//! a bundle is the ready-to-use derivation of one record plus an ALPN
//! preference list.  The process holds one default bundle (real traffic)
//! and one challenge bundle (validation probes), each replaced whole when
//! a certificate is issued or renewed, never mutated field by field.

use vstd::prelude::*;

use crate::hello::ConnectionClass;
use crate::hello::acme_alpn;
use crate::hello::spec_acme_alpn;

verus! {

/// One issued certificate: the domain set it covers, the chain, the
/// private key created with it, and its validity window.
#[derive(Debug)]
pub struct CertificateRecord {
    /// The domains the certificate covers; never empty.
    pub domains: Vec<String>,
    /// The certificate chain, DER bytes.
    pub cert_chain: Vec<u8>,
    /// The private key matching the chain, DER bytes.
    pub private_key: Vec<u8>,
    /// When the certificate was issued, seconds since the epoch.
    pub issued_at: u64,
    /// When the certificate expires, seconds since the epoch.
    pub expires_at: u64,
}

impl CertificateRecord {
    /// A record covers at least one domain and does not expire before it
    /// is issued.
    pub open spec fn wf(self) -> bool {
        self.domains@.len() > 0 && self.issued_at <= self.expires_at
    }
}

/// A ready-to-serve TLS configuration: the material of one certificate
/// record and the ALPN protocols offered with it.
#[derive(Debug)]
pub struct TlsBundle {
    /// The certificate chain presented in the handshake.
    pub cert_chain: Vec<u8>,
    /// The private key the handshake signs with; from the same record as
    /// the chain.
    pub private_key: Vec<u8>,
    /// The ALPN protocols offered, in preference order.
    pub alpn: Vec<Vec<u8>>,
    /// The expiry of the certificate the bundle carries.
    pub expires_at: u64,
}

/// Whether a bundle is exactly the derivation of one record with the
/// given ALPN list: chain, key and expiry all from that single record.
pub open spec fn bundle_of(b: TlsBundle, r: CertificateRecord, alpn: Seq<Seq<u8>>) -> bool {
    &&& b.cert_chain@ == r.cert_chain@
    &&& b.private_key@ == r.private_key@
    &&& b.expires_at == r.expires_at
    &&& b.alpn.deep_view() == alpn
}

/// The ALPN list of the default bundle: `h2` then `http/1.1`.
pub open spec fn spec_default_alpn() -> Seq<Seq<u8>> {
    seq![seq![0x68u8, 0x32u8], seq![0x68u8, 0x74u8, 0x74u8, 0x70u8, 0x2fu8, 0x31u8, 0x2eu8, 0x31u8]]
}

/// The ALPN list of the challenge bundle: the domain-validation
/// identifier first, then the application protocols.
pub open spec fn spec_challenge_alpn() -> Seq<Seq<u8>> {
    seq![spec_acme_alpn()] + spec_default_alpn()
}

/// Builds the default ALPN preference list.
pub fn default_alpn() -> (r: Vec<Vec<u8>>)
    ensures
        r.deep_view() == spec_default_alpn(),
{
    let mut h2: Vec<u8> = Vec::new();
    h2.push(0x68);
    h2.push(0x32);
    let mut h1: Vec<u8> = Vec::new();
    h1.push(0x68);
    h1.push(0x74);
    h1.push(0x74);
    h1.push(0x70);
    h1.push(0x2f);
    h1.push(0x31);
    h1.push(0x2e);
    h1.push(0x31);
    let mut r: Vec<Vec<u8>> = Vec::new();
    r.push(h2);
    r.push(h1);
    proof {
        assert(r.deep_view() =~~= spec_default_alpn());
    }
    r
}

/// Builds the challenge ALPN preference list.
pub fn challenge_alpn() -> (r: Vec<Vec<u8>>)
    ensures
        r.deep_view() == spec_challenge_alpn(),
{
    let mut r: Vec<Vec<u8>> = Vec::new();
    r.push(acme_alpn());
    let mut h2: Vec<u8> = Vec::new();
    h2.push(0x68);
    h2.push(0x32);
    let mut h1: Vec<u8> = Vec::new();
    h1.push(0x68);
    h1.push(0x74);
    h1.push(0x74);
    h1.push(0x70);
    h1.push(0x2f);
    h1.push(0x31);
    h1.push(0x2e);
    h1.push(0x31);
    r.push(h2);
    r.push(h1);
    proof {
        assert(r.deep_view() =~~= spec_challenge_alpn());
    }
    r
}

/// The process-wide pair of swappable TLS configurations.  The fields
/// are private: the only way a bundle appears is `install_default` or
/// `install_challenge` deriving it whole from one record.
#[derive(Debug)]
pub struct TlsConfigState {
    default_bundle: Option<TlsBundle>,
    challenge_bundle: Option<TlsBundle>,
}

impl TlsConfigState {
    /// The bundle ordinary traffic is served with, once one exists.
    pub closed spec fn default_spec(self) -> Option<TlsBundle> {
        self.default_bundle
    }

    /// The bundle validation probes are served with, once one exists.
    pub closed spec fn challenge_spec(self) -> Option<TlsBundle> {
        self.challenge_bundle
    }

    /// Before the first issuance neither bundle exists.
    pub fn new() -> (r: Self)
        ensures
            r.default_spec() is None,
            r.challenge_spec() is None,
    {
        TlsConfigState { default_bundle: None, challenge_bundle: None }
    }

    /// Publishes a record as the default bundle: the old bundle is
    /// replaced whole by one derived entirely from `r`; the challenge
    /// bundle is untouched.
    pub fn install_default(&mut self, r: &CertificateRecord)
        requires
            r.wf(),
        ensures
            (match final(self).default_spec() {
                Some(b) => bundle_of(b, *r, spec_default_alpn()),
                None => false,
            }),
            final(self).challenge_spec() == old(self).challenge_spec(),
    {
        let b = TlsBundle {
            cert_chain: clone_bytes(&r.cert_chain),
            private_key: clone_bytes(&r.private_key),
            alpn: default_alpn(),
            expires_at: r.expires_at,
        };
        self.default_bundle = Some(b);
    }

    /// Publishes a record as the challenge bundle; the default bundle is
    /// untouched.
    pub fn install_challenge(&mut self, r: &CertificateRecord)
        requires
            r.wf(),
        ensures
            (match final(self).challenge_spec() {
                Some(b) => bundle_of(b, *r, spec_challenge_alpn()),
                None => false,
            }),
            final(self).default_spec() == old(self).default_spec(),
    {
        let b = TlsBundle {
            cert_chain: clone_bytes(&r.cert_chain),
            private_key: clone_bytes(&r.private_key),
            alpn: challenge_alpn(),
            expires_at: r.expires_at,
        };
        self.challenge_bundle = Some(b);
    }

    /// The bundle a classified connection is terminated with: probes get
    /// the challenge bundle, ordinary traffic the default bundle.
    pub fn select(&self, class: ConnectionClass) -> (r: Option<&TlsBundle>)
        ensures
            ({
                let want = if class == ConnectionClass::Probe {
                    self.challenge_spec()
                } else {
                    self.default_spec()
                };
                match r {
                    Some(b) => want == Some(*b),
                    None => want is None,
                }
            }),
    {
        match class {
            ConnectionClass::Probe => self.challenge_bundle.as_ref(),
            ConnectionClass::Ordinary => self.default_bundle.as_ref(),
        }
    }
}

/// Copies a byte vector.
fn clone_bytes(v: &Vec<u8>) -> (r: Vec<u8>)
    ensures
        r@ == v@,
{
    let mut r: Vec<u8> = Vec::new();
    let mut i: usize = 0;
    while i < v.len()
        invariant
            i <= v@.len(),
            r@ == v@.take(i as int),
        decreases v@.len() - i,
    {
        proof {
            assert(v@.take(i as int).push(v@[i as int]) =~= v@.take(i + 1));
        }
        r.push(v[i]);
        i = i + 1;
    }
    proof {
        assert(r@ =~= v@);
    }
    r
}

/// The bundle the terminator uses for a given class.
pub open spec fn spec_select(st: TlsConfigState, class: ConnectionClass) -> Option<TlsBundle> {
    if class == ConnectionClass::Probe {
        st.challenge_spec()
    } else {
        st.default_spec()
    }
}

/// For every connection whose ClientHello ALPN list contains the
/// domain-validation identifier the terminator selects the challenge
/// bundle; for every other connection, the default bundle.
pub proof fn lemma_classification_is_deterministic(st: TlsConfigState, alpn: Seq<Seq<u8>>)
    ensures
        crate::hello::spec_is_probe(alpn) ==> spec_select(st, crate::hello::spec_classify(alpn))
            == st.challenge_spec(),
        !crate::hello::spec_is_probe(alpn) ==> spec_select(st, crate::hello::spec_classify(alpn))
            == st.default_spec(),
{
}

/// Every connection that selects the default bundle after an issuance
/// observes the installed record whole: its chain, its key and its expiry
/// all come from that one record, never a mixture of two.
pub proof fn lemma_replacement_is_consistent(
    st: TlsConfigState,
    r: CertificateRecord,
    b: TlsBundle,
)
    requires
        st.default_spec() == Some(b),
        bundle_of(b, r, spec_default_alpn()),
    ensures
        b.cert_chain@ == r.cert_chain@,
        b.private_key@ == r.private_key@,
        b.expires_at == r.expires_at,
{
}

/// Given certificates with expiries `T1 < T2` for the same domain set,
/// once a renewal completes and installs the second record, the default
/// bundle any later connection selects references the `T2` certificate.
pub proof fn lemma_renewal_prefers_newer(
    st: TlsConfigState,
    r1: CertificateRecord,
    r2: CertificateRecord,
    b: TlsBundle,
)
    requires
        r1.expires_at < r2.expires_at,
        st.default_spec() == Some(b),
        bundle_of(b, r2, spec_default_alpn()),
    ensures
        b.expires_at == r2.expires_at,
        b.expires_at > r1.expires_at,
        b.cert_chain@ == r2.cert_chain@,
        b.private_key@ == r2.private_key@,
{
}

} // verus!
