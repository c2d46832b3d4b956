//! Byte-level inspection of a peeked TLS ClientHello.
//!
//! In encrypted mode the acceptor peeks the first handshake message of
//! each connection and reads two things from it without consuming any
//! bytes: the requested ALPN protocol list and the server name.  A
//! connection whose ALPN list contains the reserved domain-validation
//! identifier is a certificate-validation probe; every other connection
//! is ordinary traffic.

use vstd::prelude::*;

verus! {

/// Why a peeked ClientHello was rejected.
#[derive(Debug, Clone, Copy, PartialEq, Eq, Structural)]
pub enum HelloError {
    /// The peeked bytes end before the handshake message does.
    Truncated,
    /// The bytes do not begin a TLS handshake record, or the record does
    /// not hold a ClientHello.
    NotTls,
    /// The lengths inside the message do not add up.
    Malformed,
}

/// The 16-bit big-endian integer at position `i`.
pub open spec fn be16(s: Seq<u8>, i: int) -> int
    recommends
        0 <= i,
        i + 2 <= s.len(),
{
    (s[i] as int) * 256 + (s[i + 1] as int)
}

/// The 24-bit big-endian integer at position `i`.
pub open spec fn be24(s: Seq<u8>, i: int) -> int
    recommends
        0 <= i,
        i + 3 <= s.len(),
{
    (s[i] as int) * 65536 + (s[i + 1] as int) * 256 + (s[i + 2] as int)
}

/// What the server-name extension data denotes: the first entry must be a
/// host name, and its bytes are the name.
pub open spec fn spec_parse_sni(d: Seq<u8>) -> Option<Seq<u8>> {
    if d.len() < 2 || be16(d, 0) != d.len() - 2 {
        None
    } else if d.len() < 5 || d[2] != 0 {
        None
    } else if 5 + be16(d, 3) > d.len() {
        None
    } else {
        Some(d.subrange(5, 5 + be16(d, 3)))
    }
}

/// The protocol names of an ALPN entry list running from `i` to `end`:
/// each entry is one length byte and that many name bytes.
pub open spec fn spec_alpn_list(d: Seq<u8>, i: int, end: int) -> Option<Seq<Seq<u8>>>
    recommends
        0 <= i <= end <= d.len(),
    decreases end - i,
{
    if i >= end {
        Some(Seq::empty())
    } else {
        let l = d[i] as int;
        if i + 1 + l > end {
            None
        } else {
            match spec_alpn_list(d, i + 1 + l, end) {
                Some(rest) => Some(seq![d.subrange(i + 1, i + 1 + l)] + rest),
                None => None,
            }
        }
    }
}

/// What the ALPN extension data denotes: a 16-bit list length that must
/// fill the data exactly, then the entry list.
pub open spec fn spec_parse_alpn(d: Seq<u8>) -> Option<Seq<Seq<u8>>> {
    if d.len() < 2 || be16(d, 0) != d.len() - 2 {
        None
    } else {
        spec_alpn_list(d, 2, d.len() as int)
    }
}

/// Walks the extension block from `i` to `end`, collecting the first ALPN
/// list and the first server name.  Extension data that does not parse is
/// malformed; unknown extensions are skipped.
pub open spec fn spec_scan_exts(
    b: Seq<u8>,
    i: int,
    end: int,
    alpn: Option<Seq<Seq<u8>>>,
    sni: Option<Seq<u8>>,
) -> Result<(Seq<Seq<u8>>, Option<Seq<u8>>), HelloError>
    recommends
        0 <= i <= end <= b.len(),
    decreases end - i,
{
    if i >= end {
        Ok(
            (
                match alpn {
                    Some(a) => a,
                    None => Seq::empty(),
                },
                sni,
            ),
        )
    } else if i + 4 > end {
        Err(HelloError::Malformed)
    } else {
        let t = be16(b, i);
        let l = be16(b, i + 2);
        if i + 4 + l > end {
            Err(HelloError::Malformed)
        } else {
            let data = b.subrange(i + 4, i + 4 + l);
            if t == 16 && alpn is None {
                match spec_parse_alpn(data) {
                    Some(list) => spec_scan_exts(b, i + 4 + l, end, Some(list), sni),
                    None => Err(HelloError::Malformed),
                }
            } else if t == 0 && sni is None {
                match spec_parse_sni(data) {
                    Some(name) => spec_scan_exts(b, i + 4 + l, end, alpn, Some(name)),
                    None => Err(HelloError::Malformed),
                }
            } else {
                spec_scan_exts(b, i + 4 + l, end, alpn, sni)
            }
        }
    }
}

/// What a ClientHello body (after the handshake header) denotes: fixed
/// fields and the session id, cipher suites and compression methods are
/// skipped; the extensions must fill the rest exactly.
pub open spec fn spec_parse_body(body: Seq<u8>) -> Result<
    (Seq<Seq<u8>>, Option<Seq<u8>>),
    HelloError,
> {
    if body.len() < 35 {
        Err(HelloError::Malformed)
    } else {
        let i1 = 35 + body[34] as int;
        if i1 + 2 > body.len() {
            Err(HelloError::Malformed)
        } else {
            let i2 = i1 + 2 + be16(body, i1);
            if i2 + 1 > body.len() {
                Err(HelloError::Malformed)
            } else {
                let i3 = i2 + 1 + body[i2] as int;
                if i3 + 2 > body.len() {
                    Err(HelloError::Malformed)
                } else {
                    let i4 = i3 + 2;
                    if i4 + be16(body, i3) != body.len() {
                        Err(HelloError::Malformed)
                    } else {
                        spec_scan_exts(body, i4, body.len() as int, None, None)
                    }
                }
            }
        }
    }
}

/// What a peeked byte sequence denotes: one TLS handshake record whose
/// payload begins a ClientHello; the ALPN protocol list and the server
/// name are read out of its extensions.
pub open spec fn spec_parse_hello(b: Seq<u8>) -> Result<
    (Seq<Seq<u8>>, Option<Seq<u8>>),
    HelloError,
> {
    if b.len() < 5 {
        Err(HelloError::Truncated)
    } else if b[0] != 22 {
        Err(HelloError::NotTls)
    } else if 5 + be16(b, 3) > b.len() {
        Err(HelloError::Truncated)
    } else {
        let h = b.subrange(5, 5 + be16(b, 3));
        if h.len() < 4 {
            Err(HelloError::Malformed)
        } else if h[0] != 1 {
            Err(HelloError::NotTls)
        } else if 4 + be24(h, 1) > h.len() {
            Err(HelloError::Truncated)
        } else {
            spec_parse_body(h.subrange(4, 4 + be24(h, 1)))
        }
    }
}

/// Copies `b[lo..hi]` into a fresh vector.
fn subvec(b: &[u8], lo: usize, hi: usize) -> (r: Vec<u8>)
    requires
        lo <= hi <= b@.len(),
    ensures
        r@ == b@.subrange(lo as int, hi as int),
{
    let mut r: Vec<u8> = Vec::new();
    let mut i: usize = lo;
    while i < hi
        invariant
            lo <= i <= hi <= b@.len(),
            r@ == b@.subrange(lo as int, i as int),
        decreases hi - i,
    {
        proof {
            assert(b@.subrange(lo as int, i as int).push(b@[i as int]) =~= b@.subrange(
                lo as int,
                i + 1,
            ));
        }
        r.push(b[i]);
        i = i + 1;
    }
    r
}

/// Whether two byte vectors hold the same bytes.
pub fn bytes_eq(a: &Vec<u8>, b: &Vec<u8>) -> (r: bool)
    ensures
        r == (a@ == b@),
{
    if a.len() != b.len() {
        return false;
    }
    let mut i: usize = 0;
    while i < a.len()
        invariant
            a@.len() == b@.len(),
            i <= a@.len(),
            forall|k: int| 0 <= k < i ==> a@[k] == b@[k],
        decreases a@.len() - i,
    {
        if a[i] != b[i] {
            return false;
        }
        i = i + 1;
    }
    proof {
        assert(a@ =~= b@);
    }
    true
}

/// Reads the 16-bit big-endian integer at `i`.
fn read_be16(b: &Vec<u8>, i: usize) -> (r: usize)
    requires
        i + 2 <= b@.len(),
    ensures
        r == be16(b@, i as int),
        r < 65536,
{
    let n = b.len();
    (b[i] as usize) * 256 + (b[i + 1] as usize)
}

/// Parses the ALPN extension data.
fn parse_alpn(d: &Vec<u8>) -> (r: Option<Vec<Vec<u8>>>)
    ensures
        (match r {
            Some(list) => spec_parse_alpn(d@) == Some(list.deep_view()),
            None => spec_parse_alpn(d@) is None,
        }),
{
    let m = d.len();
    if m < 2 {
        return None;
    }
    let ll = read_be16(d, 0);
    if ll != m - 2 {
        return None;
    }
    let mut acc: Vec<Vec<u8>> = Vec::new();
    let mut j: usize = 2;
    while j < m
        invariant
            2 <= j <= m,
            m == d@.len(),
            (match spec_alpn_list(d@, j as int, m as int) {
                Some(rest) => spec_alpn_list(d@, 2, m as int) == Some(acc.deep_view() + rest),
                None => spec_alpn_list(d@, 2, m as int) is None,
            }),
        decreases m - j,
    {
        let l = d[j] as usize;
        if m - (j + 1) < l {
            return None;
        }
        let item = subvec(d.as_slice(), j + 1, j + 1 + l);
        let ghost old_acc = acc.deep_view();
        acc.push(item);
        proof {
            assert(acc.deep_view() =~~= old_acc.push(item@));
            assert(forall|rest: Seq<Seq<u8>>|
                (old_acc + (seq![d@.subrange(j + 1, j + 1 + l)] + rest)) =~= (old_acc.push(
                    item@,
                ) + rest));
        }
        j = j + 1 + l;
    }
    proof {
        assert(acc.deep_view() + Seq::<Seq<u8>>::empty() =~= acc.deep_view());
    }
    Some(acc)
}

/// Parses the server-name extension data.
fn parse_sni(d: &Vec<u8>) -> (r: Option<Vec<u8>>)
    ensures
        (match r {
            Some(name) => spec_parse_sni(d@) == Some(name@),
            None => spec_parse_sni(d@) is None,
        }),
{
    let m = d.len();
    if m < 2 {
        return None;
    }
    let ll = read_be16(d, 0);
    if ll != m - 2 {
        return None;
    }
    if m < 5 {
        return None;
    }
    if d[2] != 0 {
        return None;
    }
    let nl = read_be16(d, 3);
    if m - 5 < nl {
        return None;
    }
    Some(subvec(d.as_slice(), 5, 5 + nl))
}

/// What the classifier reads out of a peeked ClientHello.
#[derive(Debug, Clone)]
pub struct ClientHelloSummary {
    /// The requested ALPN protocols, in the client's preference order;
    /// empty when the extension is absent.
    pub alpn: Vec<Vec<u8>>,
    /// The requested server name, when one was sent.
    pub server_name: Option<Vec<u8>>,
}

/// Parses a peeked byte sequence as the start of a TLS ClientHello and
/// reads out the ALPN protocol list and the server name.
pub fn parse_client_hello(b: &[u8]) -> (r: Result<ClientHelloSummary, HelloError>)
    ensures
        (match spec_parse_hello(b@) {
            Ok(h) => (match r {
                Ok(s) => s.alpn.deep_view() == h.0 && s.server_name.deep_view() == h.1,
                Err(_) => false,
            }),
            Err(e) => r == Err::<ClientHelloSummary, HelloError>(e),
        }),
{
    let n = b.len();
    if n < 5 {
        return Err(HelloError::Truncated);
    }
    if b[0] != 22 {
        return Err(HelloError::NotTls);
    }
    let rec_len = (b[3] as usize) * 256 + (b[4] as usize);
    if n - 5 < rec_len {
        return Err(HelloError::Truncated);
    }
    let h = subvec(b, 5, 5 + rec_len);
    if h.len() < 4 {
        return Err(HelloError::Malformed);
    }
    if h[0] != 1 {
        return Err(HelloError::NotTls);
    }
    let hl = (h[1] as usize) * 65536 + (h[2] as usize) * 256 + (h[3] as usize);
    if h.len() - 4 < hl {
        return Err(HelloError::Truncated);
    }
    let body = subvec(h.as_slice(), 4, 4 + hl);
    parse_body(&body)
}

/// Parses a ClientHello body: skips the fixed and variable-length fields
/// and walks the extension block.
fn parse_body(body: &Vec<u8>) -> (r: Result<ClientHelloSummary, HelloError>)
    ensures
        (match spec_parse_body(body@) {
            Ok(h) => (match r {
                Ok(s) => s.alpn.deep_view() == h.0 && s.server_name.deep_view() == h.1,
                Err(_) => false,
            }),
            Err(e) => r == Err::<ClientHelloSummary, HelloError>(e),
        }),
{
    let m = body.len();
    if m < 35 {
        return Err(HelloError::Malformed);
    }
    let i1 = 35 + body[34] as usize;
    if i1 + 2 > m {
        return Err(HelloError::Malformed);
    }
    let i2 = i1 + 2 + read_be16(body, i1);
    if i2 + 1 > m {
        return Err(HelloError::Malformed);
    }
    let i3 = i2 + 1 + body[i2] as usize;
    if i3 + 2 > m {
        return Err(HelloError::Malformed);
    }
    let et = read_be16(body, i3);
    let i4 = i3 + 2;
    if i4 + et != m {
        return Err(HelloError::Malformed);
    }
    let mut alpn_acc: Option<Vec<Vec<u8>>> = None;
    let mut sni_acc: Option<Vec<u8>> = None;
    let mut i: usize = i4;
    while i < m
        invariant
            i4 <= i <= m,
            m == body@.len(),
            spec_parse_body(body@) == spec_scan_exts(
                body@,
                i as int,
                m as int,
                alpn_acc.deep_view(),
                sni_acc.deep_view(),
            ),
        decreases m - i,
    {
        let ghost gi = i as int;
        let ghost galpn = alpn_acc.deep_view();
        let ghost gsni = sni_acc.deep_view();
        if m - i < 4 {
            return Err(HelloError::Malformed);
        }
        let t = read_be16(body, i);
        let l = read_be16(body, i + 2);
        if m - (i + 4) < l {
            return Err(HelloError::Malformed);
        }
        let data = subvec(body.as_slice(), i + 4, i + 4 + l);
        if t == 16 && alpn_acc.is_none() {
            match parse_alpn(&data) {
                Some(list) => {
                    alpn_acc = Some(list);
                },
                None => {
                    return Err(HelloError::Malformed);
                },
            }
        } else if t == 0 && sni_acc.is_none() {
            match parse_sni(&data) {
                Some(name) => {
                    proof {
                        assert(name.deep_view() =~= name@);
                    }
                    sni_acc = Some(name);
                },
                None => {
                    return Err(HelloError::Malformed);
                },
            }
        }
        i = i + 4 + l;
        proof {
            assert(spec_scan_exts(body@, gi, m as int, galpn, gsni) == spec_scan_exts(
                body@,
                i as int,
                m as int,
                alpn_acc.deep_view(),
                sni_acc.deep_view(),
            )) by {
                reveal_with_fuel(spec_scan_exts, 2);
                assert(i == gi + 4 + l);
                assert(body@.subrange(gi + 4, gi + 4 + l) == data@);
            }
        }
    }
    let ghost ga = alpn_acc.deep_view();
    let alpn = match alpn_acc {
        Some(list) => list,
        None => Vec::new(),
    };
    proof {
        if ga is None {
            assert(alpn.deep_view() =~= Seq::<Seq<u8>>::empty());
        }
    }
    Ok(ClientHelloSummary { alpn, server_name: sni_acc })
}

/// The reserved ALPN identifier of the TLS-based domain-validation
/// challenge: the bytes of `acme-tls/1`.
pub open spec fn spec_acme_alpn() -> Seq<u8> {
    seq![0x61u8, 0x63u8, 0x6du8, 0x65u8, 0x2du8, 0x74u8, 0x6cu8, 0x73u8, 0x2fu8, 0x31u8]
}

/// The reserved domain-validation ALPN identifier, as bytes.
pub fn acme_alpn() -> (r: Vec<u8>)
    ensures
        r@ == spec_acme_alpn(),
{
    let mut r: Vec<u8> = Vec::new();
    r.push(0x61);
    r.push(0x63);
    r.push(0x6d);
    r.push(0x65);
    r.push(0x2d);
    r.push(0x74);
    r.push(0x6c);
    r.push(0x73);
    r.push(0x2f);
    r.push(0x31);
    proof {
        assert(r@ =~= spec_acme_alpn());
    }
    r
}

/// Whether an ALPN protocol list asks for the domain-validation
/// identifier.
pub open spec fn spec_is_probe(alpn: Seq<Seq<u8>>) -> bool {
    exists|i: int| 0 <= i < alpn.len() && alpn[i] == spec_acme_alpn()
}

/// The class of an ALPN protocol list: a probe exactly when it contains
/// the domain-validation identifier.
pub open spec fn spec_classify(alpn: Seq<Seq<u8>>) -> ConnectionClass {
    if spec_is_probe(alpn) {
        ConnectionClass::Probe
    } else {
        ConnectionClass::Ordinary
    }
}

/// How a classified connection is served.
#[derive(Debug, Clone, Copy, PartialEq, Eq, Structural)]
pub enum ConnectionClass {
    /// A certificate-validation probe: terminate with the challenge
    /// bundle and close.
    Probe,
    /// Ordinary traffic: terminate with the default bundle and hand the
    /// stream to the request pipeline.
    Ordinary,
}

/// Classifies an ALPN protocol list: a probe exactly when the list
/// contains the domain-validation identifier.
pub fn classify_alpn(alpn: &Vec<Vec<u8>>) -> (r: ConnectionClass)
    ensures
        r == spec_classify(alpn.deep_view()),
{
    let acme = acme_alpn();
    let n = alpn.len();
    let mut i: usize = 0;
    while i < n
        invariant
            n == alpn@.len(),
            i <= n,
            acme@ == spec_acme_alpn(),
            forall|k: int| 0 <= k < i ==> alpn@[k]@ != spec_acme_alpn(),
        decreases n - i,
    {
        if bytes_eq(&alpn[i], &acme) {
            proof {
                assert(alpn.deep_view()[i as int] == alpn@[i as int]@);
            }
            return ConnectionClass::Probe;
        }
        i = i + 1;
    }
    proof {
        assert(forall|k: int| 0 <= k < alpn.deep_view().len() ==> alpn.deep_view()[k] == alpn@[k]@);
    }
    ConnectionClass::Ordinary
}

} // verus!
