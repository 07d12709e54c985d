//! The server's TLS identity, picked from the items of a PEM file.

use rustls_pemfile::Item;
use vstd::prelude::*;

verus! {

/// One section of a PEM file.
#[derive(Debug, Clone, PartialEq, Eq)]
pub enum PemItem {
    /// An X.509 certificate, DER-encoded.
    Certificate(Vec<u8>),
    /// An RSA private key.
    RsaKey(Vec<u8>),
    /// A PKCS#8 private key.
    Pkcs8Key(Vec<u8>),
    /// An EC private key.
    EcKey(Vec<u8>),
    /// A section of another kind.
    Other,
}

pub enum PemItemView {
    Certificate(Seq<u8>),
    RsaKey(Seq<u8>),
    Pkcs8Key(Seq<u8>),
    EcKey(Seq<u8>),
    Other,
}

impl View for PemItem {
    type V = PemItemView;

    open spec fn view(&self) -> PemItemView {
        match self {
            PemItem::Certificate(der) => PemItemView::Certificate(der@),
            PemItem::RsaKey(der) => PemItemView::RsaKey(der@),
            PemItem::Pkcs8Key(der) => PemItemView::Pkcs8Key(der@),
            PemItem::EcKey(der) => PemItemView::EcKey(der@),
            PemItem::Other => PemItemView::Other,
        }
    }
}

/// The views of a list of items, one for one.
pub open spec fn items_view(items: Seq<PemItem>) -> Seq<PemItemView> {
    Seq::new(items.len(), |i: int| items[i]@)
}

/// The contents of a list of byte strings, one for one.
pub open spec fn chain_view(chain: Seq<Vec<u8>>) -> Seq<Seq<u8>> {
    Seq::new(chain.len(), |i: int| chain[i]@)
}

/// A certificate chain and the private key that goes with it.
#[derive(Debug, Clone, PartialEq, Eq)]
pub struct Identity {
    pub certs: Vec<Vec<u8>>,
    pub key: Vec<u8>,
}

/// Why no identity could be had from a PEM file.
#[derive(Debug, Clone, Copy, PartialEq, Eq, Structural)]
pub enum TlsError {
    /// The bytes are no well-formed PEM.
    Unreadable,
    /// No section holds a private key.
    NoPrivateKey,
}

/// The private key that an item holds, if it is one of the three kinds of
/// key.
pub open spec fn key_of(item: PemItemView) -> Option<Seq<u8>> {
    match item {
        PemItemView::RsaKey(der) => Some(der),
        PemItemView::Pkcs8Key(der) => Some(der),
        PemItemView::EcKey(der) => Some(der),
        _ => None,
    }
}

/// The certificates among the items, in their order.
pub open spec fn certificates(items: Seq<PemItemView>) -> Seq<Seq<u8>>
    decreases items.len(),
{
    if items.len() == 0 {
        Seq::empty()
    } else {
        match items.last() {
            PemItemView::Certificate(der) => certificates(items.drop_last()).push(der),
            _ => certificates(items.drop_last()),
        }
    }
}

/// The first private key among the items.
pub open spec fn first_key(items: Seq<PemItemView>) -> Option<Seq<u8>>
    decreases items.len(),
{
    if items.len() == 0 {
        None
    } else {
        match first_key(items.drop_last()) {
            Some(der) => Some(der),
            None => key_of(items.last()),
        }
    }
}

/// The identity in a list of items: all its certificates, in order, and its
/// first private key.
pub open spec fn identity_in(items: Seq<PemItemView>) -> Result<(Seq<Seq<u8>>, Seq<u8>), TlsError> {
    match first_key(items) {
        Some(key) => Ok((certificates(items), key)),
        None => Err(TlsError::NoPrivateKey),
    }
}

/// The identity in the bytes of a PEM file.
pub open spec fn identity_of(pem: Seq<u8>) -> Result<(Seq<Seq<u8>>, Seq<u8>), TlsError> {
    match pem_items(pem) {
        Some(items) => identity_in(items),
        None => Err(TlsError::Unreadable),
    }
}

/// The sections that `rustls_pemfile` finds in the bytes of a PEM file, in
/// their order; none where it reports an error.
pub uninterp spec fn pem_items(pem: Seq<u8>) -> Option<Seq<PemItemView>>;

/// `rustls_pemfile::read_all` on the bytes, each item moved into a
/// [`PemItem`] of its kind. The items depend on the bytes alone.
#[verifier::external_body]
fn read_pem(pem: &[u8]) -> (items: Option<Vec<PemItem>>)
    ensures
        match items {
            Some(found) => pem_items(pem@) == Some(items_view(found@)),
            None => pem_items(pem@).is_none(),
        },
{
    let mut reader = pem;
    let items = rustls_pemfile::read_all(&mut reader).ok()?;
    Some(items.into_iter().map(|item| match item {
        Item::X509Certificate(der) => PemItem::Certificate(der),
        Item::RSAKey(der) => PemItem::RsaKey(der),
        Item::PKCS8Key(der) => PemItem::Pkcs8Key(der),
        Item::ECKey(der) => PemItem::EcKey(der),
        _ => PemItem::Other,
    }).collect())
}

/// A copy of some bytes.
fn copy_bytes(bytes: &Vec<u8>) -> (copy: Vec<u8>)
    ensures
        copy@ == bytes@,
{
    let mut copy: Vec<u8> = Vec::new();
    let mut i: usize = 0;
    while i < bytes.len()
        invariant
            i <= bytes.len(),
            copy@ == bytes@.take(i as int),
        decreases bytes.len() - i,
    {
        copy.push(bytes[i]);
        assert(bytes@.take(i + 1) =~= bytes@.take(i as int).push(bytes@[i as int]));
        i = i + 1;
    }
    assert(bytes@.take(bytes.len() as int) =~= bytes@);
    copy
}

/// The identity in a list of items.
pub fn pick_identity(items: &Vec<PemItem>) -> (identity: Result<Identity, TlsError>)
    ensures
        match identity {
            Ok(id) => identity_in(items_view(items@)) == Ok::<(Seq<Seq<u8>>, Seq<u8>), TlsError>(
                (chain_view(id.certs@), id.key@),
            ),
            Err(e) => identity_in(items_view(items@)) == Err::<(Seq<Seq<u8>>, Seq<u8>), TlsError>(
                e,
            ),
        },
{
    let ghost all = items_view(items@);
    let mut certs: Vec<Vec<u8>> = Vec::new();
    let mut key: Option<Vec<u8>> = None;
    let mut i: usize = 0;
    assert(all.take(0) =~= Seq::empty());
    assert(chain_view(certs@) =~= Seq::empty());
    while i < items.len()
        invariant
            i <= items.len(),
            all == items_view(items@),
            chain_view(certs@) == certificates(all.take(i as int)),
            match key {
                Some(k) => first_key(all.take(i as int)) == Some(k@),
                None => first_key(all.take(i as int)).is_none(),
            },
        decreases items.len() - i,
    {
        assert(all.take(i + 1).drop_last() =~= all.take(i as int));
        assert(all.take(i + 1).last() == items@[i as int]@);
        let ghost before = chain_view(certs@);
        match &items[i] {
            PemItem::Certificate(der) => {
                let copy = copy_bytes(der);
                certs.push(copy);
                assert(chain_view(certs@) =~= before.push(der@));
            },
            PemItem::RsaKey(der) => {
                if key.is_none() {
                    key = Some(copy_bytes(der));
                }
            },
            PemItem::Pkcs8Key(der) => {
                if key.is_none() {
                    key = Some(copy_bytes(der));
                }
            },
            PemItem::EcKey(der) => {
                if key.is_none() {
                    key = Some(copy_bytes(der));
                }
            },
            PemItem::Other => {},
        }
        i = i + 1;
    }
    assert(all.take(items.len() as int) =~= all);
    match key {
        Some(key) => Ok(Identity { certs, key }),
        None => Err(TlsError::NoPrivateKey),
    }
}

/// The identity in the bytes of a PEM file.
pub fn load_identity(pem: &[u8]) -> (identity: Result<Identity, TlsError>)
    ensures
        match identity {
            Ok(id) => identity_of(pem@) == Ok::<(Seq<Seq<u8>>, Seq<u8>), TlsError>(
                (chain_view(id.certs@), id.key@),
            ),
            Err(e) => identity_of(pem@) == Err::<(Seq<Seq<u8>>, Seq<u8>), TlsError>(e),
        },
{
    match read_pem(pem) {
        Some(items) => pick_identity(&items),
        None => Err(TlsError::Unreadable),
    }
}

/// The protocols offered in the TLS handshake, the preferred one first:
/// `h2`, then `http/1.1`.
pub open spec fn alpn() -> Seq<Seq<u8>> {
    seq![seq![0x68u8, 0x32u8], seq![0x68u8, 0x74u8, 0x74u8, 0x70u8, 0x2fu8, 0x31u8, 0x2eu8, 0x31u8]]
}

/// The protocols offered in the TLS handshake.
pub fn alpn_protocols() -> (protocols: Vec<Vec<u8>>)
    ensures
        chain_view(protocols@) == alpn(),
{
    let h2: Vec<u8> = vec![0x68u8, 0x32u8];
    let http11: Vec<u8> = vec![0x68u8, 0x74u8, 0x74u8, 0x70u8, 0x2fu8, 0x31u8, 0x2eu8, 0x31u8];
    let mut protocols: Vec<Vec<u8>> = Vec::new();
    protocols.push(h2);
    protocols.push(http11);
    assert(chain_view(protocols@) =~= alpn()) by {
        assert(protocols@[0]@ =~= alpn()[0]);
        assert(protocols@[1]@ =~= alpn()[1]);
    }
    protocols
}

} // verus!
