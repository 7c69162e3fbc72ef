//! Fingerprints of peer certificates.
//!
//! Every device presents a self-signed certificate. The TLS layer accepts any
//! of them; trust is established by pairing, after which the fingerprint of
//! the peer's certificate is pinned.
use crate::base::Error;
use crate::protocol::tls;
use vstd::prelude::*;

verus! {

/// The fingerprint of the first certificate that a peer presented, or why
/// there is none.
pub open spec fn presented(certs: Option<Seq<Vec<u8>>>) -> Result<Seq<u8>, Seq<char>> {
    match certs {
        None => Err("peer presented no certificate"@),
        Some(list) => if list.len() == 0 {
            Err("peer certificate list empty"@)
        } else {
            Ok(tls::sha256(list[0]@))
        },
    }
}

/// A peer is known by the first certificate that it presents: it needs one,
/// and whatever it presents behind the first changes nothing.
pub proof fn law_the_first_certificate_counts(first: Vec<u8>, others: Seq<Vec<u8>>)
    ensures
        presented(Some(seq![first] + others)) == Ok::<Seq<u8>, Seq<char>>(tls::sha256(first@)),
        presented(Some(Seq::empty())) is Err,
        presented(None) is Err,
{
}

/// The fingerprint of the first certificate that a peer presented.
pub fn fingerprint_of_first(certs: Option<&Vec<Vec<u8>>>) -> (r: Result<[u8; 32], Error>)
    ensures
        ({
            let view = presented(
                match certs {
                    Some(list) => Some(list@),
                    None => None,
                },
            );
            match r {
                Ok(fingerprint) => view == Ok::<Seq<u8>, Seq<char>>(fingerprint@),
                Err(Error::Other(m)) => view == Err::<Seq<u8>, Seq<char>>(m@),
                Err(_) => false,
            }
        }),
{
    let list = match certs {
        Some(list) => list,
        None => {
            return Err(Error::Other("peer presented no certificate".to_owned()));
        },
    };
    if list.len() == 0 {
        return Err(Error::Other("peer certificate list empty".to_owned()));
    }
    match tls::cert_fingerprint(list[0].as_slice()) {
        Ok(fingerprint) => Ok(fingerprint),
        Err(e) => Err(Error::Other(e.message())),
    }
}

} // verus!
