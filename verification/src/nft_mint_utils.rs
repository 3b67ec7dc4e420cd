//! What a mint hands to the ledger besides the attributes: the hash of the
//! data and the list of URIs.

use crate::storage::{Minter, StorageModule};
use vstd::prelude::*;

verus! {

/// The SHA-256 digest of `data`: what
/// `multiversx_sc::chain_core::std::crypto::sha256` returns for these bytes.
/// Nothing is proved of it; it depends on the bytes alone.
pub uninterp spec fn sha256_digest(data: Seq<u8>) -> Seq<u8>;

/// `multiversx_sc::chain_core::std::crypto::sha256`: the SHA-256 digest of
/// the bytes handed in. This is taken on trust: what SHA-256 computes is
/// not spelled out here, the digest goes by the name `sha256_digest`.
#[verifier::external_body]
fn sha256(data: &Vec<u8>) -> (digest: Vec<u8>)
    ensures
        digest@ == sha256_digest(data@),
{
    multiversx_sc::chain_core::std::crypto::sha256(data.as_slice()).to_vec()
}

/// The URIs of a unit: the media, the metadata, then the extra assets in
/// their order.
pub open spec fn uris_of(media: Seq<u8>, metadata: Seq<u8>, extra_assets: Seq<Seq<u8>>) -> Seq<
    Seq<u8>,
> {
    seq![media, metadata] + extra_assets
}

/// The views of a list of byte strings.
pub open spec fn views_of(list: Seq<Vec<u8>>) -> Seq<Seq<u8>> {
    list.map_values(|bytes: Vec<u8>| bytes@)
}

pub trait NftMintUtils: StorageModule {
    /// The hash that stands for the data of a unit: the digest of the
    /// marshal URL followed by the stream URL.
    fn create_hash_buffer(&self, data_marshal: &Vec<u8>, data_stream: &Vec<u8>) -> (hash: Vec<
        u8,
    >)
        ensures
            hash@ == sha256_digest(data_marshal@ + data_stream@),
    ;

    fn create_uris(&self, media: Vec<u8>, metadata: Vec<u8>, extra_assets: Vec<Vec<u8>>) -> (uris:
        Vec<Vec<u8>>)
        ensures
            views_of(uris@) == uris_of(media@, metadata@, views_of(extra_assets@)),
    ;
}

impl NftMintUtils for Minter {
    fn create_hash_buffer(&self, data_marshal: &Vec<u8>, data_stream: &Vec<u8>) -> (hash: Vec<
        u8,
    >) {
        let mut new_data = data_marshal.clone();
        let mut i: usize = 0;
        while i < data_stream.len()
            invariant
                i <= data_stream@.len(),
                new_data@ == data_marshal@ + data_stream@.subrange(0, i as int),
            decreases data_stream@.len() - i,
        {
            new_data.push(data_stream[i]);
            assert(new_data@ =~= data_marshal@ + data_stream@.subrange(0, i + 1));
            i = i + 1;
        }
        assert(new_data@ =~= data_marshal@ + data_stream@);
        sha256(&new_data)
    }

    fn create_uris(&self, media: Vec<u8>, metadata: Vec<u8>, extra_assets: Vec<Vec<u8>>) -> (uris:
        Vec<Vec<u8>>) {
        let mut uris: Vec<Vec<u8>> = Vec::new();
        let mut extra_assets = extra_assets;
        let ghost extra = views_of(extra_assets@);
        uris.push(media);
        uris.push(metadata);
        uris.append(&mut extra_assets);
        assert(views_of(uris@) =~= uris_of(media@, metadata@, extra));
        uris
    }
}

} // verus!
