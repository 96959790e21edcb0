//! Program images: the guest binary together with its 32-byte image id.
//!
//! An image id is trusted only when obtained out of band—computed locally
//! from a vetted binary, a compile-time constant, or a known registry.  An
//! id read from a receipt is claimed, not trusted.

use crate::bytesutil::clone_bytes;
use crate::errors::ReceiptError;
use crate::hexutil::{hex_encode, hex_str_of};
use vstd::prelude::*;

verus! {

/// The image id the backend derives from a guest binary: a function of the
/// binary's bytes alone.
pub uninterp spec fn image_id_of(elf: Seq<u8>) -> Seq<u8>;

/// Whether the backend can decode a blob as a guest binary and derive an id
/// from it: a function of the blob's bytes alone.
pub uninterp spec fn elf_decodes(elf: Seq<u8>) -> bool;

/// Relies on `risc0_binfmt::compute_image_id`: the id is derived from the
/// binary's bytes alone and is 32 bytes, and the derivation succeeds on a
/// fixed set of blobs—exactly those the backend decodes.
#[verifier::external_body]
pub(crate) fn compute_image_id_digest(elf: &[u8]) -> (r: Option<Vec<u8>>)
    ensures
        (r is Some) <==> elf_decodes(elf@),
        r matches Some(v) ==> v@ == image_id_of(elf@) && v@.len() == 32,
{
    match risc0_binfmt::compute_image_id(elf) {
        Ok(digest) => Some(digest.as_bytes().to_vec()),
        Err(_) => None,
    }
}

/// A guest program: its binary, and its image id where one is known.
#[derive(Clone)]
pub struct Image {
    /// The guest binary handed to the prover backend.
    pub elf_bytes: Vec<u8>,
    /// The 32-byte image id, absent on an image not loaded from a binary.
    pub image_id: Option<Vec<u8>>,
}

impl Image {
    /// The image invariant: where an id is present it is 32 bytes.
    pub open spec fn wf(&self) -> bool {
        self.image_id matches Some(id) ==> id@.len() == 32
    }

    /// Wrap a binary with an already-derived image id; the id must be 32
    /// bytes.
    pub fn from_elf(elf: &[u8], image_id: Vec<u8>) -> (r: Result<Image, ReceiptError>)
        ensures
            (r is Ok) <==> image_id@.len() == 32,
            r matches Ok(img) ==> img.wf() && img.elf_bytes@ == elf@ && (img.image_id matches Some(
                id,
            ) && id@ == image_id@),
            r matches Err(e) ==> e == ReceiptError::InvalidLength,
    {
        if image_id.len() != 32 {
            return Err(ReceiptError::InvalidLength);
        }
        let elf_bytes = crate::bytesutil::sub_bytes_slice(elf);
        Ok(Image { elf_bytes, image_id: Some(image_id) })
    }

    /// An empty image with no binary and no id.
    pub fn new_init() -> (img: Image)
        ensures
            img.wf() && img.elf_bytes@ == Seq::<u8>::empty() && img.image_id is None,
    {
        Image { elf_bytes: Vec::new(), image_id: None }
    }

    /// The guest binary.
    pub fn get_elf(&self) -> (elf: &Vec<u8>)
        ensures
            elf@ == self.elf_bytes@,
    {
        &self.elf_bytes
    }

    /// The image id as raw bytes, where one is known.
    pub fn id(&self) -> (r: Option<Vec<u8>>)
        ensures
            (r is Some) <==> (self.image_id is Some),
            r matches Some(v) ==> self.image_id matches Some(id) && v@ == id@,
    {
        match &self.image_id {
            None => None,
            Some(id) => Some(clone_bytes(id)),
        }
    }

    /// The image id as lowercase hex, where one is known.
    pub fn id_hex(&self) -> (r: Option<String>)
        ensures
            (r is Some) <==> (self.image_id is Some),
            r matches Some(s) ==> self.image_id matches Some(id) && s@ == hex_str_of(id@),
    {
        match &self.image_id {
            None => None,
            Some(id) => Some(hex_encode(id.as_slice())),
        }
    }
}

/// Load a guest binary, deriving its image id from its bytes.  Succeeds
/// exactly on the blobs the backend decodes.
pub fn load_image(elf: &[u8]) -> (r: Option<Image>)
    ensures
        (r is Some) <==> elf_decodes(elf@),
        r matches Some(img) ==> img.wf() && img.elf_bytes@ == elf@ && (img.image_id matches Some(
            id,
        ) && id@ == image_id_of(elf@)),
{
    match compute_image_id_digest(elf) {
        None => None,
        Some(id) => match Image::from_elf(elf, id) {
            Ok(img) => Some(img),
            Err(_) => None,
        },
    }
}

/// The image id of a guest binary, as 64 lowercase hex digits.  Succeeds
/// exactly on the blobs the backend decodes.
pub fn compute_image_id_hex(elf: &[u8]) -> (r: Option<String>)
    ensures
        (r is Some) <==> elf_decodes(elf@),
        r matches Some(s) ==> s@ == hex_str_of(image_id_of(elf@)) && s@.len() == 64,
{
    match compute_image_id_digest(elf) {
        None => None,
        Some(id) => Some(hex_encode(id.as_slice())),
    }
}

} // verus!
