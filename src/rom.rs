//! The cartridge image: a fixed-size ROM accepted only when it is the one known title.
use vstd::prelude::*;

verus! {

/// Size in bytes of the one accepted image (512 KiB).
pub const ROM_LEN: usize = 0x80000;

/// What the SHA-1 digest of `data` is.
pub uninterp spec fn sha1_of(data: Seq<u8>) -> Seq<u8>;

/// Relies on `sha1_smol::Sha1::from` and `Digest::bytes`: the 20-byte SHA-1
/// digest of `data`, which depends on the bytes alone.
#[verifier::external_body]
fn sha1(data: &[u8]) -> (r: [u8; 20])
    ensures
        r@ == sha1_of(data@),
{
    sha1_smol::Sha1::from(data).digest().bytes()
}

/// SHA-1 digest of the one accepted image.
pub open spec fn reference_digest() -> Seq<u8> {
    seq![
        0xf9u8, 0x77, 0xaf, 0xab, 0xf2, 0x4e, 0xd2, 0x69, 0xd8, 0x63,
        0x66, 0x20, 0x9a, 0x46, 0x04, 0x50, 0xbb, 0xc3, 0x7e, 0x76,
    ]
}

/// Why an image was refused.
#[derive(Clone, Copy, Debug, PartialEq, Eq)]
pub enum RomError {
    /// The image is not `ROM_LEN` bytes long.
    WrongLength { len: usize },
    /// The image has the right size but is not the known title.
    DigestMismatch,
}

/// The error for an image of `len` bytes whose digest is `digest`, if any.
pub open spec fn rom_check(len: nat, digest: Seq<u8>) -> Option<RomError> {
    if len != ROM_LEN {
        Some(RomError::WrongLength { len: len as usize })
    } else if digest != reference_digest() {
        Some(RomError::DigestMismatch)
    } else {
        None
    }
}

/// A validated cartridge image; it never changes once built.
pub struct Rom {
    data: Vec<u8>,
}

impl View for Rom {
    type V = Seq<u8>;

    closed spec fn view(&self) -> Seq<u8> {
        self.data@
    }
}

/// The reference digest, as bytes.
pub fn reference_digest_bytes() -> (r: [u8; 20])
    ensures
        r@ == reference_digest(),
{
    let r: [u8; 20] = [
        0xf9, 0x77, 0xaf, 0xab, 0xf2, 0x4e, 0xd2, 0x69, 0xd8, 0x63,
        0x66, 0x20, 0x9a, 0x46, 0x04, 0x50, 0xbb, 0xc3, 0x7e, 0x76,
    ];
    assert(r@ =~= reference_digest());
    r
}

impl Rom {
    #[verifier::type_invariant]
    spec fn inv(self) -> bool {
        self.data@.len() == ROM_LEN
    }

    /// Accepts `data` as the cartridge image iff it has `ROM_LEN` bytes and its
    /// SHA-1 digest is the reference digest.
    pub fn new(data: &[u8]) -> (r: Result<Rom, RomError>)
        ensures
            match r {
                Ok(rom) => rom_check(data@.len(), sha1_of(data@)) is None && rom@ == data@,
                Err(e) => rom_check(data@.len(), sha1_of(data@)) == Some(e),
            },
    {
        if data.len() != ROM_LEN {
            return Err(RomError::WrongLength { len: data.len() });
        }
        let digest = sha1(data);
        Rom::with_digest(data, &digest)
    }

    /// Accepts `data`, whose SHA-1 digest is `digest`, iff it has `ROM_LEN`
    /// bytes and `digest` is the reference digest.
    pub fn with_digest(data: &[u8], digest: &[u8; 20]) -> (r: Result<Rom, RomError>)
        ensures
            match r {
                Ok(rom) => rom_check(data@.len(), digest@) is None && rom@ == data@,
                Err(e) => rom_check(data@.len(), digest@) == Some(e),
            },
    {
        if data.len() != ROM_LEN {
            return Err(RomError::WrongLength { len: data.len() });
        }
        let expected = reference_digest_bytes();
        let mut i: usize = 0;
        while i < 20
            invariant
                0 <= i <= 20,
                data@.len() == ROM_LEN,
                expected@ == reference_digest(),
                forall|j: int| 0 <= j < i ==> digest@[j] == expected@[j],
            decreases 20 - i,
        {
            if digest[i] != expected[i] {
                assert(digest@[i as int] != reference_digest()[i as int]);
                return Err(RomError::DigestMismatch);
            }
            i += 1;
        }
        assert(digest@ =~= reference_digest());
        Ok(Rom { data: vstd::slice::slice_to_vec(data) })
    }

    /// The byte at `index`.
    pub fn byte(&self, index: usize) -> (b: u8)
        requires
            index < ROM_LEN,
        ensures
            b == self@[index as int],
    {
        proof {
            use_type_invariant(self);
        }
        self.data[index]
    }
}

} // verus!
