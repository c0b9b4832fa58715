//! SHA-256 digests: the content-identity and cache-validation token of the
//! archive, with a verified lowercase-hex codec for ETag handling.

use vstd::prelude::*;

verus! {

/// The SHA-256 digest of a byte sequence. sha2 computes it from the bytes
/// alone, so the result only gets a name here; nothing in this crate states
/// what the digest of a given input is.
pub uninterp spec fn sha256_of(data: Seq<u8>) -> Seq<u8>;

/// Relies on sha2::Sha256 (via the Digest trait): the digest is a function of
/// the input bytes alone and is always exactly 32 bytes long.
#[verifier::external_body]
fn sha2_digest(data: &[u8]) -> (r: Vec<u8>)
    ensures
        r@ == sha256_of(data@),
        r@.len() == 32,
{
    let out = <sha2::Sha256 as sha2::Digest>::digest(data);
    out.as_slice().to_vec()
}

/// The ASCII code of the lowercase hex digit for a value below 16.
pub open spec fn hex_digit(v: u8) -> u8
    recommends
        v < 16,
{
    if v < 10 {
        (48 + v) as u8
    } else {
        (87 + v) as u8
    }
}

/// Lowercase hex encoding of a byte sequence, as ASCII codes.
pub open spec fn hex_of(data: Seq<u8>) -> Seq<u8> {
    Seq::new(
        data.len() * 2,
        |i: int|
            if i % 2 == 0 {
                hex_digit((data[i / 2] / 16) as u8)
            } else {
                hex_digit((data[i / 2] % 16) as u8)
            },
    )
}

/// Whether an ASCII code is a lowercase hex digit.
pub open spec fn is_hex_lower(c: u8) -> bool {
    (48 <= c && c <= 57) || (97 <= c && c <= 102)
}

/// The value of a lowercase hex digit.
pub open spec fn hex_val(c: u8) -> u8
    recommends
        is_hex_lower(c),
{
    if c <= 57 {
        (c - 48) as u8
    } else {
        (c - 87) as u8
    }
}

fn hex_digit_exec(v: u8) -> (r: u8)
    requires
        v < 16,
    ensures
        r == hex_digit(v),
{
    if v < 10 {
        48 + v
    } else {
        87 + v
    }
}

/// Encode bytes as lowercase hex ASCII.
pub fn hex_encode(data: &[u8]) -> (r: Vec<u8>)
    ensures
        r@ == hex_of(data@),
{
    let mut out: Vec<u8> = Vec::new();
    let mut i: usize = 0;
    while i < data.len()
        invariant
            i <= data@.len(),
            out@.len() == 2 * i,
            forall|k: int| 0 <= k < out@.len() ==> out@[k] == hex_of(data@)[k],
        decreases data@.len() - i,
    {
        let b = data[i];
        out.push(hex_digit_exec(b / 16));
        out.push(hex_digit_exec(b % 16));
        proof {
            assert(out@.len() == 2 * i + 2);
            assert((2 * i) % 2 == 0 && (2 * i) / 2 == i as int);
            assert((2 * i + 1) % 2 == 1 && (2 * i + 1) / 2 == i as int);
        }
        i += 1;
    }
    proof {
        assert(out@ =~= hex_of(data@));
    }
    out
}

/// A SHA-256 hash of some data: the digest itself, always 32 bytes.
#[derive(Debug, Clone)]
pub struct Sha256Hash(Vec<u8>);

impl View for Sha256Hash {
    type V = Seq<u8>;

    closed spec fn view(&self) -> Seq<u8> {
        self.0@
    }
}

impl PartialEq for Sha256Hash {
    fn eq(&self, other: &Sha256Hash) -> (r: bool) {
        let r = self.0 == other.0;
        proof {
            if r {
                assert(self.0@ =~= other.0@);
            }
        }
        r
    }
}

impl vstd::std_specs::cmp::PartialEqSpecImpl for Sha256Hash {
    open spec fn obeys_eq_spec() -> bool {
        true
    }

    open spec fn eq_spec(&self, other: &Sha256Hash) -> bool {
        self@ == other@
    }
}

impl Sha256Hash {
    /// A digest is well formed when it holds exactly 32 bytes. Every
    /// constructor of this type establishes it.
    pub open spec fn wf(&self) -> bool {
        self@.len() == 32
    }

    /// Parse a byte slice as a SHA-256 digest; any length but 32 is rejected.
    pub fn from_bytes(hash: &[u8]) -> (r: Option<Sha256Hash>)
        ensures
            r is Some <==> hash@.len() == 32,
            r matches Some(h) ==> h@ == hash@ && h.wf(),
    {
        if hash.len() == 32 {
            Some(Sha256Hash(vstd::slice::slice_to_vec(hash)))
        } else {
            None
        }
    }

    /// A copy of the digest.
    pub fn duplicate(&self) -> (r: Sha256Hash)
        ensures
            r@ == self@,
    {
        Sha256Hash(self.0.clone())
    }

    /// The raw digest bytes.
    pub fn as_bytes(&self) -> (r: &[u8])
        ensures
            r@ == self@,
    {
        self.0.as_slice()
    }

    /// Compute the SHA-256 digest of the given bytes.
    pub fn hash_bytes(data: &[u8]) -> (r: Sha256Hash)
        ensures
            r@ == sha256_of(data@),
            r.wf(),
    {
        Sha256Hash(sha2_digest(data))
    }

    /// The digest as 64 lowercase hex ASCII codes.
    pub fn to_hex(&self) -> (r: Vec<u8>)
        ensures
            r@ == hex_of(self@),
    {
        hex_encode(self.0.as_slice())
    }

    /// Parse 64 lowercase hex digits back into a digest: the inverse of
    /// `to_hex`, rejecting everything else.
    pub fn from_hex(h: &[u8]) -> (r: Option<Sha256Hash>)
        ensures
            r is Some <==> (h@.len() == 64 && (forall|i: int|
                0 <= i < 64 ==> is_hex_lower(h@[i]))),
            r matches Some(s) ==> hex_of(s@) == h@ && s.wf(),
    {
        if h.len() != 64 {
            return None;
        }
        let mut out: Vec<u8> = Vec::new();
        let mut i: usize = 0;
        while i < 32
            invariant
                h@.len() == 64,
                i <= 32,
                out@.len() == i,
                forall|k: int| 0 <= k < 2 * i ==> is_hex_lower(h@[k]),
                forall|k: int| 0 <= k < i ==> {
                    &&& hex_digit(((out@[k] as u8) / 16) as u8) == h@[2 * k]
                    &&& hex_digit(((out@[k] as u8) % 16) as u8) == h@[2 * k + 1]
                },
            decreases 32 - i,
        {
            let c0 = h[2 * i];
            let c1 = h[2 * i + 1];
            let v0 = match hex_val_exec(c0) {
                Some(v) => v,
                None => {
                    return None;
                },
            };
            let v1 = match hex_val_exec(c1) {
                Some(v) => v,
                None => {
                    return None;
                },
            };
            let b: u8 = v0 * 16 + v1;
            proof {
                assert(b / 16 == v0 && b % 16 == v1) by (nonlinear_arith)
                    requires
                        v0 < 16,
                        v1 < 16,
                        b == v0 * 16 + v1,
                ;
            }
            out.push(b);
            i += 1;
        }
        proof {
            assert forall|j: int| 0 <= j < 64 implies hex_of(out@)[j] == h@[j] by {
                if j % 2 == 0 {
                    assert(2 * (j / 2) == j);
                } else {
                    assert(2 * (j / 2) + 1 == j);
                }
            }
            assert(hex_of(out@) =~= h@);
        }
        Some(Sha256Hash(out))
    }
}

fn hex_val_exec(c: u8) -> (r: Option<u8>)
    ensures
        r is Some <==> is_hex_lower(c),
        r matches Some(v) ==> v == hex_val(c) && v < 16 && hex_digit(v) == c,
{
    if 48 <= c && c <= 57 {
        Some(c - 48)
    } else if 97 <= c && c <= 102 {
        Some(c - 87)
    } else {
        None
    }
}

} // verus!
