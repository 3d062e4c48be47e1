//! The project id: the SHA-256 digest of a repository identity, in lower-case
//! hexadecimal.
use vstd::prelude::*;
use sha2::Digest;

verus! {

/// The SHA-256 digest of `data`.
pub uninterp spec fn sha256(data: Seq<u8>) -> Seq<u8>;

/// Calls `sha2::Sha256::digest`, whose result is the SHA-256 digest of
/// `data`, 32 bytes long (`Sha256` has the output size `U32`).
#[verifier::external_body]
fn sha256_digest(data: &[u8]) -> (r: Vec<u8>)
    ensures
        r@ == sha256(data@),
        r@.len() == 32,
{
    sha2::Sha256::digest(data).to_vec()
}

/// The lower-case hexadecimal digit of `n`, for `n` below 16.
pub open spec fn hex_digit(n: int) -> u8 {
    if n < 10 {
        (48 + n) as u8
    } else {
        (87 + n) as u8
    }
}

/// `data` in lower-case hexadecimal, two digits per byte, high half first.
pub open spec fn hex(data: Seq<u8>) -> Seq<u8> {
    Seq::new(
        2 * data.len(),
        |i: int|
            if i % 2 == 0 {
                hex_digit((data[i / 2] / 16) as int)
            } else {
                hex_digit((data[i / 2] % 16) as int)
            },
    )
}

/// A lower-case hexadecimal digit.
pub open spec fn hex_byte(b: u8) -> bool {
    (48 <= b <= 57) || (97 <= b <= 102)
}

/// A project id: 64 lower-case hexadecimal digits.
pub open spec fn is_project_id(id: Seq<u8>) -> bool {
    id.len() == 64 && forall|i: int| 0 <= i < id.len() ==> hex_byte(#[trigger] id[i])
}

/// The project id of a repository identity.
pub open spec fn project_id_of(identity: Seq<u8>) -> Seq<u8> {
    hex(sha256(identity))
}

fn hex_digit_exec(n: u8) -> (r: u8)
    requires
        n < 16,
    ensures
        r == hex_digit(n as int),
{
    if n < 10 {
        48 + n
    } else {
        87 + n
    }
}

/// The project id of `identity`: its SHA-256 digest in lower-case
/// hexadecimal, 64 characters.
pub fn project_id(identity: &[u8]) -> (r: Vec<u8>)
    ensures
        r@ == project_id_of(identity@),
        is_project_id(r@),
{
    let digest = sha256_digest(identity);
    let mut out: Vec<u8> = Vec::new();
    let mut i: usize = 0;
    while i < digest.len()
        invariant
            digest@.len() == 32,
            0 <= i <= 32,
            out@.len() == 2 * i,
            forall|j: int| 0 <= j < 2 * i ==> out@[j] == #[trigger] hex(digest@)[j],
        decreases 32 - i,
    {
        let byte = digest[i];
        out.push(hex_digit_exec(byte / 16));
        out.push(hex_digit_exec(byte % 16));
        proof {
            assert((2 * i as int) / 2 == i as int);
            assert((2 * i as int + 1) / 2 == i as int);
            assert((2 * i as int) % 2 == 0);
            assert((2 * i as int + 1) % 2 == 1);
        }
        i = i + 1;
    }
    assert(out@ =~= hex(digest@));
    proof {
        lemma_hex_digits(digest@);
    }
    out
}

proof fn lemma_hex_digit_injective(n: int, m: int)
    requires
        0 <= n < 16,
        0 <= m < 16,
        hex_digit(n) == hex_digit(m),
    ensures
        n == m,
{
}

proof fn lemma_byte_halves(x: u8, y: u8)
    requires
        x / 16 == y / 16,
        x % 16 == y % 16,
    ensures
        x == y,
{
    assert(x == y) by (bit_vector)
        requires
            x / 16 == y / 16,
            x % 16 == y % 16,
    ;
}

/// Two byte strings with one hexadecimal form are equal: a project id names
/// one digest.
pub proof fn lemma_hex_injective(a: Seq<u8>, b: Seq<u8>)
    requires
        hex(a) == hex(b),
    ensures
        a == b,
{
    assert(hex(a).len() == 2 * a.len());
    assert(hex(b).len() == 2 * b.len());
    assert forall|i: int| 0 <= i < a.len() implies a[i] == b[i] by {
        assert((2 * i) / 2 == i);
        assert((2 * i + 1) / 2 == i);
        assert((2 * i) % 2 == 0);
        assert((2 * i + 1) % 2 == 1);
        assert(hex(a)[2 * i] == hex(b)[2 * i]);
        assert(hex(a)[2 * i + 1] == hex(b)[2 * i + 1]);
        let (x, y) = (a[i], b[i]);
        assert(hex(a)[2 * i] == hex_digit((x / 16) as int));
        assert(hex(b)[2 * i] == hex_digit((y / 16) as int));
        assert(hex(a)[2 * i + 1] == hex_digit((x % 16) as int));
        assert(hex(b)[2 * i + 1] == hex_digit((y % 16) as int));
        assert(x / 16 < 16 && y / 16 < 16);
        lemma_hex_digit_injective((x / 16) as int, (y / 16) as int);
        lemma_hex_digit_injective((x % 16) as int, (y % 16) as int);
        lemma_byte_halves(x, y);
    }
    assert(a =~= b);
}

/// A project id is made of lower-case hexadecimal digits only, so it is one
/// path component.
pub proof fn lemma_hex_digits(data: Seq<u8>)
    ensures
        forall|i: int|
            0 <= i < hex(data).len() ==> {
                hex_byte(#[trigger] hex(data)[i])
            },
{
}


/// The project id spells out the SHA-256 digest of the whole identity: two
/// lower-case hexadecimal digits per digest byte, the high half first.
pub proof fn lemma_project_id_spells_digest(identity: Seq<u8>)
    ensures
        project_id_of(identity).len() == 2 * sha256(identity).len(),
        forall|i: int|
            0 <= i < sha256(identity).len() ==> {
                let d = #[trigger] sha256(identity)[i];
                let high = d / 16;
                let low = d % 16;
                &&& project_id_of(identity)[2 * i] == if high < 10 {
                    (48 + high) as u8
                } else {
                    (87 + high) as u8
                }
                &&& project_id_of(identity)[2 * i + 1] == if low < 10 {
                    (48 + low) as u8
                } else {
                    (87 + low) as u8
                }
            },
{
    assert forall|i: int| 0 <= i < sha256(identity).len() implies {
        let d = #[trigger] sha256(identity)[i];
        let high = d / 16;
        let low = d % 16;
        &&& project_id_of(identity)[2 * i] == if high < 10 {
            (48 + high) as u8
        } else {
            (87 + high) as u8
        }
        &&& project_id_of(identity)[2 * i + 1] == if low < 10 {
            (48 + low) as u8
        } else {
            (87 + low) as u8
        }
    } by {
        assert((2 * i) / 2 == i);
        assert((2 * i + 1) / 2 == i);
        assert((2 * i) % 2 == 0);
        assert((2 * i + 1) % 2 == 1);
    }
}

/// Two identities get one project id exactly when they have one SHA-256
/// digest: every byte of the identity counts.
pub proof fn lemma_project_ids_follow_digests(a: Seq<u8>, b: Seq<u8>)
    ensures
        (project_id_of(a) == project_id_of(b)) == (sha256(a) == sha256(b)),
{
    if project_id_of(a) == project_id_of(b) {
        lemma_hex_injective(sha256(a), sha256(b));
    }
}

} // verus!
