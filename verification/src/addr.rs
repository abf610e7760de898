//! The address codec: marshals a filesystem path into the fixed-size
//! native socket-address record and back.
//!
//! The native record is larger than the path it carries and is not
//! self-describing, so encoding also yields the explicit on-wire length
//! that the native calls require, and decoding stops at the first zero
//! byte of the path buffer.

use vstd::prelude::*;

use crate::common::{Error, ErrorKind};

verus! {

/// Capacity of the record's path buffer, in bytes.
pub const SUN_PATH_LEN: usize = 108;

/// The address-family discriminant of Unix-domain sockets.
pub const AF_UNIX: u16 = 1;

/// The declared on-wire length of a whole record: the two-byte family
/// field followed by the path buffer.
pub const SOCKADDR_UN_LEN: i32 = 110;

/// The native fixed-capacity socket-address record: an address-family
/// discriminant and a path buffer whose unused tail is zero-filled.
#[derive(Debug)]
pub struct SockaddrUn {
    pub sun_family: u16,
    pub sun_path: Vec<u8>,
}

/// A record paired with its declared on-wire length, as the native
/// binding and address queries exchange it.
#[derive(Debug)]
pub struct SocketAddr {
    pub addr: SockaddrUn,
    pub addrlen: i32,
}

/// Whether a path holds no interior zero byte.
pub open spec fn zero_free(p: Seq<u8>) -> bool {
    forall|i: int| 0 <= i < p.len() ==> p[i] != 0
}

/// Whether a path can be represented in the record at all: free of zero
/// bytes and strictly shorter than the buffer, so that a terminator
/// byte always remains.
pub open spec fn encodable(p: Seq<u8>) -> bool {
    zero_free(p) && p.len() < SUN_PATH_LEN
}

/// A run of zero bytes.
pub open spec fn zeros(n: nat) -> Seq<u8> {
    Seq::new(n, |i: int| 0u8)
}

/// The path buffer that encoding a path produces: the path's bytes with
/// the rest of the buffer zero-filled.
pub open spec fn encoded_path(p: Seq<u8>) -> Seq<u8>
    recommends
        p.len() <= SUN_PATH_LEN,
{
    p + zeros((SUN_PATH_LEN - p.len()) as nat)
}

/// The path that a record's buffer denotes: its bytes up to the first
/// zero byte, or the whole buffer when none occurs.
pub open spec fn decoded_path(buf: Seq<u8>) -> Seq<u8>
    decreases buf.len(),
{
    if buf.len() == 0 || buf[0] == 0 {
        Seq::empty()
    } else {
        seq![buf[0]] + decoded_path(buf.drop_first())
    }
}

impl SockaddrUn {
    /// A record is well formed when its path buffer has exactly the
    /// platform capacity.
    pub open spec fn wf(&self) -> bool {
        self.sun_path@.len() == SUN_PATH_LEN
    }

    /// An all-zero record, as the address queries hand to the native
    /// call to be filled in.
    pub fn zeroed() -> (r: SockaddrUn)
        ensures
            r.wf(),
            r.sun_family == 0,
            r.sun_path@ == zeros(SUN_PATH_LEN as nat),
    {
        let mut buf: Vec<u8> = Vec::new();
        let mut i: usize = 0;
        while i < SUN_PATH_LEN
            invariant
                i <= SUN_PATH_LEN,
                buf@.len() == i,
                forall|j: int| 0 <= j < i ==> buf@[j] == 0u8,
            decreases SUN_PATH_LEN - i,
        {
            buf.push(0u8);
            i = i + 1;
        }
        proof {
            assert(buf@ =~= zeros(SUN_PATH_LEN as nat));
        }
        SockaddrUn { sun_family: 0, sun_path: buf }
    }
}

impl SocketAddr {
    pub open spec fn wf(&self) -> bool {
        self.addr.wf()
    }

    /// An all-zero record with the full declared length, ready to be
    /// filled in by a native address query.
    pub fn zeroed() -> (r: SocketAddr)
        ensures
            r.wf(),
            r.addr.sun_path@ == zeros(SUN_PATH_LEN as nat),
            r.addrlen == SOCKADDR_UN_LEN,
    {
        SocketAddr { addr: SockaddrUn::zeroed(), addrlen: SOCKADDR_UN_LEN }
    }

    /// The path this address denotes: its bytes up to the first zero
    /// byte or the declared length, whichever comes first.  A native
    /// address query may declare a length shorter than the full record,
    /// and the bytes past it are garbage padding that must not leak
    /// into the path.
    pub fn path(&self) -> (r: Vec<u8>)
        requires
            self.wf(),
        ensures
            r@ == decoded_path(self.addr.sun_path@.take(declared_limit(self.addrlen as int))),
    {
        let limit: usize = if self.addrlen <= 2 {
            0
        } else if self.addrlen - 2 >= SUN_PATH_LEN as i32 {
            SUN_PATH_LEN
        } else {
            (self.addrlen - 2) as usize
        };
        let ghost declared = self.addr.sun_path@.take(declared_limit(self.addrlen as int));
        let mut end: usize = 0;
        while end < limit && self.addr.sun_path[end] != 0
            invariant
                end <= limit,
                limit <= self.addr.sun_path@.len(),
                limit == declared_limit(self.addrlen as int),
                forall|j: int| 0 <= j < end ==> self.addr.sun_path@[j] != 0,
            decreases limit - end,
        {
            end = end + 1;
        }
        let mut out: Vec<u8> = Vec::new();
        let mut i: usize = 0;
        while i < end
            invariant
                i <= end,
                end <= limit,
                limit <= self.addr.sun_path@.len(),
                out@ == self.addr.sun_path@.subrange(0, i as int),
            decreases end - i,
        {
            out.push(self.addr.sun_path[i]);
            proof {
                assert(out@ =~= self.addr.sun_path@.subrange(0, i + 1));
            }
            i = i + 1;
        }
        proof {
            lemma_decoded_prefix(declared, end as int);
            assert(out@ =~= declared.subrange(0, end as int));
        }
        out
    }
}

/// How many leading bytes of the path buffer a declared record length
/// covers: the length minus the family field, clamped to the buffer.
pub open spec fn declared_limit(addrlen: int) -> int {
    if addrlen - 2 < 0 {
        0
    } else if addrlen - 2 > SUN_PATH_LEN {
        SUN_PATH_LEN as int
    } else {
        addrlen - 2
    }
}

/// Encodes a filesystem path, given in the platform's byte encoding,
/// into a native address record plus the declared length to pass to the
/// native calls.  Rejects, with `InvalidInput`, a path that holds an
/// interior zero byte or that is not strictly shorter than the buffer.
pub fn socketaddr_un(path: &[u8]) -> (r: Result<(SockaddrUn, i32), Error>)
    ensures
        r is Ok <==> encodable(path@),
        r matches Ok((sa, len)) ==> sa.wf() && sa.sun_family == AF_UNIX
            && sa.sun_path@ == encoded_path(path@) && len == SOCKADDR_UN_LEN,
        r matches Err(e) ==> e.kind == ErrorKind::InvalidInput && e.code is None,
        !zero_free(path@) ==> (r matches Err(e)
            && e.description@ == "paths may not contain interior null bytes"@),
        zero_free(path@) && path@.len() >= SUN_PATH_LEN ==> (r matches Err(e)
            && e.description@ == "path must be shorter than SUN_LEN"@),
{
    let n = path.len();
    let mut i: usize = 0;
    while i < n
        invariant
            i <= n,
            n == path@.len(),
            forall|j: int| 0 <= j < i ==> path@[j] != 0,
        decreases n - i,
    {
        if path[i] == 0 {
            return Err(
                Error {
                    kind: ErrorKind::InvalidInput,
                    description: "paths may not contain interior null bytes",
                    code: None,
                },
            );
        }
        i = i + 1;
    }
    if n >= SUN_PATH_LEN {
        return Err(
            Error {
                kind: ErrorKind::InvalidInput,
                description: "path must be shorter than SUN_LEN",
                code: None,
            },
        );
    }
    let mut buf: Vec<u8> = Vec::new();
    let mut k: usize = 0;
    while k < n
        invariant
            k <= n,
            n == path@.len(),
            buf@ == path@.subrange(0, k as int),
        decreases n - k,
    {
        buf.push(path[k]);
        proof {
            assert(buf@ =~= path@.subrange(0, k + 1));
        }
        k = k + 1;
    }
    proof {
        assert(buf@ =~= path@);
    }
    while k < SUN_PATH_LEN
        invariant
            n <= k <= SUN_PATH_LEN,
            n == path@.len(),
            buf@.len() == k,
            buf@ == path@ + zeros((k - n) as nat),
        decreases SUN_PATH_LEN - k,
    {
        buf.push(0u8);
        proof {
            assert(buf@ =~= path@ + zeros((k + 1 - n) as nat));
        }
        k = k + 1;
    }
    Ok((SockaddrUn { sun_family: AF_UNIX, sun_path: buf }, SOCKADDR_UN_LEN))
}

/// Decodes a record's path buffer back into the path it denotes,
/// stopping at the first zero byte.  An all-zero record decodes to the
/// empty path.
pub fn decode(sa: &SockaddrUn) -> (r: Vec<u8>)
    ensures
        r@ == decoded_path(sa.sun_path@),
{
    let n = sa.sun_path.len();
    let mut end: usize = 0;
    while end < n && sa.sun_path[end] != 0
        invariant
            end <= n,
            n == sa.sun_path@.len(),
            forall|j: int| 0 <= j < end ==> sa.sun_path@[j] != 0,
        decreases n - end,
    {
        end = end + 1;
    }
    let mut out: Vec<u8> = Vec::new();
    let mut i: usize = 0;
    while i < end
        invariant
            i <= end,
            end <= n,
            n == sa.sun_path@.len(),
            out@ == sa.sun_path@.subrange(0, i as int),
        decreases end - i,
    {
        out.push(sa.sun_path[i]);
        proof {
            assert(out@ =~= sa.sun_path@.subrange(0, i + 1));
        }
        i = i + 1;
    }
    proof {
        lemma_decoded_prefix(sa.sun_path@, end as int);
    }
    out
}

/// A buffer whose first `end` bytes are nonzero, and which ends or
/// holds a zero right after them, decodes to exactly those bytes.
proof fn lemma_decoded_prefix(buf: Seq<u8>, end: int)
    requires
        0 <= end <= buf.len(),
        forall|j: int| 0 <= j < end ==> buf[j] != 0,
        end == buf.len() || buf[end] == 0,
    ensures
        decoded_path(buf) == buf.subrange(0, end),
    decreases buf.len(),
{
    if end == 0 {
        assert(decoded_path(buf) =~= buf.subrange(0, 0));
    } else {
        let tail = buf.drop_first();
        lemma_decoded_prefix(tail, end - 1);
        assert(seq![buf[0]] + tail.subrange(0, end - 1) =~= buf.subrange(0, end));
    }
}

/// Round-trip: every representable path — shorter than the capacity
/// limit and free of embedded zero bytes — decodes from its own
/// encoding unchanged.
pub proof fn lemma_round_trip(p: Seq<u8>)
    requires
        encodable(p),
    ensures
        decoded_path(encoded_path(p)) == p,
{
    let e = encoded_path(p);
    assert(forall|j: int| 0 <= j < p.len() ==> e[j] == p[j]);
    assert(e[p.len() as int] == 0);
    lemma_decoded_prefix(e, p.len() as int);
    assert(e.subrange(0, p.len() as int) =~= p);
}

/// Validates that a path, given in the platform's wide encoding, holds
/// no zero unit.
pub fn validate_path(units: &[u16]) -> (r: Result<(), Error>)
    ensures
        r is Ok <==> (forall|i: int| 0 <= i < units@.len() ==> units@[i] != 0),
        r matches Err(e) ==> e.kind == ErrorKind::InvalidInput && e.code is None
            && e.description@ == "paths must not contain null bytes"@,
{
    let n = units.len();
    let mut i: usize = 0;
    while i < n
        invariant
            i <= n,
            n == units@.len(),
            forall|j: int| 0 <= j < i ==> units@[j] != 0,
        decreases n - i,
    {
        if units[i] == 0 {
            return Err(
                Error {
                    kind: ErrorKind::InvalidInput,
                    description: "paths must not contain null bytes",
                    code: None,
                },
            );
        }
        i = i + 1;
    }
    Ok(())
}

} // verus!
