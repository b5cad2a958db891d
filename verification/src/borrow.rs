use vstd::prelude::*;
use vstd::slice::slice_subrange;
use vstd::utf8::decode_utf8;
use vstd::utf8::valid_utf8;

use crate::endian::Endian;
use crate::error::GuestError;
use crate::region::Region;
use crate::valid::AllBytesValid;

verus! {

/// The outcome of validating `r` against a buffer of `buf_len` bytes:
/// `PtrOverflow` when the region's end leaves the 32-bit address space,
/// `PtrOutOfBounds` when the end passes the buffer's length, and success
/// otherwise.
pub open spec fn validate_spec(buf_len: nat, r: Region) -> Result<(), GuestError> {
    if r.end() > u32::MAX {
        Err(GuestError::PtrOverflow)
    } else if r.end() <= buf_len {
        Ok(())
    } else {
        Err(GuestError::PtrOutOfBounds(r))
    }
}

/// The region that a request for `len` elements of `size` bytes each, at
/// offset `ptr`, denotes in a buffer of `buf_len` bytes. The byte length is
/// computed with checked multiplication — overflow of the 32-bit address
/// space is `PtrOverflow`, before any bounds check — and the resulting region
/// is then validated by `validate_spec`. The offset and count are reduced to
/// 32-bit words exactly as the implementation reduces them.
pub open spec fn region_spec(buf_len: nat, ptr: i32, len: i32, size: nat) -> Result<
    Region,
    GuestError,
> {
    let byte_len = (len as u32) * size;
    if byte_len > u32::MAX {
        Err(GuestError::PtrOverflow)
    } else {
        let r = Region { start: ptr as u32, len: byte_len as u32 };
        match validate_spec(buf_len, r) {
            Ok(()) => Ok(r),
            Err(e) => Err(e),
        }
    }
}

/// The bytes that a validated request selects from the buffer, or the error
/// its validation yields.
pub open spec fn slice_spec(buf: Seq<u8>, ptr: i32, len: i32, size: nat) -> Result<
    Seq<u8>,
    GuestError,
> {
    match region_spec(buf.len(), ptr, len, size) {
        Ok(r) => Ok(buf.subrange(r.start as int, r.end())),
        Err(e) => Err(e),
    }
}

/// The text that a string request decodes: the selected bytes when they are
/// well-formed UTF-8, `InvalidUtf8` when they are in bounds but are not, and
/// the bounds error otherwise. Bounds are checked first, the encoding second.
pub open spec fn slice_str_spec(buf: Seq<u8>, ptr: i32, len: i32) -> Result<
    Seq<char>,
    GuestError,
> {
    match slice_spec(buf, ptr, len, 1) {
        Ok(bytes) => if valid_utf8(bytes) {
            Ok(decode_utf8(bytes))
        } else {
            Err(GuestError::InvalidUtf8)
        },
        Err(e) => Err(e),
    }
}

/// The scalar that a load of one `T` at offset `ptr` decodes from the
/// buffer's little-endian bytes, or the validation error.
pub open spec fn load_spec<T: Endian>(buf: Seq<u8>, ptr: i32) -> Result<T, GuestError> {
    match slice_spec(buf, ptr, 1, T::size_spec()) {
        Ok(bytes) => Ok(T::from_le_spec(bytes)),
        Err(e) => Err(e),
    }
}

/// Relies on `core::str::from_utf8`: it succeeds exactly on well-formed
/// UTF-8 input, and the returned string is a view of those same bytes.
/// Stated over vstd's model of UTF-8.
#[verifier::external_body]
fn bytes_as_utf8(b: &[u8]) -> (r: Option<&str>)
    ensures
        r is Some <==> valid_utf8(b@),
        r matches Some(s) ==> s@ == decode_utf8(b@),
{
    core::str::from_utf8(b).ok()
}

/// The gateway that turns untrusted guest offsets and lengths into validated
/// views of one linear-memory buffer.
///
/// A checker borrows the buffer for a scope `'a`, and every view it issues is
/// valid for that whole scope, not merely for the call that produced it. It
/// holds no mutable state of its own, so it is safe to share or send across
/// threads; the shared borrow it holds keeps the buffer from being written
/// through any checked path while the checker and its views are alive.
pub struct BorrowChecker<'a> {
    bytes: &'a [u8],
}

impl<'a> View for BorrowChecker<'a> {
    type V = Seq<u8>;

    closed spec fn view(&self) -> Seq<u8> {
        self.bytes@
    }
}

impl<'a> BorrowChecker<'a> {
    /// Takes the sanctioned access path to `data` for the scope `'a`. No
    /// validation happens here; every request is checked against the live
    /// buffer length when it is made.
    pub fn new(data: &'a [u8]) -> (r: BorrowChecker<'a>)
        ensures
            r@ == data@,
    {
        BorrowChecker { bytes: data }
    }

    /// Checks that `region` lies inside the buffer, with checked addition:
    /// an end address past the 32-bit address space is `PtrOverflow`, one
    /// past the buffer's length is `PtrOutOfBounds`.
    pub fn validate_contains(&self, region: &Region) -> (r: Result<(), GuestError>)
        ensures
            r == validate_spec(self@.len(), *region),
    {
        match region.start.checked_add(region.len) {
            Some(end) => {
                if end as usize <= self.bytes.len() {
                    Ok(())
                } else {
                    Err(GuestError::PtrOutOfBounds(*region))
                }
            },
            None => Err(GuestError::PtrOverflow),
        }
    }

    /// Computes the byte region that `len` elements of `T` at offset `ptr`
    /// occupy, multiplying with overflow checked, and validates it against
    /// the buffer. `T` must have trivial alignment: a guest offset is a
    /// plain byte address with no alignment relation to the host.
    pub fn region<T: AllBytesValid>(&self, ptr: i32, len: i32) -> (r: Result<Region, GuestError>)
        requires
            T::align_spec() == 1,
        ensures
            r == region_spec(self@.len(), ptr, len, T::size_spec()),
    {
        proof {
            T::size_fits();
        }
        self.region_sized(ptr, len, T::size() as u32)
    }

    /// `region` for an element size given at run time.
    fn region_sized(&self, ptr: i32, len: i32, size: u32) -> (r: Result<Region, GuestError>)
        ensures
            r == region_spec(self@.len(), ptr, len, size as nat),
    {
        let start = #[verifier::truncate] (ptr as u32);
        let count = #[verifier::truncate] (len as u32);
        match count.checked_mul(size) {
            Some(byte_len) => {
                let reg = Region { start, len: byte_len };
                match self.validate_contains(&reg) {
                    Ok(()) => Ok(reg),
                    Err(e) => Err(e),
                }
            },
            None => Err(GuestError::PtrOverflow),
        }
    }

    /// A view of `len` elements of `T` at offset `ptr`: the raw bytes of the
    /// validated range, exactly `len * size` of them, byte-identical to the
    /// buffer's contents there. The view is issued for the checker's whole
    /// scope `'a`: it stays valid as long as the checker does, because the
    /// checker's borrow of the buffer lasts just as long.
    pub fn slice<T: AllBytesValid>(&mut self, ptr: i32, len: i32) -> (r: Result<
        &'a [u8],
        GuestError,
    >)
        requires
            T::align_spec() == 1,
        ensures
            final(self)@ == old(self)@,
            match (r, slice_spec(old(self)@, ptr, len, T::size_spec())) {
                (Ok(b), Ok(s)) => b@ == s,
                (Err(e), Err(f)) => e == f,
                _ => false,
            },
    {
        let reg = match self.region::<T>(ptr, len) {
            Ok(reg) => reg,
            Err(e) => {
                return Err(e);
            },
        };
        let whole: &'a [u8] = self.bytes;
        Ok(slice_subrange(whole, reg.start as usize, reg.start as usize + reg.len as usize))
    }

    /// A view of `len` bytes at offset `ptr`, decoded as UTF-8 text. Bounds
    /// are validated first; bytes that are in bounds but not well-formed
    /// UTF-8 yield `InvalidUtf8`. The text lives for the checker's scope.
    pub fn slice_str(&mut self, ptr: i32, len: i32) -> (r: Result<&'a str, GuestError>)
        ensures
            final(self)@ == old(self)@,
            match (r, slice_str_spec(old(self)@, ptr, len)) {
                (Ok(s), Ok(t)) => s@ == t,
                (Err(e), Err(f)) => e == f,
                _ => false,
            },
    {
        let bytes = match self.slice::<u8>(ptr, len) {
            Ok(b) => b,
            Err(e) => {
                return Err(e);
            },
        };
        match bytes_as_utf8(bytes) {
            Some(s) => Ok(s),
            None => Err(GuestError::InvalidUtf8),
        }
    }

    /// The whole buffer as one view for the checker's scope: the escape
    /// hatch past the typed, validated path, for privileged callers. How
    /// this view is used alongside the views the checked path has issued is
    /// the caller's responsibility; nothing here enforces it.
    pub fn raw(&self) -> (r: &'a [u8])
        ensures
            r@ == self@,
    {
        self.bytes
    }

    /// Loads one scalar of type `T` at offset `ptr`, decoding the guest's
    /// little-endian bytes into the host's native value, so the result does
    /// not depend on the host's byte order. The read goes through a
    /// byte-aligned little-endian view of `T`, so no alignment is demanded
    /// of `T` itself.
    pub fn load<T: Endian>(&self, ptr: i32) -> (r: Result<T, GuestError>)
        ensures
            match (r, load_spec::<T>(self@, ptr)) {
                (Ok(v), Ok(w)) => v == w,
                (Err(e), Err(f)) => e == f,
                _ => false,
            },
    {
        proof {
            T::size_fits();
        }
        let size = T::size();
        let reg = match self.region_sized(ptr, 1, size as u32) {
            Ok(reg) => reg,
            Err(e) => {
                return Err(e);
            },
        };
        let bytes = slice_subrange(
            self.bytes,
            reg.start as usize,
            reg.start as usize + reg.len as usize,
        );
        proof {
            // one element of size `size_spec` was validated, so exactly that
            // many bytes came back
            assert((1i32 as u32) * (size as nat) == T::size_spec());
            assert(reg.len == T::size_spec());
        }
        Ok(T::from_le(bytes))
    }
}

/// Law: when the requested byte length `len * size` cannot be represented in
/// the 32-bit address space, the request fails with `PtrOverflow` whatever
/// the buffer's length is — the bounds check is never reached.
pub proof fn lemma_region_overflow_before_bounds(buf_len: nat, ptr: i32, len: i32, size: nat)
    requires
        (len as u32) * size > u32::MAX,
    ensures
        region_spec(buf_len, ptr, len, size) == Err::<Region, GuestError>(GuestError::PtrOverflow),
{
}

/// Law: a request whose range fits the buffer succeeds and selects exactly
/// the requested bytes — `len * size` of them, beginning at byte `ptr`,
/// byte-identical to the buffer's contents there.
pub proof fn lemma_slice_in_bounds(buf: Seq<u8>, ptr: i32, len: i32, size: nat)
    requires
        (len as u32) * size <= u32::MAX,
        (ptr as u32) + (len as u32) * size <= u32::MAX,
        (ptr as u32) + (len as u32) * size <= buf.len(),
    ensures
        slice_spec(buf, ptr, len, size) == Ok::<Seq<u8>, GuestError>(
            buf.subrange(ptr as u32 as int, (ptr as u32) + (len as u32) * size),
        ),
        buf.subrange(ptr as u32 as int, (ptr as u32) + (len as u32) * size).len() == (len as u32)
            * size,
{
}

/// Law: a request whose arithmetic stays inside the address space but whose
/// range passes the buffer's end fails with `PtrOutOfBounds`, carrying
/// exactly the computed region.
pub proof fn lemma_slice_out_of_bounds(buf: Seq<u8>, ptr: i32, len: i32, size: nat)
    requires
        (len as u32) * size <= u32::MAX,
        (ptr as u32) + (len as u32) * size <= u32::MAX,
        (ptr as u32) + (len as u32) * size > buf.len(),
    ensures
        slice_spec(buf, ptr, len, size) == Err::<Seq<u8>, GuestError>(
            GuestError::PtrOutOfBounds(
                (Region { start: ptr as u32, len: ((len as u32) * size) as u32 }),
            ),
        ),
{
}

/// Law: bounds are checked first and the encoding second. A string request
/// fails with `InvalidUtf8` exactly when the selected bytes are in bounds
/// but are not well-formed UTF-8; a request that fails its bounds check
/// reports that failure and never reaches the encoding check.
pub proof fn lemma_str_bounds_then_encoding(buf: Seq<u8>, ptr: i32, len: i32)
    ensures
        (slice_str_spec(buf, ptr, len) == Err::<Seq<char>, GuestError>(GuestError::InvalidUtf8))
            <==> (slice_spec(buf, ptr, len, 1) matches Ok(bytes) && !valid_utf8(bytes)),
        slice_spec(buf, ptr, len, 1) matches Err(e) ==> slice_str_spec(buf, ptr, len) == Err::<
            Seq<char>,
            GuestError,
        >(e) && e != GuestError::InvalidUtf8,
{
}

/// Law: the boundary of an exact fit. In a buffer of length `l`, a request
/// at offset 0 for `l` elements of one byte succeeds, and its region ends
/// exactly at `l`; a request for one element more fails with
/// `PtrOutOfBounds`. The counts are i32 values whose 32-bit words are `l`
/// and `l + 1`.
pub proof fn lemma_exact_fit_boundary(l: u32, count: i32, count_plus: i32)
    requires
        count as u32 == l,
        l < u32::MAX,
        count_plus as u32 == l + 1,
    ensures
        region_spec(l as nat, 0, count, 1) == Ok::<Region, GuestError>((Region { start: 0, len: l })),
        (Region { start: 0, len: l }).end() == l,
        region_spec(l as nat, 0, count_plus, 1) == Err::<Region, GuestError>(
            GuestError::PtrOutOfBounds((Region { start: 0, len: (l + 1) as u32 })),
        ),
{
}

/// Law: a load reads back exactly the value whose little-endian encoding the
/// buffer holds, whatever the host byte order: when the bytes the request
/// selects are `v`'s little-endian encoding, the load returns `v`.
pub proof fn lemma_load_round_trip<T: Endian>(buf: Seq<u8>, ptr: i32, v: T)
    requires
        region_spec(buf.len(), ptr, 1, T::size_spec()) is Ok,
        ({
            let r = region_spec(buf.len(), ptr, 1, T::size_spec())->Ok_0;
            buf.subrange(r.start as int, r.end()) == v.to_le_spec()
        }),
    ensures
        load_spec::<T>(buf, ptr) == Ok::<T, GuestError>(v),
{
    v.le_round_trip();
}

} // verus!

