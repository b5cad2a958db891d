use vstd::prelude::*;

verus! {

/// Capability marker for the types that may be materialized directly from
/// arbitrary guest bytes: every bit pattern of such a type is a legal value.
///
/// The registry is closed: exactly the fixed-width integers and tuples of
/// scalars (up to ten elements) carry it. This keeps the capability away from
/// types with padding or invalid bit patterns.
///
/// `size_spec` is the byte width one value occupies in guest memory, and
/// `align_spec` the type's alignment. Guest offsets carry no alignment
/// guarantee relative to the host, so the byte-view operations demand
/// `align_spec() == 1`.
pub trait AllBytesValid: Sized {
    /// Byte width of one value in guest memory.
    spec fn size_spec() -> nat;

    /// Alignment of the type.
    spec fn align_spec() -> nat;

    /// The byte width fits the 32-bit guest address space.
    proof fn size_fits()
        ensures
            Self::size_spec() <= u32::MAX,
    ;

    /// Byte width of one value, as a run-time quantity.
    fn size() -> (r: usize)
        ensures
            r == Self::size_spec(),
    ;

    /// Alignment of the type, as a run-time quantity.
    fn align() -> (r: usize)
        ensures
            r == Self::align_spec(),
    ;
}

/// The closed registry of fixed-width scalars that may stand as tuple
/// elements. A scalar occupies at most eight bytes, which bounds the size of
/// every tuple built from them.
pub trait Scalar: AllBytesValid {
    /// A scalar occupies at most eight bytes, and is at most eight-aligned.
    proof fn scalar_bounds()
        ensures
            Self::size_spec() <= 8,
            Self::align_spec() <= 8,
    ;
}

/// The larger of two alignments.
pub open spec fn align_max(a: nat, b: nat) -> nat {
    if a >= b {
        a
    } else {
        b
    }
}

impl AllBytesValid for u8 {
    open spec fn size_spec() -> nat {
        1
    }

    open spec fn align_spec() -> nat {
        1
    }

    proof fn size_fits() {
    }

    fn size() -> usize {
        1
    }

    fn align() -> usize {
        1
    }
}

impl Scalar for u8 {
    proof fn scalar_bounds() {
    }
}

impl AllBytesValid for u16 {
    open spec fn size_spec() -> nat {
        2
    }

    open spec fn align_spec() -> nat {
        2
    }

    proof fn size_fits() {
    }

    fn size() -> usize {
        2
    }

    fn align() -> usize {
        2
    }
}

impl Scalar for u16 {
    proof fn scalar_bounds() {
    }
}

impl AllBytesValid for u32 {
    open spec fn size_spec() -> nat {
        4
    }

    open spec fn align_spec() -> nat {
        4
    }

    proof fn size_fits() {
    }

    fn size() -> usize {
        4
    }

    fn align() -> usize {
        4
    }
}

impl Scalar for u32 {
    proof fn scalar_bounds() {
    }
}

impl AllBytesValid for u64 {
    open spec fn size_spec() -> nat {
        8
    }

    open spec fn align_spec() -> nat {
        8
    }

    proof fn size_fits() {
    }

    fn size() -> usize {
        8
    }

    fn align() -> usize {
        8
    }
}

impl Scalar for u64 {
    proof fn scalar_bounds() {
    }
}

impl AllBytesValid for i8 {
    open spec fn size_spec() -> nat {
        1
    }

    open spec fn align_spec() -> nat {
        1
    }

    proof fn size_fits() {
    }

    fn size() -> usize {
        1
    }

    fn align() -> usize {
        1
    }
}

impl Scalar for i8 {
    proof fn scalar_bounds() {
    }
}

impl AllBytesValid for i16 {
    open spec fn size_spec() -> nat {
        2
    }

    open spec fn align_spec() -> nat {
        2
    }

    proof fn size_fits() {
    }

    fn size() -> usize {
        2
    }

    fn align() -> usize {
        2
    }
}

impl Scalar for i16 {
    proof fn scalar_bounds() {
    }
}

impl AllBytesValid for i32 {
    open spec fn size_spec() -> nat {
        4
    }

    open spec fn align_spec() -> nat {
        4
    }

    proof fn size_fits() {
    }

    fn size() -> usize {
        4
    }

    fn align() -> usize {
        4
    }
}

impl Scalar for i32 {
    proof fn scalar_bounds() {
    }
}

impl AllBytesValid for i64 {
    open spec fn size_spec() -> nat {
        8
    }

    open spec fn align_spec() -> nat {
        8
    }

    proof fn size_fits() {
    }

    fn size() -> usize {
        8
    }

    fn align() -> usize {
        8
    }
}

impl Scalar for i64 {
    proof fn scalar_bounds() {
    }
}

impl AllBytesValid for () {
    open spec fn size_spec() -> nat {
        0
    }

    open spec fn align_spec() -> nat {
        1
    }

    proof fn size_fits() {
    }

    fn size() -> usize {
        0
    }

    fn align() -> usize {
        1
    }
}

impl<T1: Scalar> AllBytesValid for (T1,) {
    open spec fn size_spec() -> nat {
        T1::size_spec()
    }

    open spec fn align_spec() -> nat {
        T1::align_spec()
    }

    proof fn size_fits() {
        T1::scalar_bounds();
    }

    fn size() -> usize {
        T1::size()
    }

    fn align() -> usize {
        T1::align()
    }
}

impl<T1: Scalar, T2: Scalar> AllBytesValid for (T1, T2) {
    open spec fn size_spec() -> nat {
        T1::size_spec() + T2::size_spec()
    }

    open spec fn align_spec() -> nat {
        align_max(T1::align_spec(), T2::align_spec())
    }

    proof fn size_fits() {
        T1::scalar_bounds();
        T2::scalar_bounds();
    }

    fn size() -> usize {
        proof {
            T1::scalar_bounds();
            T2::scalar_bounds();
        }
        T1::size() + T2::size()
    }

    fn align() -> usize {
        proof {
            T1::scalar_bounds();
            T2::scalar_bounds();
        }
        let a1 = T1::align();
        let a2 = T2::align();
        if a1 >= a2 {
            a1
        } else {
            a2
        }
    }
}

impl<T1: Scalar, T2: Scalar, T3: Scalar> AllBytesValid for (T1, T2, T3) {
    open spec fn size_spec() -> nat {
        T1::size_spec() + T2::size_spec() + T3::size_spec()
    }

    open spec fn align_spec() -> nat {
        align_max(T1::align_spec(), align_max(T2::align_spec(), T3::align_spec()))
    }

    proof fn size_fits() {
        T1::scalar_bounds();
        T2::scalar_bounds();
        T3::scalar_bounds();
    }

    fn size() -> usize {
        proof {
            T1::scalar_bounds();
            T2::scalar_bounds();
            T3::scalar_bounds();
        }
        T1::size() + T2::size() + T3::size()
    }

    fn align() -> usize {
        let mut a = T3::align();
        let b = T2::align();
        a = if b >= a {
            b
        } else {
            a
        };
        let b = T1::align();
        a = if b >= a {
            b
        } else {
            a
        };
        a
    }
}

impl<T1: Scalar, T2: Scalar, T3: Scalar, T4: Scalar> AllBytesValid for (T1, T2, T3, T4) {
    open spec fn size_spec() -> nat {
        T1::size_spec() + T2::size_spec() + T3::size_spec() + T4::size_spec()
    }

    open spec fn align_spec() -> nat {
        align_max(T1::align_spec(), align_max(T2::align_spec(), align_max(T3::align_spec(), T4::align_spec())))
    }

    proof fn size_fits() {
        T1::scalar_bounds();
        T2::scalar_bounds();
        T3::scalar_bounds();
        T4::scalar_bounds();
    }

    fn size() -> usize {
        proof {
            T1::scalar_bounds();
            T2::scalar_bounds();
            T3::scalar_bounds();
            T4::scalar_bounds();
        }
        T1::size() + T2::size() + T3::size() + T4::size()
    }

    fn align() -> usize {
        let mut a = T4::align();
        let b = T3::align();
        a = if b >= a {
            b
        } else {
            a
        };
        let b = T2::align();
        a = if b >= a {
            b
        } else {
            a
        };
        let b = T1::align();
        a = if b >= a {
            b
        } else {
            a
        };
        a
    }
}

impl<T1: Scalar, T2: Scalar, T3: Scalar, T4: Scalar, T5: Scalar> AllBytesValid for (T1, T2, T3, T4, T5) {
    open spec fn size_spec() -> nat {
        T1::size_spec() + T2::size_spec() + T3::size_spec() + T4::size_spec() + T5::size_spec()
    }

    open spec fn align_spec() -> nat {
        align_max(T1::align_spec(), align_max(T2::align_spec(), align_max(T3::align_spec(), align_max(T4::align_spec(), T5::align_spec()))))
    }

    proof fn size_fits() {
        T1::scalar_bounds();
        T2::scalar_bounds();
        T3::scalar_bounds();
        T4::scalar_bounds();
        T5::scalar_bounds();
    }

    fn size() -> usize {
        proof {
            T1::scalar_bounds();
            T2::scalar_bounds();
            T3::scalar_bounds();
            T4::scalar_bounds();
            T5::scalar_bounds();
        }
        T1::size() + T2::size() + T3::size() + T4::size() + T5::size()
    }

    fn align() -> usize {
        let mut a = T5::align();
        let b = T4::align();
        a = if b >= a {
            b
        } else {
            a
        };
        let b = T3::align();
        a = if b >= a {
            b
        } else {
            a
        };
        let b = T2::align();
        a = if b >= a {
            b
        } else {
            a
        };
        let b = T1::align();
        a = if b >= a {
            b
        } else {
            a
        };
        a
    }
}

impl<T1: Scalar, T2: Scalar, T3: Scalar, T4: Scalar, T5: Scalar, T6: Scalar> AllBytesValid for (T1, T2, T3, T4, T5, T6) {
    open spec fn size_spec() -> nat {
        T1::size_spec() + T2::size_spec() + T3::size_spec() + T4::size_spec() + T5::size_spec() + T6::size_spec()
    }

    open spec fn align_spec() -> nat {
        align_max(T1::align_spec(), align_max(T2::align_spec(), align_max(T3::align_spec(), align_max(T4::align_spec(), align_max(T5::align_spec(), T6::align_spec())))))
    }

    proof fn size_fits() {
        T1::scalar_bounds();
        T2::scalar_bounds();
        T3::scalar_bounds();
        T4::scalar_bounds();
        T5::scalar_bounds();
        T6::scalar_bounds();
    }

    fn size() -> usize {
        proof {
            T1::scalar_bounds();
            T2::scalar_bounds();
            T3::scalar_bounds();
            T4::scalar_bounds();
            T5::scalar_bounds();
            T6::scalar_bounds();
        }
        T1::size() + T2::size() + T3::size() + T4::size() + T5::size() + T6::size()
    }

    fn align() -> usize {
        let mut a = T6::align();
        let b = T5::align();
        a = if b >= a {
            b
        } else {
            a
        };
        let b = T4::align();
        a = if b >= a {
            b
        } else {
            a
        };
        let b = T3::align();
        a = if b >= a {
            b
        } else {
            a
        };
        let b = T2::align();
        a = if b >= a {
            b
        } else {
            a
        };
        let b = T1::align();
        a = if b >= a {
            b
        } else {
            a
        };
        a
    }
}

impl<T1: Scalar, T2: Scalar, T3: Scalar, T4: Scalar, T5: Scalar, T6: Scalar, T7: Scalar> AllBytesValid for (T1, T2, T3, T4, T5, T6, T7) {
    open spec fn size_spec() -> nat {
        T1::size_spec() + T2::size_spec() + T3::size_spec() + T4::size_spec() + T5::size_spec() + T6::size_spec() + T7::size_spec()
    }

    open spec fn align_spec() -> nat {
        align_max(T1::align_spec(), align_max(T2::align_spec(), align_max(T3::align_spec(), align_max(T4::align_spec(), align_max(T5::align_spec(), align_max(T6::align_spec(), T7::align_spec()))))))
    }

    proof fn size_fits() {
        T1::scalar_bounds();
        T2::scalar_bounds();
        T3::scalar_bounds();
        T4::scalar_bounds();
        T5::scalar_bounds();
        T6::scalar_bounds();
        T7::scalar_bounds();
    }

    fn size() -> usize {
        proof {
            T1::scalar_bounds();
            T2::scalar_bounds();
            T3::scalar_bounds();
            T4::scalar_bounds();
            T5::scalar_bounds();
            T6::scalar_bounds();
            T7::scalar_bounds();
        }
        T1::size() + T2::size() + T3::size() + T4::size() + T5::size() + T6::size() + T7::size()
    }

    fn align() -> usize {
        let mut a = T7::align();
        let b = T6::align();
        a = if b >= a {
            b
        } else {
            a
        };
        let b = T5::align();
        a = if b >= a {
            b
        } else {
            a
        };
        let b = T4::align();
        a = if b >= a {
            b
        } else {
            a
        };
        let b = T3::align();
        a = if b >= a {
            b
        } else {
            a
        };
        let b = T2::align();
        a = if b >= a {
            b
        } else {
            a
        };
        let b = T1::align();
        a = if b >= a {
            b
        } else {
            a
        };
        a
    }
}

impl<T1: Scalar, T2: Scalar, T3: Scalar, T4: Scalar, T5: Scalar, T6: Scalar, T7: Scalar, T8: Scalar> AllBytesValid for (T1, T2, T3, T4, T5, T6, T7, T8) {
    open spec fn size_spec() -> nat {
        T1::size_spec() + T2::size_spec() + T3::size_spec() + T4::size_spec() + T5::size_spec() + T6::size_spec() + T7::size_spec() + T8::size_spec()
    }

    open spec fn align_spec() -> nat {
        align_max(T1::align_spec(), align_max(T2::align_spec(), align_max(T3::align_spec(), align_max(T4::align_spec(), align_max(T5::align_spec(), align_max(T6::align_spec(), align_max(T7::align_spec(), T8::align_spec())))))))
    }

    proof fn size_fits() {
        T1::scalar_bounds();
        T2::scalar_bounds();
        T3::scalar_bounds();
        T4::scalar_bounds();
        T5::scalar_bounds();
        T6::scalar_bounds();
        T7::scalar_bounds();
        T8::scalar_bounds();
    }

    fn size() -> usize {
        proof {
            T1::scalar_bounds();
            T2::scalar_bounds();
            T3::scalar_bounds();
            T4::scalar_bounds();
            T5::scalar_bounds();
            T6::scalar_bounds();
            T7::scalar_bounds();
            T8::scalar_bounds();
        }
        T1::size() + T2::size() + T3::size() + T4::size() + T5::size() + T6::size() + T7::size() + T8::size()
    }

    fn align() -> usize {
        let mut a = T8::align();
        let b = T7::align();
        a = if b >= a {
            b
        } else {
            a
        };
        let b = T6::align();
        a = if b >= a {
            b
        } else {
            a
        };
        let b = T5::align();
        a = if b >= a {
            b
        } else {
            a
        };
        let b = T4::align();
        a = if b >= a {
            b
        } else {
            a
        };
        let b = T3::align();
        a = if b >= a {
            b
        } else {
            a
        };
        let b = T2::align();
        a = if b >= a {
            b
        } else {
            a
        };
        let b = T1::align();
        a = if b >= a {
            b
        } else {
            a
        };
        a
    }
}

impl<T1: Scalar, T2: Scalar, T3: Scalar, T4: Scalar, T5: Scalar, T6: Scalar, T7: Scalar, T8: Scalar, T9: Scalar> AllBytesValid for (T1, T2, T3, T4, T5, T6, T7, T8, T9) {
    open spec fn size_spec() -> nat {
        T1::size_spec() + T2::size_spec() + T3::size_spec() + T4::size_spec() + T5::size_spec() + T6::size_spec() + T7::size_spec() + T8::size_spec() + T9::size_spec()
    }

    open spec fn align_spec() -> nat {
        align_max(T1::align_spec(), align_max(T2::align_spec(), align_max(T3::align_spec(), align_max(T4::align_spec(), align_max(T5::align_spec(), align_max(T6::align_spec(), align_max(T7::align_spec(), align_max(T8::align_spec(), T9::align_spec()))))))))
    }

    proof fn size_fits() {
        T1::scalar_bounds();
        T2::scalar_bounds();
        T3::scalar_bounds();
        T4::scalar_bounds();
        T5::scalar_bounds();
        T6::scalar_bounds();
        T7::scalar_bounds();
        T8::scalar_bounds();
        T9::scalar_bounds();
    }

    fn size() -> usize {
        proof {
            T1::scalar_bounds();
            T2::scalar_bounds();
            T3::scalar_bounds();
            T4::scalar_bounds();
            T5::scalar_bounds();
            T6::scalar_bounds();
            T7::scalar_bounds();
            T8::scalar_bounds();
            T9::scalar_bounds();
        }
        T1::size() + T2::size() + T3::size() + T4::size() + T5::size() + T6::size() + T7::size() + T8::size() + T9::size()
    }

    fn align() -> usize {
        let mut a = T9::align();
        let b = T8::align();
        a = if b >= a {
            b
        } else {
            a
        };
        let b = T7::align();
        a = if b >= a {
            b
        } else {
            a
        };
        let b = T6::align();
        a = if b >= a {
            b
        } else {
            a
        };
        let b = T5::align();
        a = if b >= a {
            b
        } else {
            a
        };
        let b = T4::align();
        a = if b >= a {
            b
        } else {
            a
        };
        let b = T3::align();
        a = if b >= a {
            b
        } else {
            a
        };
        let b = T2::align();
        a = if b >= a {
            b
        } else {
            a
        };
        let b = T1::align();
        a = if b >= a {
            b
        } else {
            a
        };
        a
    }
}

impl<T1: Scalar, T2: Scalar, T3: Scalar, T4: Scalar, T5: Scalar, T6: Scalar, T7: Scalar, T8: Scalar, T9: Scalar, T10: Scalar> AllBytesValid for (T1, T2, T3, T4, T5, T6, T7, T8, T9, T10) {
    open spec fn size_spec() -> nat {
        T1::size_spec() + T2::size_spec() + T3::size_spec() + T4::size_spec() + T5::size_spec() + T6::size_spec() + T7::size_spec() + T8::size_spec() + T9::size_spec() + T10::size_spec()
    }

    open spec fn align_spec() -> nat {
        align_max(T1::align_spec(), align_max(T2::align_spec(), align_max(T3::align_spec(), align_max(T4::align_spec(), align_max(T5::align_spec(), align_max(T6::align_spec(), align_max(T7::align_spec(), align_max(T8::align_spec(), align_max(T9::align_spec(), T10::align_spec())))))))))
    }

    proof fn size_fits() {
        T1::scalar_bounds();
        T2::scalar_bounds();
        T3::scalar_bounds();
        T4::scalar_bounds();
        T5::scalar_bounds();
        T6::scalar_bounds();
        T7::scalar_bounds();
        T8::scalar_bounds();
        T9::scalar_bounds();
        T10::scalar_bounds();
    }

    fn size() -> usize {
        proof {
            T1::scalar_bounds();
            T2::scalar_bounds();
            T3::scalar_bounds();
            T4::scalar_bounds();
            T5::scalar_bounds();
            T6::scalar_bounds();
            T7::scalar_bounds();
            T8::scalar_bounds();
            T9::scalar_bounds();
            T10::scalar_bounds();
        }
        T1::size() + T2::size() + T3::size() + T4::size() + T5::size() + T6::size() + T7::size() + T8::size() + T9::size() + T10::size()
    }

    fn align() -> usize {
        let mut a = T10::align();
        let b = T9::align();
        a = if b >= a {
            b
        } else {
            a
        };
        let b = T8::align();
        a = if b >= a {
            b
        } else {
            a
        };
        let b = T7::align();
        a = if b >= a {
            b
        } else {
            a
        };
        let b = T6::align();
        a = if b >= a {
            b
        } else {
            a
        };
        let b = T5::align();
        a = if b >= a {
            b
        } else {
            a
        };
        let b = T4::align();
        a = if b >= a {
            b
        } else {
            a
        };
        let b = T3::align();
        a = if b >= a {
            b
        } else {
            a
        };
        let b = T2::align();
        a = if b >= a {
            b
        } else {
            a
        };
        let b = T1::align();
        a = if b >= a {
            b
        } else {
            a
        };
        a
    }
}

} // verus!
