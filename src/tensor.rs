//! Tensor buffers as the host reads and writes them: the elements one after
//! another, each in its bit pattern, least significant byte first.
use crate::codec::{
    le_bytes, le_value, lemma_le_bytes_len, lemma_le_round_trip, lemma_le_value_bound, push_le,
    read_le,
};
use crate::element::TensorType;
use vstd::prelude::*;

verus! {

/// The bytes of the elements `s`, in order.
pub open spec fn encode_elements<T: TensorType>(s: Seq<T>) -> Seq<u8>
    decreases s.len(),
{
    if s.len() == 0 {
        Seq::empty()
    } else {
        encode_elements(s.drop_last()) + le_bytes(T::spec_bits(s.last()), T::spec_width())
    }
}

/// The element held in the `i`-th slot of `b`.
pub open spec fn element_at<T: TensorType>(b: Seq<u8>, i: int) -> T {
    T::spec_from_bits(le_value(b.subrange(i * T::spec_width(), (i + 1) * T::spec_width())))
}

/// The elements held in `b`: one for each whole slot, a trailing partial slot left out.
pub open spec fn decode_elements<T: TensorType>(b: Seq<u8>) -> Seq<T> {
    Seq::new(b.len() / T::spec_width(), |i: int| element_at::<T>(b, i))
}

/// The encoding of `s` has one slot for each element, holding that element's bytes.
pub proof fn lemma_encode_slots<T: TensorType>(s: Seq<T>)
    ensures
        encode_elements(s).len() == s.len() * T::spec_width(),
        forall|i: int|
            0 <= i < s.len() ==> #[trigger] encode_elements(s).subrange(
                i * T::spec_width(),
                (i + 1) * T::spec_width(),
            ) == le_bytes(T::spec_bits(s[i]), T::spec_width()),
    decreases s.len(),
{
    let w = T::spec_width();
    if s.len() == 0 {
        assert(s.len() * w == 0) by (nonlinear_arith)
            requires
                s.len() == 0,
        ;
    } else {
        let n = s.len();
        let front = s.drop_last();
        let last = le_bytes(T::spec_bits(s.last()), w);
        lemma_encode_slots(front);
        lemma_le_bytes_len(T::spec_bits(s.last()), w);
        let e = encode_elements(s);
        assert(e == encode_elements(front) + last);
        assert((n - 1) * w + w == n * w) by (nonlinear_arith);
        assert forall|i: int| 0 <= i < n implies #[trigger] e.subrange(i * w, (i + 1) * w)
            == le_bytes(T::spec_bits(s[i]), w) by {
            assert((i + 1) * w == i * w + w) by (nonlinear_arith);
            if i < n - 1 {
                assert((i + 1) * w <= (n - 1) * w) by (nonlinear_arith)
                    requires
                        i + 1 <= n - 1,
                        w >= 0,
                ;
                assert(0 <= i * w) by (nonlinear_arith)
                    requires
                        i >= 0,
                        w >= 0,
                ;
                assert(e.subrange(i * w, (i + 1) * w) =~= encode_elements(front).subrange(
                    i * w,
                    (i + 1) * w,
                ));
                assert(front[i] == s[i]);
            } else {
                assert(i * w == (n - 1) * w);
                assert(e.subrange(i * w, (i + 1) * w) =~= last);
            }
        }
    }
}

/// Encoding elements for the host and decoding the host's bytes gives the elements back.
pub proof fn lemma_tensor_round_trip<T: TensorType>(s: Seq<T>)
    ensures
        decode_elements::<T>(encode_elements(s)) == s,
{
    let w = T::spec_width();
    T::lemma_layout();
    lemma_encode_slots(s);
    let e = encode_elements(s);
    assert(e.len() / w == s.len()) by (nonlinear_arith)
        requires
            e.len() == s.len() * w,
            w >= 1,
    ;
    let d = decode_elements::<T>(e);
    assert forall|i: int| 0 <= i < s.len() implies d[i] == s[i] by {
        assert(e.subrange(i * w, (i + 1) * w) == le_bytes(T::spec_bits(s[i]), w));
        lemma_le_round_trip(T::spec_bits(s[i]), w);
    }
    assert(d =~= s);
}

/// The bytes that the host reads for the elements of `tensor_buf`.
pub fn tensor_to_bytes<T: TensorType>(tensor_buf: &[T]) -> (r: Vec<u8>)
    ensures
        r@ == encode_elements(tensor_buf@),
        r@.len() == tensor_buf@.len() * T::spec_width(),
{
    let w = T::width();
    let mut out: Vec<u8> = Vec::new();
    let mut i: usize = 0;
    while i < tensor_buf.len()
        invariant
            i <= tensor_buf@.len(),
            w == T::spec_width(),
            out@ == encode_elements(tensor_buf@.subrange(0, i as int)),
        decreases tensor_buf@.len() - i,
    {
        let bits = tensor_buf[i].to_bits();
        push_le(&mut out, bits, w);
        assert(tensor_buf@.subrange(0, i + 1).drop_last() =~= tensor_buf@.subrange(0, i as int));
        i = i + 1;
    }
    assert(tensor_buf@.subrange(0, i as int) =~= tensor_buf@);
    proof {
        lemma_encode_slots(tensor_buf@);
    }
    out
}

/// The elements that the host wrote into `buf`.
pub fn tensor_from_bytes<T: TensorType>(buf: &[u8]) -> (r: Vec<T>)
    ensures
        r@ == decode_elements::<T>(buf@),
{
    proof {
        T::lemma_layout();
    }
    let w = T::width();
    let count = buf.len() / w;
    let mut out: Vec<T> = Vec::new();
    let mut i: usize = 0;
    while i < count
        invariant
            1 <= w <= 8,
            w == T::spec_width(),
            count == buf@.len() / (w as nat),
            buf@.len() == buf.len(),
            i <= count,
            out@ =~= decode_elements::<T>(buf@).subrange(0, i as int),
        decreases count - i,
    {
        assert((i + 1) * w <= count * w) by (nonlinear_arith)
            requires
                i + 1 <= count,
        ;
        assert(count * w <= buf@.len()) by (nonlinear_arith)
            requires
                count == buf@.len() / (w as nat),
                w >= 1,
        ;
        assert(i * w + w == (i + 1) * w) by (nonlinear_arith);
        let start = i * w;
        let bits = read_le(buf, start, w);
        proof {
            lemma_le_value_bound(buf@.subrange(start as int, start + w));
        }
        out.push(T::from_bits(bits));
        i = i + 1;
    }
    out
}

} // verus!
