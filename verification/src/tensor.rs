use vstd::prelude::*;
use vstd::slice::{slice_index_get, slice_to_vec};
use crate::error::Error;
use crate::tensor_type::TensorType;

verus! {

/// The number of elements a shape calls for: the product of its
/// dimension sizes, one for the empty shape of a scalar.
pub open spec fn shape_product(s: Seq<i64>) -> int
    decreases s.len(),
{
    if s.len() == 0 {
        1
    } else {
        shape_product(s.drop_last()) * s.last()
    }
}

/// Extending a prefix of a shape by its next dimension multiplies the
/// prefix's product by that dimension.
proof fn lemma_shape_product_step(s: Seq<i64>, i: int)
    requires
        0 <= i < s.len(),
    ensures
        shape_product(s.take(i + 1)) == shape_product(s.take(i)) * s[i],
{
    assert(s.take(i + 1).drop_last() =~= s.take(i));
    assert(s.take(i + 1).last() == s[i]);
}

/// A shape with a zero dimension calls for no elements at all.
proof fn lemma_shape_product_zero(s: Seq<i64>)
    requires
        exists|i: int| 0 <= i < s.len() && s[i] == 0,
    ensures
        shape_product(s) == 0,
    decreases s.len(),
{
    let i = choose|i: int| 0 <= i < s.len() && s[i] == 0;
    assert(shape_product(s) == shape_product(s.drop_last()) * s.last());
    if i == s.len() - 1 {
        assert(s.last() == 0);
    } else {
        assert(s.drop_last()[i] == 0);
        lemma_shape_product_zero(s.drop_last());
    }
}

/// A typed, shaped block of element data: the shape's dimension sizes and
/// exactly as many elements as their product calls for. It stands for the
/// native tensor memory the runtime glue allocates alongside it; what the
/// logic reads and writes of that memory — element values, at checked
/// positions — is held and stated here as plain values.
pub struct Tensor<T> {
    shape: Vec<i64>,
    data: Vec<T>,
}

impl<T> Tensor<T> {
    /// The tensor's dimension sizes.
    pub closed spec fn shape_spec(&self) -> Seq<i64> {
        self.shape@
    }

    /// The tensor's elements, in storage order.
    pub closed spec fn data_spec(&self) -> Seq<T> {
        self.data@
    }

    /// The shape of the tensor.
    pub fn shape(&self) -> (r: &[i64])
        ensures
            r@ == self.shape_spec(),
    {
        self.shape.as_slice()
    }

    /// How many elements the tensor holds.
    pub fn len(&self) -> (r: usize)
        ensures
            r == self.data_spec().len(),
    {
        self.data.len()
    }

    /// The tensor's elements as a slice, in storage order.
    pub fn as_slice(&self) -> (r: &[T])
        ensures
            r@ == self.data_spec(),
    {
        self.data.as_slice()
    }

    /// The element at the given position of the storage order.
    pub fn get(&self, index: usize) -> (r: &T)
        requires
            index < self.data_spec().len(),
        ensures
            *r == self.data_spec()[index as int],
    {
        &self.data[index]
    }

    /// Writes the element at the given position of the storage order; the
    /// shape and every other element stay as they were.
    pub fn set(&mut self, index: usize, value: T)
        requires
            index < old(self).data_spec().len(),
        ensures
            final(self).data_spec() == old(self).data_spec().update(index as int, value),
            final(self).shape_spec() == old(self).shape_spec(),
    {
        self.data[index] = value;
    }
}

impl<T: TensorType + Copy> Tensor<T> {
    /// A tensor of the given shape holding a copy of the given elements.
    /// Succeeds exactly when the data's length is the element count the
    /// shape calls for; any disagreement — including a count too large for
    /// any slice to reach — is refused as a shape mismatch before any
    /// memory would be committed. Dimension sizes are non-negative, as a
    /// shape's data model demands.
    pub fn from_slice(shape: &[i64], data: &[T]) -> (r: Result<Tensor<T>, Error>)
        requires
            forall|i: int| 0 <= i < shape@.len() ==> shape@[i] >= 0,
        ensures
            r is Ok <==> shape_product(shape@) == data@.len(),
            r is Ok ==> r->Ok_0.shape_spec() == shape@ && r->Ok_0.data_spec() == data@,
            r is Err ==> (r->Err_0 matches Error::InvalidShape { data_len, shape: dims }
                && data_len == data@.len() && dims@ == shape@),
    {
        let n = shape.len();
        let mut prod: u64 = 1;
        let mut overflowed = false;
        let mut zero = false;
        let mut i: usize = 0;
        while i < n
            invariant
                n == shape@.len(),
                i <= n,
                forall|j: int| 0 <= j < shape@.len() ==> shape@[j] >= 0,
                zero <==> (exists|j: int| 0 <= j < i && shape@[j] == 0),
                !zero && !overflowed ==> prod == shape_product(shape@.take(i as int)),
                !zero && overflowed ==> shape_product(shape@.take(i as int)) > u64::MAX,
            decreases n - i,
        {
            let dim = *slice_index_get(shape, i);
            proof {
                lemma_shape_product_step(shape@, i as int);
            }
            if dim == 0 {
                zero = true;
            } else if !zero && !overflowed {
                match prod.checked_mul(dim as u64) {
                    Some(p) => {
                        prod = p;
                    },
                    None => {
                        overflowed = true;
                    },
                }
            } else if !zero {
                assert(shape_product(shape@.take(i as int + 1)) > u64::MAX) by (nonlinear_arith)
                    requires
                        shape_product(shape@.take(i as int + 1)) == shape_product(
                            shape@.take(i as int),
                        ) * shape@[i as int],
                        shape_product(shape@.take(i as int)) > u64::MAX,
                        shape@[i as int] >= 1,
                ;
            }
            i += 1;
        }
        assert(shape@.take(n as int) =~= shape@);

        let data_len = data.len();
        let fits = if zero {
            proof {
                lemma_shape_product_zero(shape@);
            }
            data_len == 0
        } else if overflowed {
            false
        } else {
            prod == data_len as u64
        };
        if fits {
            Ok(Tensor { shape: slice_to_vec(shape), data: slice_to_vec(data) })
        } else {
            Err(Error::InvalidShape { data_len, shape: slice_to_vec(shape) })
        }
    }
}

} // verus!
