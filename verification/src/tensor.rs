//! A minimal tensor container: a flat data buffer plus a shape descriptor,
//! with the invariant that the buffer length equals the product of the
//! shape's dimensions.

use vstd::prelude::*;

verus! {

/// Errors raised by the tensor container.
///
/// `InvalidType` and `UnsafeOperation` are reserved for operations that may
/// be added later; no current operation produces them. `Message` is the
/// catch-all carrying a human-readable description, used today only for
/// out-of-bounds element access.
#[derive(Debug)]
pub enum TensorError {
    /// The data buffer's length does not equal the product of the shape.
    ShapeMismatch,
    /// Reserved: a representation-level type error.
    InvalidType,
    /// Reserved: an operation that would bypass bounds checks.
    UnsafeOperation,
    /// Catch-all with a human-readable message.
    Message(String),
}

impl TensorError {
    /// A human-readable rendering of the error.
    pub fn message(&self) -> (r: String)
        ensures
            self is Message ==> r@ == self->Message_0@,
    {
        match self {
            TensorError::ShapeMismatch => "data length does not match shape".to_owned(),
            TensorError::InvalidType => "invalid tensor element type".to_owned(),
            TensorError::UnsafeOperation => "unsafe tensor operation".to_owned(),
            TensorError::Message(m) => m.clone(),
        }
    }
}

/// The number of elements a shape describes: the product of its dimensions.
/// An empty shape describes a single scalar element.
pub open spec fn shape_product(s: Seq<usize>) -> nat
    decreases s.len(),
{
    if s.len() == 0 {
        1
    } else {
        (s[0] as nat) * shape_product(s.skip(1))
    }
}

/// Computes the product of the dimensions of `shape` from position `i` on,
/// or reports that it exceeds `usize::MAX`.
fn prod_from(shape: &Vec<usize>, i: usize) -> (r: Option<usize>)
    requires
        i <= shape.len(),
    ensures
        match r {
            Some(p) => p as nat == shape_product(shape@.skip(i as int)),
            None => shape_product(shape@.skip(i as int)) > usize::MAX,
        },
    decreases shape.len() - i,
{
    if i == shape.len() {
        proof {
            assert(shape@.skip(i as int) =~= Seq::<usize>::empty());
            assert(shape_product(shape@.skip(i as int)) == 1);
        }
        Some(1)
    } else {
        let dim = shape[i];
        proof {
            assert(shape@.skip(i as int).skip(1) =~= shape@.skip(i as int + 1));
            assert(shape@.skip(i as int)[0] == shape@[i as int]);
            assert(shape_product(shape@.skip(i as int)) == (shape@[i as int] as nat)
                * shape_product(shape@.skip(i as int + 1)));
        }
        if dim == 0 {
            proof {
                let rest = shape_product(shape@.skip(i as int + 1));
                assert((dim as nat) * rest == 0) by (nonlinear_arith)
                    requires dim == 0;
            }
            Some(0)
        } else {
            match prod_from(shape, i + 1) {
                None => {
                    proof {
                        let rest = shape_product(shape@.skip(i as int + 1));
                        assert(dim as nat * rest >= rest) by (nonlinear_arith)
                            requires dim >= 1, rest >= 0;
                    }
                    None
                },
                Some(rest) => dim.checked_mul(rest),
            }
        }
    }
}

/// A flat buffer of elements together with the shape describing its logical
/// multi-dimensional extent. Constructed only through [`Tensor::new`], which
/// validates the length invariant; immutable thereafter.
pub struct Tensor<T> {
    data: Vec<T>,
    shape: Vec<usize>,
}

impl<T> Tensor<T> {
    /// The elements, in flat tensor order.
    pub closed spec fn data_view(self) -> Seq<T> {
        self.data@
    }

    /// The dimensions, outermost first.
    pub closed spec fn shape_view(self) -> Seq<usize> {
        self.shape@
    }

    /// The length invariant every constructed tensor satisfies.
    pub open spec fn wf(self) -> bool {
        self.data_view().len() == shape_product(self.shape_view())
    }

    /// Builds a tensor after checking that the buffer length equals the
    /// product of the shape; on a mismatch nothing is constructed and the
    /// shape-mismatch error is returned.
    pub fn new(data: Vec<T>, shape: Vec<usize>) -> (r: Result<Tensor<T>, TensorError>)
        ensures
            data@.len() == shape_product(shape@) ==> (r matches Ok(t) && t.data_view() == data@
                && t.shape_view() == shape@ && t.wf()),
            data@.len() != shape_product(shape@) ==> (r matches Err(e) && e is ShapeMismatch),
    {
        let n = data.len();
        let expected = prod_from(&shape, 0);
        proof {
            assert(shape@.skip(0) =~= shape@);
        }
        match expected {
            Some(p) => {
                if n == p {
                    Ok(Tensor { data, shape })
                } else {
                    Err(TensorError::ShapeMismatch)
                }
            },
            None => Err(TensorError::ShapeMismatch),
        }
    }

    /// Read-only view of the dimensions.
    pub fn shape(&self) -> (r: &Vec<usize>)
        ensures
            r@ == self.shape_view(),
    {
        &self.shape
    }

    /// Read-only view of the elements.
    pub fn data(&self) -> (r: &Vec<T>)
        ensures
            r@ == self.data_view(),
    {
        &self.data
    }

    /// Bounds-checked access into the flat buffer: the element at `index`
    /// when `index` is in range, and the out-of-range error otherwise.
    pub fn get(&self, index: usize) -> (r: Result<&T, TensorError>)
        ensures
            index < self.data_view().len() ==> (r matches Ok(e) && *e == self.data_view()[index as int]),
            index >= self.data_view().len() ==> (r matches Err(e) && e is Message),
    {
        if index < self.data.len() {
            Ok(&self.data[index])
        } else {
            Err(TensorError::Message("tensor index out of range".to_owned()))
        }
    }
}

} // verus!
