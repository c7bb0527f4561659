use vstd::prelude::*;

verus! {

/// The native element-type tags of the host types this library may put in
/// a tensor.
pub const TF_INT32: u32 = 3;
pub const TF_UINT8: u32 = 4;
pub const TF_INT16: u32 = 5;
pub const TF_INT8: u32 = 6;
pub const TF_INT64: u32 = 9;
pub const TF_UINT16: u32 = 17;
pub const TF_UINT32: u32 = 22;
pub const TF_UINT64: u32 = 23;

/// The closed capability gating which host types may construct tensors:
/// each permitted type names exactly one native element-type tag.
pub trait TensorType: Copy {
    /// The native element-type tag of this host type.
    spec fn spec_tf_type() -> u32;

    /// The native element-type tag of this host type.
    fn tf_type() -> (t: u32)
        ensures
            t == Self::spec_tf_type(),
    ;
}

impl TensorType for i8 {
    open spec fn spec_tf_type() -> u32 {
        TF_INT8
    }

    fn tf_type() -> u32 {
        TF_INT8
    }
}

impl TensorType for i16 {
    open spec fn spec_tf_type() -> u32 {
        TF_INT16
    }

    fn tf_type() -> u32 {
        TF_INT16
    }
}

impl TensorType for i32 {
    open spec fn spec_tf_type() -> u32 {
        TF_INT32
    }

    fn tf_type() -> u32 {
        TF_INT32
    }
}

impl TensorType for i64 {
    open spec fn spec_tf_type() -> u32 {
        TF_INT64
    }

    fn tf_type() -> u32 {
        TF_INT64
    }
}

impl TensorType for u8 {
    open spec fn spec_tf_type() -> u32 {
        TF_UINT8
    }

    fn tf_type() -> u32 {
        TF_UINT8
    }
}

impl TensorType for u16 {
    open spec fn spec_tf_type() -> u32 {
        TF_UINT16
    }

    fn tf_type() -> u32 {
        TF_UINT16
    }
}

impl TensorType for u32 {
    open spec fn spec_tf_type() -> u32 {
        TF_UINT32
    }

    fn tf_type() -> u32 {
        TF_UINT32
    }
}

impl TensorType for u64 {
    open spec fn spec_tf_type() -> u32 {
        TF_UINT64
    }

    fn tf_type() -> u32 {
        TF_UINT64
    }
}

/// The element-type mapping is injective as well as exhaustive: the eight
/// permitted host types name eight distinct native tags.
pub proof fn lemma_element_tags_distinct()
    ensures
        seq![
            <i8 as TensorType>::spec_tf_type(),
            <i16 as TensorType>::spec_tf_type(),
            <i32 as TensorType>::spec_tf_type(),
            <i64 as TensorType>::spec_tf_type(),
            <u8 as TensorType>::spec_tf_type(),
            <u16 as TensorType>::spec_tf_type(),
            <u32 as TensorType>::spec_tf_type(),
            <u64 as TensorType>::spec_tf_type(),
        ].no_duplicates(),
{
}

} // verus!
