use vstd::prelude::*;

verus! {

/// Scalar type of one component of a vertex attribute.
#[derive(Clone, Copy, Debug, PartialEq, Eq, Structural)]
pub enum DataType {
    I8,
    U8,
    I16,
    U16,
    U32,
    F32,
}

/// Shape of one element of a vertex attribute.
#[derive(Clone, Copy, Debug, PartialEq, Eq, Structural)]
pub enum Dimensions {
    Scalar,
    Vec2,
    Vec3,
    Vec4,
    Mat2,
    Mat3,
    Mat4,
}

/// Scalar type of the indices of a sparse attribute.
#[derive(Clone, Copy, Debug, PartialEq, Eq, Structural)]
pub enum IndexType {
    U8,
    U16,
    U32,
}

/// Bytes taken by one component of the given type.
pub open spec fn data_type_size(t: DataType) -> usize {
    match t {
        DataType::I8 | DataType::U8 => 1,
        DataType::I16 | DataType::U16 => 2,
        DataType::U32 | DataType::F32 => 4,
    }
}

/// Components read per element: a matrix is read one column at a time.
pub open spec fn component_width(d: Dimensions) -> usize {
    match d {
        Dimensions::Scalar => 1,
        Dimensions::Vec2 | Dimensions::Mat2 => 2,
        Dimensions::Vec3 | Dimensions::Mat3 => 3,
        Dimensions::Vec4 | Dimensions::Mat4 => 4,
    }
}

pub fn get_component_width(dimension: &Dimensions) -> (r: usize)
    ensures
        r == component_width(*dimension),
{
    match dimension {
        Dimensions::Scalar => 1,
        Dimensions::Vec2 => 2,
        Dimensions::Vec3 => 3,
        Dimensions::Vec4 => 4,
        Dimensions::Mat2 => 2,
        Dimensions::Mat3 => 3,
        Dimensions::Mat4 => 4,
    }
}

pub fn get_data_type_size(data_type: &DataType) -> (r: usize)
    ensures
        r == data_type_size(*data_type),
{
    match data_type {
        DataType::I8 => 1,
        DataType::U8 => 1,
        DataType::I16 => 2,
        DataType::U16 => 2,
        DataType::U32 => 4,
        DataType::F32 => 4,
    }
}

/// The component type that sparse indices of the given type are read as.
pub fn convert_index_data_type(data_type: &IndexType) -> (r: DataType)
    ensures
        *data_type == IndexType::U8 ==> r == DataType::U8,
        *data_type == IndexType::U16 ==> r == DataType::U16,
        *data_type == IndexType::U32 ==> r == DataType::U32,
{
    match data_type {
        IndexType::U8 => DataType::U8,
        IndexType::U16 => DataType::U16,
        IndexType::U32 => DataType::U32,
    }
}

} // verus!
