use crate::ledger::BufferType;
use vstd::prelude::*;

verus! {

/// Buffer usage bit: the buffer is the source of a transfer.
pub const BUFFER_USAGE_TRANSFER_SRC: u32 = 0x1;

/// Buffer usage bit: the buffer is the destination of a transfer.
pub const BUFFER_USAGE_TRANSFER_DST: u32 = 0x2;

/// Image usage bit: the image is the destination of a transfer.
pub const IMAGE_USAGE_TRANSFER_DST: u32 = 0x2;

/// What an image is for: sampled content filled from bytes, or a render
/// target that starts empty.
#[derive(Clone, Copy, Debug, PartialEq, Eq, Structural)]
pub enum ImagePurpose {
    Texture,
    DepthBuffer,
}

/// The aspect of an image that its views and barriers address.
#[derive(Clone, Copy, Debug, PartialEq, Eq, Structural)]
pub enum ImageAspect {
    Color,
    Depth,
}

/// The layouts an image passes through while it is created.
#[derive(Clone, Copy, Debug, PartialEq, Eq, Structural)]
pub enum ImageLayout {
    Undefined,
    TransferDst,
    ShaderReadOnly,
    DepthAttachment,
}

/// Why a resource could not be created or filled.
#[derive(Clone, Copy, Debug, PartialEq, Eq, Structural)]
pub enum CreationError {
    /// A texture was asked for without any bytes to fill it.
    EmptyImageData,
    /// The buffer's memory is not mapped for the host.
    NotMapped,
    /// More bytes than the buffer holds.
    DataTooLarge,
}

/// The aspect an image of the given purpose is addressed by.
pub open spec fn aspect_of(p: ImagePurpose) -> ImageAspect {
    match p {
        ImagePurpose::Texture => ImageAspect::Color,
        ImagePurpose::DepthBuffer => ImageAspect::Depth,
    }
}

/// The layout an image of the given purpose ends its creation in.
pub open spec fn final_layout_of(p: ImagePurpose) -> ImageLayout {
    match p {
        ImagePurpose::Texture => ImageLayout::ShaderReadOnly,
        ImagePurpose::DepthBuffer => ImageLayout::DepthAttachment,
    }
}

impl ImagePurpose {
    pub fn aspect_mask(&self) -> (r: ImageAspect)
        ensures
            r == aspect_of(*self),
    {
        match self {
            ImagePurpose::Texture => ImageAspect::Color,
            ImagePurpose::DepthBuffer => ImageAspect::Depth,
        }
    }

    /// The layout the image is left in once it is ready for use.
    pub fn final_layout(&self) -> (r: ImageLayout)
        ensures
            r == final_layout_of(*self),
    {
        match self {
            ImagePurpose::Texture => ImageLayout::ShaderReadOnly,
            ImagePurpose::DepthBuffer => ImageLayout::DepthAttachment,
        }
    }
}

/// One buffer to create: its size, usage bits and memory class.
#[derive(Clone, Copy, Debug, PartialEq, Eq, Structural)]
pub struct BufferRequest {
    pub size: u64,
    pub usage: u32,
    pub class: BufferType,
}

/// How a buffer filled from bytes is made: the buffer that receives the
/// bytes from the host directly, and, for device-local memory, the final
/// buffer that a transfer copies them into.
#[derive(Clone, Copy, Debug, PartialEq, Eq, Structural)]
pub struct BufferPlan {
    pub host_write: BufferRequest,
    pub device_copy: Option<BufferRequest>,
}

/// Bytes to request for `data_len` bytes of data: a buffer is never empty,
/// so no data still gets one byte.
pub open spec fn buffer_size_for(data_len: u64) -> u64 {
    if data_len == 0 {
        1
    } else {
        data_len
    }
}

/// Plans `create_buffer_from_data`: host-visible memory is written in
/// place; device-local memory gets a host-visible staging buffer of the
/// same size, and the final buffer may also be a transfer destination.
/// Both buffers hold at least one byte.
pub fn plan_buffer_from_data(data_len: u64, usage: u32, class: BufferType) -> (r: BufferPlan)
    ensures
        class == BufferType::CpuVisible ==> r == (BufferPlan {
            host_write: BufferRequest { size: buffer_size_for(data_len), usage, class: BufferType::CpuVisible },
            device_copy: None,
        }),
        class == BufferType::GpuOnly ==> r == (BufferPlan {
            host_write: BufferRequest {
                size: buffer_size_for(data_len),
                usage: BUFFER_USAGE_TRANSFER_SRC,
                class: BufferType::CpuVisible,
            },
            device_copy: Some(
                BufferRequest {
                    size: buffer_size_for(data_len),
                    usage: usage | BUFFER_USAGE_TRANSFER_DST,
                    class: BufferType::GpuOnly,
                },
            ),
        }),
{
    let size: u64 = if data_len == 0 {
        1
    } else {
        data_len
    };
    match class {
        BufferType::CpuVisible => BufferPlan {
            host_write: BufferRequest { size, usage, class: BufferType::CpuVisible },
            device_copy: None,
        },
        BufferType::GpuOnly => BufferPlan {
            host_write: BufferRequest { size, usage: BUFFER_USAGE_TRANSFER_SRC, class: BufferType::CpuVisible },
            device_copy: Some(BufferRequest { size, usage: usage | BUFFER_USAGE_TRANSFER_DST, class: BufferType::GpuOnly }),
        },
    }
}

/// How an image is made: its usage bits, aspect, whether it is filled
/// through a staging buffer, and the layout it ends in.
#[derive(Clone, Copy, Debug, PartialEq, Eq, Structural)]
pub struct ImagePlan {
    pub usage: u32,
    pub aspect: ImageAspect,
    pub fill: bool,
    pub final_layout: ImageLayout,
}

/// Plans `create_image`. A texture must come with bytes; a depth buffer is
/// never filled, whatever bytes come with it.
pub fn plan_image(data_len: u64, usage: u32, purpose: ImagePurpose) -> (r: Result<ImagePlan, CreationError>)
    ensures
        r is Err <==> (purpose == ImagePurpose::Texture && data_len == 0),
        r is Err ==> r == Err::<ImagePlan, CreationError>(CreationError::EmptyImageData),
        r is Ok ==> r->Ok_0 == (ImagePlan {
            usage: usage | IMAGE_USAGE_TRANSFER_DST,
            aspect: aspect_of(purpose),
            fill: purpose == ImagePurpose::Texture,
            final_layout: final_layout_of(purpose),
        }),
{
    let fill = match purpose {
        ImagePurpose::Texture => true,
        ImagePurpose::DepthBuffer => false,
    };
    if fill && data_len == 0 {
        return Err(CreationError::EmptyImageData);
    }
    Ok(ImagePlan {
        usage: usage | IMAGE_USAGE_TRANSFER_DST,
        aspect: purpose.aspect_mask(),
        fill,
        final_layout: purpose.final_layout(),
    })
}

/// The steps of binding a fresh device object to fresh memory, in order.
#[derive(Clone, Copy, Debug, PartialEq, Eq, Structural)]
pub enum CreationStep {
    CreateObject,
    Allocate,
    Bind,
}

/// What must be undone when a step fails.
#[derive(Clone, Copy, Debug, PartialEq, Eq, Structural)]
pub enum Rollback {
    DestroyObject,
    FreeAllocation,
}

/// What is held when `failed` fails: what the earlier steps acquired.
pub open spec fn held_when_failing(failed: CreationStep) -> Set<Rollback> {
    match failed {
        CreationStep::CreateObject => Set::empty(),
        CreationStep::Allocate => set![Rollback::DestroyObject],
        CreationStep::Bind => set![Rollback::DestroyObject, Rollback::FreeAllocation],
    }
}

/// What to undo, in order, when creating a resource fails at `failed`:
/// the object is destroyed before its memory is given back.
pub fn rollback_for(failed: CreationStep) -> (r: Vec<Rollback>)
    ensures
        r@.to_set() == held_when_failing(failed),
        r@.no_duplicates(),
        failed == CreationStep::Bind ==> r@ == seq![Rollback::DestroyObject, Rollback::FreeAllocation],
{
    let mut r: Vec<Rollback> = Vec::new();
    match failed {
        CreationStep::CreateObject => {},
        CreationStep::Allocate => {
            r.push(Rollback::DestroyObject);
        },
        CreationStep::Bind => {
            r.push(Rollback::DestroyObject);
            r.push(Rollback::FreeAllocation);
        },
    }
    proof {
        if failed == CreationStep::Allocate {
            assert(r@ =~= seq![Rollback::DestroyObject]);
            assert(r@.to_set() =~= set![Rollback::DestroyObject]) by {
                assert(r@[0] == Rollback::DestroyObject);
            }
        } else if failed == CreationStep::Bind {
            assert(r@ =~= seq![Rollback::DestroyObject, Rollback::FreeAllocation]);
            assert(r@.to_set() =~= set![Rollback::DestroyObject, Rollback::FreeAllocation]) by {
                assert(r@[0] == Rollback::DestroyObject);
                assert(r@[1] == Rollback::FreeAllocation);
            }
        } else {
            assert(r@.to_set() =~= Set::<Rollback>::empty());
        }
    }
    r
}

/// Memory after `data` is written at its start.
pub open spec fn loaded(memory: Seq<u8>, data: Seq<u8>) -> Seq<u8> {
    data + memory.skip(data.len() as int)
}

/// Writes `data` at the start of a buffer's mapped memory.
pub fn load_data(memory: &mut [u8], data: &[u8]) -> (r: Result<(), CreationError>)
    ensures
        r is Ok <==> data@.len() <= old(memory)@.len(),
        r is Err ==> r == Err::<(), CreationError>(CreationError::DataTooLarge) && final(memory)@ == old(memory)@,
        r is Ok ==> final(memory)@ == loaded(old(memory)@, data@),
{
    if data.len() > memory.len() {
        return Err(CreationError::DataTooLarge);
    }
    let mut i: usize = 0;
    while i < data.len()
        invariant
            data@.len() <= old(memory)@.len(),
            memory@.len() == old(memory)@.len(),
            i <= data@.len(),
            forall|k: int| 0 <= k < i ==> memory@[k] == data@[k],
            forall|k: int| i <= k < memory@.len() ==> memory@[k] == old(memory)@[k],
        decreases data@.len() - i,
    {
        memory[i] = data[i];
        i = i + 1;
    }
    assert(memory@ =~= loaded(old(memory)@, data@));
    Ok(())
}

/// What is written to mapped memory reads back unchanged, for data of any
/// length that fits.
pub proof fn lemma_load_round_trip(memory: Seq<u8>, data: Seq<u8>)
    requires
        data.len() <= memory.len(),
    ensures
        loaded(memory, data).len() == memory.len(),
        loaded(memory, data).take(data.len() as int) == data,
{
    assert(loaded(memory, data).take(data.len() as int) =~= data);
}

} // verus!
