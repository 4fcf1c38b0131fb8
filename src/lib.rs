//! Bookkeeping core of a GPU resource runtime: the allocation ledger that
//! receives returned allocations from any thread, the transfer batch with
//! its staging pool, the rollback of half-created resources, the polling of
//! resource requests, the one-shot message payload, and the asset file
//! header and index-list conversions that feed it.

pub mod accessor;
pub mod asset;
pub mod bus;
pub mod creation;
pub mod indices;
pub mod ledger;
pub mod manager;
pub mod payload;
pub mod request;
pub mod transfer;

pub use asset::{
    Asset, AssetError, AssetFile, AssetType, Blending, Pipeline, PipelineManifest,
    MODEL_VERSION, PIPELINE_VERSION, SCENE_VERSION,
};
pub use ledger::{
    AllocationLedger, AllocationRecord, BufferType, ChannelPoll, LedgerError, LedgerView,
    PollAction,
};
pub use transfer::{TransferBatch, TransferError, TransferPhase, TransferView};
pub use creation::{
    load_data, plan_buffer_from_data, plan_image, rollback_for, BufferPlan, BufferRequest,
    CreationError, CreationStep, ImageAspect, ImageLayout, ImagePlan, ImagePurpose, Rollback,
};
pub use payload::{take_outcome, MessageData, SlotTake};
pub use request::{absorb, Polled, RequestError, RequestPart, RequestView, ResourceRequest};
pub use indices::{convert_indices_from_fan, convert_indices_from_strip};
pub use accessor::{
    convert_index_data_type, get_component_width, get_data_type_size, DataType, Dimensions,
    IndexType,
};
pub use bus::{Message, MessageBox, MessageBus, SystemSender};
pub use manager::{manager_step, ManagerAction};
