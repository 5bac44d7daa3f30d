//! The guest-side SDK: encoders of GPU and SPU command lists, the layouts the GPU reads,
//! and the register addresses of the machine's devices.

pub mod command_list;
pub mod chained;
pub mod gpu;
pub mod pipeline_state;
pub mod spu;
pub mod devices;
