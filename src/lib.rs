//! Guest-side bindings to the WasmEdge TensorFlow, TensorFlow-Lite and image hosts.
//!
//! The host calls themselves cross the module boundary as flat integers; this
//! crate holds the verified part of that marshalling: the element types that a
//! tensor may hold, their little-endian byte layout, the decoding of host
//! status codes, and the sizes of the buffers handed to the host.
pub mod codec;
pub mod element;
pub mod errno;
pub mod image;
pub mod session;
pub mod tensor;

pub use errno::{
    check_status, WasmedgeTfErrno, WASMEDGE_TF_ERRNO_BUSY, WASMEDGE_TF_ERRNO_INVALID_ARGUMENT,
    WASMEDGE_TF_ERRNO_INVALID_ENCODING, WASMEDGE_TF_ERRNO_MISSING_MEMORY,
    WASMEDGE_TF_ERRNO_RUNTIME_ERROR, WASMEDGE_TF_ERRNO_SUCCESS,
};

pub use element::{F32Bits, F64Bits, TensorType};
pub use image::rgb_value_count;
pub use session::{Session, TFLiteSession, TFSession, Tensor, TensorSize};
pub use tensor::{tensor_from_bytes, tensor_to_bytes};
