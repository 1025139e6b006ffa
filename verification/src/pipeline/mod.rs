//! Describes how a graphical or compute operation is performed.

pub mod graphics_pipeline;
pub mod input_assembly;
pub mod layout;
pub mod shader;
pub mod vertex;

pub use self::graphics_pipeline::GraphicsPipelineCreationError;
