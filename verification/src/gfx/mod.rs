//! The integer bookkeeping of the renderer: settings, quad indexes, the glyph atlas,
//! scene registries, double buffered instances, dirty uniforms and the decoding of glTF
//! index and attribute data. The GPU calls themselves are made by the caller.

pub mod atlas;
pub mod gltf_data;
pub mod input_handler;
pub mod instances;
pub mod quad;
pub mod registry;
pub mod settings;
pub mod uniform_container;
