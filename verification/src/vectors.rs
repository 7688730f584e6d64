mod vec2;
mod vec3;
mod vec4;

pub use vec2::Vec2Axis;
pub use vec2::Vector2;
pub use vec3::Vec3Axis;
pub use vec3::le_byte;
pub use vec3::lemma_le_bytes_recompose;
pub use vec3::Vector3;
pub use vec4::Vec4Axis;
pub use vec4::Vector4;
