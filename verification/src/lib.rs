//! A small fixed-size vector algebra library: 2-, 3- and 4-component vectors
//! over a shared scalar capability trait, with a 4x4 matrix and a quaternion
//! on top of them.
mod cast;
mod consts;
mod laws;
mod matrix;
mod quaternion;
mod types;
mod vector;
mod vectors;

pub use cast::Cast;
pub use cast::cast3;
pub use cast::cast4;
pub use cast::cast;
pub use consts::vec2;
pub use consts::vec3;
pub use consts::vec4;
pub use laws::lemma_add_sub_round_trip2;
pub use laws::lemma_add_sub_round_trip3;
pub use laws::lemma_add_sub_round_trip4;
pub use laws::lemma_identity_mul_identity;
pub use laws::lemma_identity_mul_left;
pub use laws::lemma_identity_mul_right;
pub use laws::lemma_inverse_identity;
pub use laws::lemma_le_bytes_round_trip;
pub use laws::lemma_lerp_ends2;
pub use laws::lemma_lerp_ends3;
pub use laws::lemma_lerp_ends4;
pub use laws::lemma_neg_involution2;
pub use laws::lemma_neg_involution3;
pub use laws::lemma_neg_involution4;
pub use laws::lemma_swizzle_identity3;
pub use laws::lemma_transpose_involution;
pub use laws::lemma_unit_dot_zero2;
pub use laws::lemma_unit_dot_zero3;
pub use laws::lemma_unit_dot_zero4;
pub use matrix::MAT_BOUND;
pub use matrix::Matrix4x4;
pub use matrix::lemma_mul_bound;
pub use matrix::lemma_quot_bound;
pub use matrix::vec3_bounded;
pub use matrix::vec4_bounded;
pub use quaternion::EulerAnglesOrder;
pub use quaternion::Quaternion;
pub use types::ScalarArith;
pub use types::ScalarBits;
pub use types::ScalarNeg;
pub use types::SupportedValue;
pub use types::abs_num;
pub use types::lemma_quot_parts;
pub use types::lemma_remt_parts;
pub use types::max_num;
pub use types::min_num;
pub use types::quot;
pub use types::remt;
pub use vector::Swizzable;
pub use vector::UnsizedVector;
pub use vector::Vector;
pub use vector::VectorElemCount;
pub use vectors::Vec2Axis;
pub use vectors::Vec3Axis;
pub use vectors::Vec4Axis;
pub use vectors::Vector2;
pub use vectors::Vector3;
pub use vectors::Vector4;
pub use vectors::le_byte;
pub use vectors::lemma_le_bytes_recompose;
