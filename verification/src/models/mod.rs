pub mod initializer;
pub mod object_meta;
pub mod owner_reference;

pub use initializer::{Initializer, InitializerView};
pub use object_meta::{ObjectMeta, ObjectMetaView};
pub use owner_reference::{OwnerReference, OwnerReferenceView};
