pub mod image_ops;
pub mod text;
