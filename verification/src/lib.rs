pub mod android_sizes;
pub mod codec;
pub mod digits;
pub mod generic_sizes;
pub mod ios_sizes;
pub mod processor;
pub mod selection;
pub mod size;
pub mod text;
