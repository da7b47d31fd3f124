pub mod checkpoint;
pub mod fmp4;
pub mod mp4_box;
pub mod stream;
