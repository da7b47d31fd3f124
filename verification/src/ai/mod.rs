pub mod transcriber;
