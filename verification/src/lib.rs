pub mod binary_blob;
pub mod eventlog;
pub mod extra;
pub mod hashes;
pub mod ima;
pub mod laws;
pub mod render;
pub mod replay;
pub mod tcg;
pub mod tcgcel;
