//! File ingestion: structure-aware chunking of documents and text extraction.

pub mod semantic_chunker;
pub mod json_importer;
pub mod text_extractor;
pub mod paths;
pub mod ingest;
pub mod simple;
pub mod audio_transcriber;
pub mod wav;
pub mod packaged;
pub mod definitions;
