# robot_brain

The tool layer of an agent that remembers what it reads: file ingestion,
structure-aware chunking, JSON import, skills, storage and strategy
bookkeeping, and the schemas of the tools it offers. The library in `src/`
is verified with Verus; `app/` is the ordinary Rust around it.

## Layout

- `src/text.rs`, `src/json.rs`, `src/str_map.rs`: character sequences,
  JSON values with their compact and pretty text, and an insertion-ordered
  string map.
- `src/tools/ingestor/`: the semantic chunker (Markdown, plain text, code,
  HTML, XML, JSON), the JSON importer, text extraction (tag stripping,
  chunking, text quality, SVG, Chroma exports, raw PDF text), WAV headers,
  the ingest tracker, the planning and bookkeeping of ingestion batches,
  and the single-folder importer.
- `src/tools/`: tool definitions and their input schemas, plugins,
  permissions, the execution pipeline and tool registration.
- `src/skills/`: skills, the skill registry, the executor and its
  execution metrics; `src/tools/skills/` holds what the skill tools do
  with a registry (register, discover, list, search, recommend).
- `src/storage_architecture.rs`, `src/strategic_learning.rs`,
  `src/architecture_validation.rs`, `src/workers.rs`, `src/vector.rs`.
- `app/`: file, archive and audio I/O, serde_json conversion, the
  process-wide registries, and the floating-point figures (skill mastery,
  sizes, similarity search, audio levels). Floating-point values are kept
  in the library as their `f32` bit patterns.
- `tests/`: tests of the library.
