//! Verified core of the PAL engine, script table and decompiler back end.

pub mod extsig;
pub mod extsig_records;
pub mod extsig_table;
pub mod assets;
pub mod bytes;
pub mod text;
pub mod audio;
pub mod effect;
pub mod msprite;
pub mod lua;
pub mod script;
pub mod extcalls;
pub mod trace;
pub mod report_json;
pub mod font;
pub mod engine;
pub mod diagnostics;
pub mod audio_system;
pub mod lua_emit;
pub mod codegen;
