//! The context engine's data model: plain value objects describing
//! conversation content, compression state and zones. Shapes only, consumed
//! by a UI layer; no behavior lives here.

use vstd::prelude::*;

verus! {

/// Role of a context block in the conversation.
#[derive(Debug, Clone, Copy, PartialEq, Eq, Hash)]
pub enum Role {
    System,
    User,
    Assistant,
    ToolUse,
    ToolResult,
}

/// The three built-in zones.
#[derive(Debug, Clone, Copy, PartialEq, Eq, Hash)]
pub enum BuiltInZone {
    Primacy,
    Middle,
    Recency,
}

/// A context zone: built-in or user-defined.
#[derive(Debug, Clone, PartialEq, Eq, Hash)]
pub enum Zone {
    BuiltIn(BuiltInZone),
    Custom(String),
}

/// Compression level of a context block.
#[derive(Debug, Clone, Copy, PartialEq, Eq, Hash)]
pub enum CompressionLevel {
    Original,
    Trimmed,
    Summarized,
    Minimal,
}

/// Pin position within a zone.
#[derive(Debug, Clone, Copy, PartialEq, Eq, Hash)]
pub enum PinPosition {
    Top,
    Bottom,
}

/// A single compressed version of block content.
#[derive(Debug, Clone)]
pub struct CompressionVersion {
    pub content: String,
    pub tokens: u32,
}

/// All compression versions of a block.
#[derive(Debug, Clone)]
pub struct CompressionVersions {
    pub original: CompressionVersion,
    pub trimmed: Option<CompressionVersion>,
    pub summarized: Option<CompressionVersion>,
    pub minimal: Option<CompressionVersion>,
}

/// Provider-specific metadata for a block.
#[derive(Debug, Clone)]
pub struct BlockMetadata {
    pub provider: String,
    pub turn_index: u32,
    pub tool_name: Option<String>,
    pub file_paths: Vec<String>,
}

} // verus!
