//! Turning host source material into persisted source references: the
//! decisions are made here on plain values; reading a host source and
//! exporting files stay with the host side.

use vstd::prelude::*;

use crate::api;

verus! {

/// What a slot's persisted content points at.
#[derive(Clone, Debug, PartialEq)]
pub enum SlotContent {
    File { file: String },
}

impl SlotContent {
    /// The file the content points at.
    pub fn file(&self) -> (r: &String)
        ensures
            *self matches SlotContent::File { file } && r == file,
    {
        match self {
            SlotContent::File { file } => file,
        }
    }
}

/// How embedded data is treated when a source reference is created.
#[derive(Clone, Debug, PartialEq)]
pub enum CreateApiSourceMode {
    /// MIDI data may be embedded into the preset.
    AllowEmbeddedData,
    /// MIDI data must be exported to a file with this base name.
    ForceExportToFile { file_base_name: String },
}

/// A file-based source reference.
pub fn create_file_api_source(path: String) -> (r: api::Source)
    ensures
        r == api::Source::File(api::FileSource { path }),
{
    api::Source::File(api::FileSource { path })
}

/// An embedded-MIDI source reference.
pub fn create_midi_chunk_source(chunk: String) -> (r: api::Source)
    ensures
        r == api::Source::MidiChunk(api::MidiChunkSource { chunk }),
{
    api::Source::MidiChunk(api::MidiChunkSource { chunk })
}

/// The decision behind creating a source reference from a host source,
/// over what the host reported: a file-backed source is stored by path;
/// otherwise MIDI data is embedded, or stored by the path the caller
/// exported it to; anything else is incompatible.
pub fn create_api_source_from_parts(
    file_name: Option<String>,
    is_midi: bool,
    chunk: String,
    exported_file: Option<String>,
) -> (r: Result<api::Source, &'static str>)
    ensures
        match file_name {
            Some(path) => r == Result::<api::Source, &'static str>::Ok(
                api::Source::File(api::FileSource { path }),
            ),
            None => if is_midi {
                match exported_file {
                    Some(path) => r == Result::<api::Source, &'static str>::Ok(
                        api::Source::File(api::FileSource { path }),
                    ),
                    None => r == Result::<api::Source, &'static str>::Ok(
                        api::Source::MidiChunk(api::MidiChunkSource { chunk }),
                    ),
                }
            } else {
                r is Err
            },
        },
{
    match file_name {
        Some(path) => Ok(create_file_api_source(path)),
        None => {
            if is_midi {
                match exported_file {
                    Some(path) => Ok(create_file_api_source(path)),
                    None => Ok(create_midi_chunk_source(chunk)),
                }
            } else {
                Err("item source incompatible")
            }
        },
    }
}

} // verus!
