//! Demultiplexer for the FLV container: byte-level readers, tag decoders and
//! the streaming state machine, each with a machine-checked contract.

pub mod demux;
pub mod error;
pub mod fourcc;
pub mod frame;
pub mod header;
pub mod parser;
pub mod reader;
pub mod tag;

pub use demux::demux_flv_stream;
pub use demux::DEMUX_ALL_TYPES;
pub use frame::FlvDemuxer;
pub use frame::FlvFrame;
