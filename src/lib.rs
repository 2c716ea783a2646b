//! Reader for the KTX2 GPU texture container format.
//!
//! A [`Reader`] validates a whole KTX2 file held in memory at construction,
//! after which every accessor is infallible: the header, the mip levels, the
//! data format descriptors, the supercompression global data and the
//! key/value metadata are all handed out as views into the input buffer.

pub mod codec;
pub mod dfd;
pub mod enums;
pub mod error;
pub mod format_table;
pub mod header;
pub mod kvd;
pub mod reader;

pub use crate::dfd::{
    BasicDataFormatDescriptor, ChannelTypeQualifiers, DataFormatDescriptor, DataFormatDescriptorHeader,
    DataFormatFlags, SampleInformation,
};
pub use crate::enums::{ColorModel, ColorPrimaries, Format, SupercompressionScheme, TransferFunction};
pub use crate::error::ParseError;
pub use crate::format_table::{CanonicalDescriptor, FormatLayout};
pub use crate::header::{Header, Index, LevelIndex};
pub use crate::kvd::KeyValueDataIterator;
pub use crate::reader::{Level, LevelDataSpan, Reader};
