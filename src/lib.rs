//! Normalisation of log records coming from an embedded Python runtime into
//! native structured events: severity mapping, target translation, user field
//! extraction, field flattening to JSON text, and per-record dispatch.

pub mod dispatch;
pub mod fields;
pub mod flatten;
pub mod level;
pub mod target;
pub mod text;

pub use dispatch::{flatten_event, handle_record, parse_line_number, ForeignRecord, NativeEvent, RecordError};
pub use fields::{find_kv_args, is_reserved, KVSource};
pub use flatten::{flatten_fields, ConversionFailure, FieldValue, FlatFields};
pub use level::{get_level, Level};
pub use target::translate_target;
