//! Driver core for a capacitive touch controller spoken to over a packetized
//! HID transport. The library holds the protocol logic itself: report frame
//! construction and parsing, chunked register reads and writes, object-table
//! bootstrap, typed configuration-object decoding, and the diagnostic
//! heatmap pipeline. The transport (raw HID report exchange), JSON views of
//! decoded objects and PNG containers live outside, in the surrounding
//! application: it performs each exchange and hands the bytes back, while
//! every frame that goes out and every decision about what comes back is
//! made, and proved, here.

pub mod chunk;
pub mod error;
pub mod frame;
pub mod heatmap;
pub mod objects;
pub mod session;
pub mod table;

pub use chunk::{ReadTransaction, WriteTransaction};
pub use error::MtError;
pub use frame::{SubCommand, WireCommand, CHUNK_CAPACITY, REPORT_LENGTH};
pub use heatmap::{HeatmapSweep, PixelGrid};
pub use objects::{
    DecodedObject, T100MultipleTouchTouchscreen, T42TouchSupression, T46CteConfig,
    T47ProciStylus, T56Shieldless, T65LensBending, T6CommandProcessor,
    T80RetransmissionCompensation, T7PowerConfig, T8AcquisitionConfig,
};
pub use session::Session;
pub use table::{Bootstrap, InformationBlock, ObjectDetails, ObjectTable, ObjectTableElement};
