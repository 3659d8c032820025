//! Typed command and notification model for a BLE brewing controller:
//! fixed-width command frames, notification records, stream reassembly
//! and the device session that ties them to a transport.

pub mod advert;
pub mod command;
pub mod digits;
pub mod notification;
pub mod reassembly;
pub mod recipe;
pub mod session;
pub mod temperature;
pub mod text;

pub use command::{COMMAND_LEN, Delay, GrainfatherCommand};
pub use temperature::Temperature;
pub use notification::{
    GrainfatherNotification, GrainfatherNotificationConvertError, InteractionCode, NOTIFICATION_LEN,
    Units, Voltage,
};
pub use reassembly::ReassemblyBuffer;
pub use advert::{EirEntry, Grainfather, GrainfatherConvertError, SERVICE_ID};
pub use recipe::Recipe;
pub use session::{
    CHARACTERISTIC_ID_READ, CHARACTERISTIC_ID_WRITE, Characteristic, GrainfatherClient,
    GrainfatherClientError, GrainfatherClientImpl, NotificationFeed, SessionState, decode_chunk,
    find_characteristic, resolve_characteristics,
};
