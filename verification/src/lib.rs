//! Session-aware relay core: rooms bridge one byte-stream producer to many
//! message-stream subscribers.  The library holds the room state machine —
//! the fan-out buffer with lag-drop, the bounded fan-in queue, the handshake
//! cache, and the Identify interception policy — together with the packet
//! scanner and the room registry.  Transport loops live outside the library
//! and drive these transitions.

pub mod ascii;
pub mod fanout;
pub mod inbound;
pub mod registry;
pub mod room;
pub mod room_id;
pub mod scan;
