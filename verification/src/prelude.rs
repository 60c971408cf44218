//! The types that most users of the library start from.

pub use crate::cia::Cia;
pub use crate::firm::Firm;
pub use crate::hb3dsx::Hb3dsx;
pub use crate::ncch::Ncch;
pub use crate::smdh::Smdh;
pub use crate::ticket::Ticket;
pub use crate::FromBytes;
