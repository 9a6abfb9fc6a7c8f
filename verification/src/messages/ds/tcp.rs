//! The tags of the TCP channel, under the name of the channel.

pub use super::{GameData, JoystickDescriptor, MatchInfo, Tag, TcpTag};
