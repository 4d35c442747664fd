//! A software-defined firewall core: packet header parsing, bounded rule
//! tables, the ingress classifier, the egress observer and the control plane
//! that mutates the tables.
pub mod control;
pub mod filter;
pub mod ip_addr;
pub mod packet;
pub mod port_range;
pub mod table;

pub use control::{Ack, AddrTable, ApiError, ApiResult, ControlApi, RuleConfig};
pub use filter::{Action, Policy, RuleStore};
pub use ip_addr::IpV4Addr;
pub use packet::{parse_frame, PacketHeader, Parsed};
pub use port_range::PortRange;
pub use table::{RuleTable, TableError};
