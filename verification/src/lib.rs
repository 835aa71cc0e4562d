//! A portable model of a host's IP routing table: route entries, the native
//! row layout they are marshalled to, kernel change notifications, and a
//! manager that keeps a cached snapshot of the table consistent with them.

pub mod addr;
pub mod cache;
pub mod error;
pub mod manager;
pub mod native;
pub mod operator;
pub mod route;
pub mod text;

pub use addr::IpAddr;
pub use addr::Ipv4Addr;
pub use addr::Ipv6Addr;
pub use cache::RouteEvent;
pub use error::code_to_error;
pub use error::ErrorKind;
pub use error::RouteError;
pub use manager::ManagerError;
pub use manager::RouteManager;
pub use native::NativeRow;
pub use native::SockAddr;
pub use route::Route;
