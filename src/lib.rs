//! A small file server core: directory listings that tolerate unreadable
//! entries, an activity clock, an idle watchdog that decides when the server
//! shuts itself down, and the reading of the server's configuration.

pub mod browse;
pub mod clock;
pub mod config;
pub mod error;
pub mod listing;
pub mod watchdog;

pub use browse::{browse_response, browse_response_at, requested_path, Browse};
pub use clock::ActivityClock;
pub use config::{config_from_args, port_from_arg, PortChoice, PortSource, ServerConfig, StartupFault};
pub use error::Error;
pub use listing::{
    collect_listing, resolve_listing, target_dir, DirectoryUnreadable, EntryFault, EntryProbe,
    File, Listing,
};
pub use watchdog::{IdleWatchdog, WatchAction, WatchState};
