//! Bindings to the connection entry points of CoreGraphics Services, the
//! private framework under the macOS window server.
//!
//! Each function forwards one call. Its contract says that what comes back is
//! what the entry point answers to exactly the arguments that went in: see
//! [`cgs_connection`].

#![allow(non_camel_case_types)]
#![allow(non_upper_case_globals)]

pub mod cg_error;
pub mod cgs_connection;

pub use cg_error::CGError;
pub use cgs_connection::{
    connection_get_pid, copy_connection_property, default_connection_for_thread, disable_update,
    get_connection_id_for_psn, kCGSNullConnectionID, main_connection_id, menu_bar_exists,
    new_connection, new_connection_notification_proc, pid_t, reenable_update,
    register_for_connection_death_notification, release_connection,
    remove_connection_death_notification, remove_new_connection_notification,
    set_connection_property, set_login_window_connection, set_other_universal_connection,
    set_universal_owner, shutdown_server_connections, CGSConnectionID, ProcessSerialNumber,
};
