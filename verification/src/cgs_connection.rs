//! Connections to the window server.
//!
//! Every application talks to the window server through a connection, named by
//! a [`CGSConnectionID`]. The functions here are the typed front of the
//! connection entry points of the CoreGraphics Services framework: one function
//! per entry point, each of which hands its arguments to the entry point as they
//! are and hands the answer back as it is.
//!
//! The entry point itself is the last parameter of each function, `symbol`. The
//! contracts are stated over it: a function's result is an answer that `symbol`
//! gives to exactly the arguments the function was called with. `symbol` is an
//! `FnOnce`, so a function can ask it once and no more, and only by asking can
//! it meet its contract. Nothing here keeps state, validates an identifier or
//! reads a status code.
//!
//! Where the framework writes through an output slot, the function takes the
//! slot as `&mut` and `symbol` takes the slot's content before the call and
//! answers with the status and the slot's content after it.

use vstd::prelude::*;
use crate::cg_error::CGError;
use core_foundation::base::CFTypeRef;
use core_foundation::string::CFStringRef;

verus! {

/// `core_foundation::string::__CFString`, the object behind a `CFStringRef`.
///
/// Declared so that a `CFStringRef` can pass through a signature. Nothing is
/// claimed of what it holds.
#[verifier::external_type_specification]
#[verifier::external_body]
pub struct ExCFString(core_foundation::string::__CFString);

/// `core::ffi::c_void`, the object behind a `CFTypeRef`.
///
/// Declared so that a `CFTypeRef` can pass through a signature. Nothing is
/// claimed of what it holds.
#[verifier::external_type_specification]
#[verifier::external_body]
pub struct ExCVoid(core::ffi::c_void);

/// The name of a connection to the window server.
///
/// A signed 32-bit integer, as the framework's headers declare it. The window
/// server issues these and no value is checked here; `kCGSNullConnectionID`
/// names no connection.
pub type CGSConnectionID = i32;

/// A process identifier, as the operating system counts processes.
pub type pid_t = libc::pid_t;

/// The identifier that names no connection.
pub const kCGSNullConnectionID: CGSConnectionID = 0;

/// The legacy record that identifies a running process by two 32-bit halves.
pub struct ProcessSerialNumber {
    pub high_long_of_psn: u32,
    pub low_long_of_psn: u32,
}

/// Asks for the connection of the calling process.
///
/// `symbol` is `CGSMainConnectionID`.
pub fn main_connection_id<F: FnOnce() -> CGSConnectionID>(symbol: F) -> (cid: CGSConnectionID)
    requires
        symbol.requires(()),
    ensures
        symbol.ensures((), cid),
{
    symbol()
}

/// Asked twice through an entry point that has one answer only,
/// `main_connection_id` gives the same identifier both times.
pub proof fn main_connection_id_repeats<F: FnOnce() -> CGSConnectionID>(
    symbol: F,
    first: CGSConnectionID,
    second: CGSConnectionID,
)
    requires
        forall|a: CGSConnectionID, b: CGSConnectionID|
            symbol.ensures((), a) && symbol.ensures((), b) ==> a == b,
        symbol.ensures((), first),
        symbol.ensures((), second),
    ensures
        first == second,
{
}

/// Opens a new connection to the window server and leaves its identifier in
/// `out_connection`.
///
/// `symbol` is `CGSNewConnection`: it takes `unused` and the slot's content
/// and answers with the status and the slot's new content.
pub fn new_connection<F: FnOnce(i32, CGSConnectionID) -> (CGError, CGSConnectionID)>(
    unused: i32,
    out_connection: &mut CGSConnectionID,
    symbol: F,
) -> (status: CGError)
    requires
        symbol.requires((unused, *old(out_connection))),
    ensures
        symbol.ensures((unused, *old(out_connection)), (status, *final(out_connection))),
{
    let (status, connection): (CGError, CGSConnectionID) = symbol(unused, *out_connection);
    *out_connection = connection;
    status
}

/// Closes a connection, and with it every window the connection owns.
///
/// `symbol` is `CGSReleaseConnection`.
pub fn release_connection<F: FnOnce(CGSConnectionID) -> CGError>(
    cid: CGSConnectionID,
    symbol: F,
) -> (status: CGError)
    requires
        symbol.requires((cid,)),
    ensures
        symbol.ensures((cid,), status),
{
    symbol(cid)
}

/// Asks for the connection of the calling thread.
///
/// `symbol` is `CGSDefaultConnectionForThread`.
pub fn default_connection_for_thread<F: FnOnce() -> CGSConnectionID>(
    symbol: F,
) -> (cid: CGSConnectionID)
    requires
        symbol.requires(()),
    ensures
        symbol.ensures((), cid),
{
    symbol()
}

/// Asks which process owns a connection and leaves its identifier in `out_pid`.
///
/// `symbol` is `CGSConnectionGetPID`: it takes `cid` and the slot's content
/// and answers with the status and the slot's new content.
pub fn connection_get_pid<F: FnOnce(CGSConnectionID, pid_t) -> (CGError, pid_t)>(
    cid: CGSConnectionID,
    out_pid: &mut pid_t,
    symbol: F,
) -> (status: CGError)
    requires
        symbol.requires((cid, *old(out_pid))),
    ensures
        symbol.ensures((cid, *old(out_pid)), (status, *final(out_pid))),
{
    let (status, pid): (CGError, pid_t) = symbol(cid, *out_pid);
    *out_pid = pid;
    status
}

/// Asks which connection belongs to the process that `psn` identifies and
/// leaves its identifier in `out_owner_cid`.
///
/// `symbol` is `CGSGetConnectionIDForPSN`: it takes `cid`, the record and the
/// slot's content and answers with the status and the slot's new content.
pub fn get_connection_id_for_psn<
    F: FnOnce(CGSConnectionID, &ProcessSerialNumber, CGSConnectionID) -> (CGError, CGSConnectionID),
>(
    cid: CGSConnectionID,
    psn: &ProcessSerialNumber,
    out_owner_cid: &mut CGSConnectionID,
    symbol: F,
) -> (status: CGError)
    requires
        symbol.requires((cid, psn, *old(out_owner_cid))),
    ensures
        symbol.ensures((cid, psn, *old(out_owner_cid)), (status, *final(out_owner_cid))),
{
    let (status, owner): (CGError, CGSConnectionID) = symbol(cid, psn, *out_owner_cid);
    *out_owner_cid = owner;
    status
}

/// Asks whether the menu bar exists for a connection.
///
/// `symbol` is `CGSMenuBarExists`.
pub fn menu_bar_exists<F: FnOnce(CGSConnectionID) -> bool>(
    cid: CGSConnectionID,
    symbol: F,
) -> (exists: bool)
    requires
        symbol.requires((cid,)),
    ensures
        symbol.ensures((cid,), exists),
{
    symbol(cid)
}

/// Closes every connection that the calling application holds.
///
/// `symbol` is `CGSShutdownServerConnections`.
pub fn shutdown_server_connections<F: FnOnce() -> CGError>(symbol: F) -> (status: CGError)
    requires
        symbol.requires(()),
    ensures
        symbol.ensures((), status),
{
    symbol()
}

/// Reads the value that `target_cid` holds under `key` and leaves it in
/// `out_value`.
///
/// `symbol` is `CGSCopyConnectionProperty`: it takes the two connections, the
/// key and the slot's content and answers with the status and the slot's new
/// content.
pub fn copy_connection_property<
    F: FnOnce(CGSConnectionID, CGSConnectionID, CFStringRef, CFTypeRef) -> (CGError, CFTypeRef),
>(
    cid: CGSConnectionID,
    target_cid: CGSConnectionID,
    key: CFStringRef,
    out_value: &mut CFTypeRef,
    symbol: F,
) -> (status: CGError)
    requires
        symbol.requires((cid, target_cid, key, *old(out_value))),
    ensures
        symbol.ensures((cid, target_cid, key, *old(out_value)), (status, *final(out_value))),
{
    let (status, value): (CGError, CFTypeRef) = symbol(cid, target_cid, key, *out_value);
    *out_value = value;
    status
}

/// Stores `value` under `key` on `target_cid`.
///
/// `symbol` is `CGSSetConnectionProperty`.
pub fn set_connection_property<
    F: FnOnce(CGSConnectionID, CGSConnectionID, CFStringRef, CFTypeRef) -> CGError,
>(
    cid: CGSConnectionID,
    target_cid: CGSConnectionID,
    key: CFStringRef,
    value: CFTypeRef,
    symbol: F,
) -> (status: CGError)
    requires
        symbol.requires((cid, target_cid, key, value)),
    ensures
        symbol.ensures((cid, target_cid, key, value), status),
{
    symbol(cid, target_cid, key, value)
}

/// Stops screen updates for a connection. Each call asks the window server
/// once; calls nest, and `reenable_update` undoes one of them. The window
/// server turns updates back on by itself after one second; nothing here
/// counts calls or waits.
///
/// `symbol` is `CGSDisableUpdate`.
pub fn disable_update<F: FnOnce(CGSConnectionID) -> CGError>(
    cid: CGSConnectionID,
    symbol: F,
) -> (status: CGError)
    requires
        symbol.requires((cid,)),
    ensures
        symbol.ensures((cid,), status),
{
    symbol(cid)
}

/// Undoes one `disable_update` for a connection.
///
/// `symbol` is `CGSReenableUpdate`.
pub fn reenable_update<F: FnOnce(CGSConnectionID) -> CGError>(
    cid: CGSConnectionID,
    symbol: F,
) -> (status: CGError)
    requires
        symbol.requires((cid,)),
    ensures
        symbol.ensures((cid,), status),
{
    symbol(cid)
}

/// Registers `proc` to be told when the window server creates a connection
/// for this application.
///
/// `symbol` is `CGSRegisterForNewConnectionNotification`. The callback is
/// handed over and never called from here.
pub fn new_connection_notification_proc<P, F: FnOnce(P) -> CGError>(
    proc: P,
    symbol: F,
) -> (status: CGError)
    requires
        symbol.requires((proc,)),
    ensures
        symbol.ensures((proc,), status),
{
    symbol(proc)
}

/// Takes back a callback that was registered for new connections.
///
/// `symbol` is `CGSRemoveNewConnectionNotification`.
pub fn remove_new_connection_notification<P, F: FnOnce(P) -> CGError>(
    proc: P,
    symbol: F,
) -> (status: CGError)
    requires
        symbol.requires((proc,)),
    ensures
        symbol.ensures((proc,), status),
{
    symbol(proc)
}

/// Registers `proc` to be told when a connection of this application is
/// destroyed.
///
/// `symbol` is `CGSRegisterForConnectionDeathNotification`. The callback is
/// handed over and never called from here.
pub fn register_for_connection_death_notification<P, F: FnOnce(P) -> CGError>(
    proc: P,
    symbol: F,
) -> (status: CGError)
    requires
        symbol.requires((proc,)),
    ensures
        symbol.ensures((proc,), status),
{
    symbol(proc)
}

/// Takes back a callback that was registered for the death of connections.
///
/// `symbol` is `CGSRemoveConnectionDeathNotification`.
pub fn remove_connection_death_notification<P, F: FnOnce(P) -> CGError>(
    proc: P,
    symbol: F,
) -> (status: CGError)
    requires
        symbol.requires((proc,)),
    ensures
        symbol.ensures((proc,), status),
{
    symbol(proc)
}

/// Makes `cid` the universal owner: the connection that is given control over
/// the windows of the others.
///
/// `symbol` is `CGSSetUniversalOwner`.
pub fn set_universal_owner<F: FnOnce(CGSConnectionID) -> CGError>(
    cid: CGSConnectionID,
    symbol: F,
) -> (status: CGError)
    requires
        symbol.requires((cid,)),
    ensures
        symbol.ensures((cid,), status),
{
    symbol(cid)
}

/// Lets the universal owner `cid` share its hold on the application's windows
/// with `other_connection`.
///
/// `symbol` is `CGSSetOtherUniversalConnection`.
pub fn set_other_universal_connection<F: FnOnce(CGSConnectionID, CGSConnectionID) -> CGError>(
    cid: CGSConnectionID,
    other_connection: CGSConnectionID,
    symbol: F,
) -> (status: CGError)
    requires
        symbol.requires((cid, other_connection)),
    ensures
        symbol.ensures((cid, other_connection), status),
{
    symbol(cid, other_connection)
}

/// Makes `cid` the connection of the login window.
///
/// `symbol` is `CGSSetLoginwindowConnection`.
pub fn set_login_window_connection<F: FnOnce(CGSConnectionID) -> CGError>(
    cid: CGSConnectionID,
    symbol: F,
) -> (status: CGError)
    requires
        symbol.requires((cid,)),
    ensures
        symbol.ensures((cid,), status),
{
    symbol(cid)
}

} // verus!
