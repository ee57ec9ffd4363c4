use vstd::prelude::*;

use crate::batch::{
    bytes_batch_result, is_batch_run, meta_batch_result, BatchRead, EventModel, Packet,
};
use crate::error::SessionError;

verus! {

/// Read timeout of a freshly opened session, in milliseconds.
pub const DEFAULT_TIMEOUT_MS: i32 = 1000;

/// Most bytes captured of each frame.
pub const SNAPLEN: i32 = 262144;

/// Size of the kernel capture buffer, in bytes.
pub const BUFFER_SIZE: i32 = 4 * 1024 * 1024;

/// The parameters a handle is opened with.
///
/// A timeout of zero or less is passed to the engine unchanged; what it means
/// (most engines: block until a packet arrives) is the engine's to decide.
#[derive(Clone, Copy, Debug, PartialEq, Eq)]
pub struct CaptureConfig {
    /// Receive frames not addressed to this host.
    pub promisc: bool,
    /// Hand each frame to the reader as soon as it arrives.
    pub immediate: bool,
    /// Read timeout, in milliseconds.
    pub timeout_ms: i32,
    /// Most bytes captured of each frame.
    pub snaplen: i32,
    /// Size of the kernel capture buffer, in bytes.
    pub buffer_size: i32,
}

impl CaptureConfig {
    /// Snapshot length and buffer size are positive.
    pub open spec fn wf(&self) -> bool {
        self.snaplen > 0 && self.buffer_size > 0
    }

    /// The value of `with_timeout`.
    pub open spec fn with_timeout_spec(timeout_ms: i32) -> CaptureConfig {
        CaptureConfig {
            promisc: true,
            immediate: true,
            timeout_ms,
            snaplen: SNAPLEN,
            buffer_size: BUFFER_SIZE,
        }
    }

    /// The session's standard parameters with the given read timeout:
    /// promiscuous, immediate delivery, full snapshot length.
    pub fn with_timeout(timeout_ms: i32) -> (r: CaptureConfig)
        ensures
            r.wf(),
            r.promisc,
            r.immediate,
            r.timeout_ms == timeout_ms,
            r.snaplen == SNAPLEN,
            r.buffer_size == BUFFER_SIZE,
            r == CaptureConfig::with_timeout_spec(timeout_ms),
    {
        CaptureConfig {
            promisc: true,
            immediate: true,
            timeout_ms,
            snaplen: SNAPLEN,
            buffer_size: BUFFER_SIZE,
        }
    }
}

/// The views of a list of interface names.
pub open spec fn names_of(names: Seq<String>) -> Seq<Seq<char>> {
    names.map_values(|s: String| s@)
}

/// The position of the first interface whose name is exactly `interface`.
pub fn find_device(names: &Vec<String>, interface: &str) -> (r: Option<usize>)
    ensures
        r is None <==> !names_of(names@).contains(interface@),
        r is Some ==> r->Some_0 < names@.len() && names@[r->Some_0 as int]@ == interface@
            && forall|j: int| 0 <= j < r->Some_0 ==> (#[trigger] names@[j])@ != interface@,
{
    let wanted = interface.to_owned();
    let mut i: usize = 0;
    while i < names.len()
        invariant
            i <= names@.len(),
            wanted@ == interface@,
            forall|j: int| 0 <= j < i ==> (#[trigger] names@[j])@ != interface@,
        decreases names@.len() - i,
    {
        if names[i] == wanted {
            proof {
                assert(names_of(names@)[i as int] == interface@);
            }
            return Some(i);
        }
        i = i + 1;
    }
    proof {
        if names_of(names@).contains(interface@) {
            let k = choose|k: int| 0 <= k < names_of(names@).len() && names_of(names@)[k] == interface@;
            assert(names@[k]@ == interface@);
        }
    }
    None
}

/// A capture session: at most one live engine handle of type `H`, with the
/// interface, filter and parameters it was opened with.
///
/// The session is open while it holds a handle and closed once it holds none;
/// every operation on a closed session fails with `SessionClosed`. One owner
/// drives a session: reads and reconfigurations are not meant to be issued
/// concurrently against it.
pub struct Sniffer<H> {
    cap: Option<H>,
    interface: String,
    filter: Option<String>,
    config: CaptureConfig,
    nonblocking: bool,
}

/// The view of an optional filter expression.
pub open spec fn filter_view(filter: Option<&str>) -> Option<Seq<char>> {
    match filter {
        Some(f) => Some(f@),
        None => None,
    }
}

/// `e` carries the engine's `cause`.
pub open spec fn carries(e: SessionError, cause: Seq<char>) -> bool {
    match e {
        SessionError::Enumeration(m) => m@ == cause,
        SessionError::DeviceNotFound(m) => m@ == cause,
        SessionError::Open(m) => m@ == cause,
        SessionError::Filter(m) => m@ == cause,
        SessionError::Reconfigure(m) => m@ == cause,
        SessionError::Capture(m) => m@ == cause,
        SessionError::Stats(m) => m@ == cause,
        SessionError::SessionClosed => false,
    }
}

/// `r` is the session that opening with `config` gives when the handle's
/// open reported `opened` and, for a given `filter`, its installation
/// reported `filtered`.
pub open spec fn opens_as<H>(
    r: Result<Sniffer<H>, SessionError>,
    interface: Seq<char>,
    filter: Option<Seq<char>>,
    config: CaptureConfig,
    opened: Result<H, String>,
    filtered: Result<(), String>,
) -> bool {
    if opened is Err {
        r is Err && r->Err_0 is Open && carries(r->Err_0, opened->Err_0@)
    } else if filter is Some && filtered is Err {
        r is Err && r->Err_0 is Filter && carries(r->Err_0, filtered->Err_0@)
    } else {
        &&& r is Ok
        &&& r->Ok_0.is_open()
        &&& r->Ok_0.handle() == Some(opened->Ok_0)
        &&& r->Ok_0.interface_spec() == interface
        &&& r->Ok_0.filter_spec() == filter
        &&& r->Ok_0.config_spec() == config
        &&& !r->Ok_0.nonblocking_spec()
        &&& r->Ok_0.wf()
    }
}

/// `before` became `after`, with result `r`, by swapping in the session that
/// opening gives (see `opens_as`), or stayed as it was on failure.
pub open spec fn reopens_as<H>(
    r: Result<(), SessionError>,
    before: Sniffer<H>,
    after: Sniffer<H>,
    interface: Seq<char>,
    filter: Option<Seq<char>>,
    config: CaptureConfig,
    opened: Result<H, String>,
    filtered: Result<(), String>,
) -> bool {
    if opened is Err {
        r is Err && r->Err_0 is Open && carries(r->Err_0, opened->Err_0@) && after == before
    } else if filter is Some && filtered is Err {
        r is Err && r->Err_0 is Filter && carries(r->Err_0, filtered->Err_0@) && after == before
    } else {
        &&& r is Ok
        &&& after.is_open()
        &&& after.handle() == Some(opened->Ok_0)
        &&& after.interface_spec() == interface
        &&& after.filter_spec() == filter
        &&& after.config_spec() == config
        &&& !after.nonblocking_spec()
        &&& after.wf()
    }
}

impl<H> Sniffer<H> {
    /// The session holds a live handle.
    pub open spec fn is_open(&self) -> bool {
        self.handle() is Some
    }

    /// The live handle, if any.
    pub closed spec fn handle(&self) -> Option<H> {
        self.cap
    }

    /// The name of the interface the session was opened on.
    pub closed spec fn interface_spec(&self) -> Seq<char> {
        self.interface@
    }

    /// The filter expression installed on the handle, if any.
    pub closed spec fn filter_spec(&self) -> Option<Seq<char>> {
        match self.filter {
            Some(f) => Some(f@),
            None => None,
        }
    }

    /// The parameters the handle was opened with.
    pub closed spec fn config_spec(&self) -> CaptureConfig {
        self.config
    }

    /// The handle was switched to non-blocking reads.
    pub closed spec fn nonblocking_spec(&self) -> bool {
        self.nonblocking
    }

    /// Lists the host's interfaces from the engine's listing, in the engine's
    /// order, or fails with `Enumeration` carrying the engine's cause.
    pub fn list_devices(listing: Result<Vec<String>, String>) -> (r: Result<Vec<String>, SessionError>)
        ensures
            listing is Ok ==> r is Ok && r->Ok_0 == listing->Ok_0,
            listing is Err ==> r is Err && r->Err_0 is Enumeration
                && carries(r->Err_0, listing->Err_0@),
    {
        match listing {
            Ok(names) => Ok(names),
            Err(m) => Err(SessionError::Enumeration(m)),
        }
    }

    /// The name of the device to open for `interface`, looked up by exact
    /// name in the engine's listing. There is no fallback to another device.
    pub fn resolve_device(listing: Result<Vec<String>, String>, interface: &str) -> (r: Result<String, SessionError>)
        ensures
            listing is Err ==> r is Err && r->Err_0 is Enumeration
                && carries(r->Err_0, listing->Err_0@),
            listing is Ok && !names_of(listing->Ok_0@).contains(interface@) ==> r is Err
                && r->Err_0 is DeviceNotFound && carries(r->Err_0, interface@),
            listing is Ok && names_of(listing->Ok_0@).contains(interface@) ==> r is Ok
                && r->Ok_0@ == interface@,
    {
        match listing {
            Err(m) => Err(SessionError::Enumeration(m)),
            Ok(names) => match find_device(&names, interface) {
                Some(_) => Ok(interface.to_owned()),
                None => Err(SessionError::DeviceNotFound(interface.to_owned())),
            },
        }
    }

    /// The session made from the outcome of opening a handle with `config`
    /// and, when `filter` is given, of installing it on that handle.
    fn establish(
        interface: &str,
        filter: Option<&str>,
        config: CaptureConfig,
        opened: Result<H, String>,
        filtered: Result<(), String>,
    ) -> (r: Result<Sniffer<H>, SessionError>)
        requires
            config.wf(),
        ensures
            opens_as(r, interface@, filter_view(filter), config, opened, filtered),
    {
        match opened {
            Err(m) => Err(SessionError::Open(m)),
            Ok(h) => {
                let kept = match filter {
                    Some(f) => match filtered {
                        Err(m) => {
                            return Err(SessionError::Filter(m));
                        },
                        Ok(()) => Some(f.to_owned()),
                    },
                    None => None,
                };
                Ok(Sniffer {
                    cap: Some(h),
                    interface: interface.to_owned(),
                    filter: kept,
                    config,
                    nonblocking: false,
                })
            },
        }
    }

    /// Opens a session on the interface named exactly `interface`.
    ///
    /// `listing` is the engine's list of interfaces. Only when it lists
    /// `interface` is `open` called, with that name; it opens a handle with
    /// `config`, installs `filter` on it when one is given, and reports both
    /// outcomes. There is no fallback to another device: an unlisted name
    /// fails with `DeviceNotFound`, a failed listing with `Enumeration`, and
    /// a failed open or filter with `Open` or `Filter`. No session exists
    /// after a failure.
    pub fn new<F: FnOnce(&str) -> (Result<H, String>, Result<(), String>)>(
        interface: &str,
        filter: Option<&str>,
        config: CaptureConfig,
        listing: Result<Vec<String>, String>,
        open: F,
    ) -> (r: Result<Sniffer<H>, SessionError>)
        requires
            config.wf(),
            open.requires((interface,)),
        ensures
            listing is Err ==> r is Err && r->Err_0 is Enumeration
                && carries(r->Err_0, listing->Err_0@),
            listing is Ok && !names_of(listing->Ok_0@).contains(interface@) ==> r is Err
                && r->Err_0 is DeviceNotFound && carries(r->Err_0, interface@),
            listing is Ok && names_of(listing->Ok_0@).contains(interface@) ==>
                exists|o: (Result<H, String>, Result<(), String>)| #[trigger] open.ensures((interface,), o)
                    && opens_as(r, interface@, filter_view(filter), config, o.0, o.1),
    {
        match Sniffer::<H>::resolve_device(listing, interface) {
            Err(e) => Err(e),
            Ok(_) => {
                let o = open(interface);
                let r = Sniffer::establish(interface, filter, config, o.0, o.1);
                assert(open.ensures((interface,), o));
                r
            },
        }
    }

    /// The session's parameters are well formed.
    pub closed spec fn wf(&self) -> bool {
        self.config.wf()
    }

    /// The one guard of every operation: `Ok` exactly when a handle is held.
    pub fn ensure_open(&self) -> (r: Result<(), SessionError>)
        ensures
            r is Ok <==> self.is_open(),
            r is Err ==> r->Err_0 is SessionClosed,
    {
        match &self.cap {
            Some(_) => Ok(()),
            None => Err(SessionError::SessionClosed),
        }
    }

    /// Lends the live handle, for one engine call.
    pub fn handle_mut(&mut self) -> (r: Option<&mut H>)
        ensures
            r is Some <==> old(self).is_open(),
            r is Some ==> Some(*r->Some_0) == old(self).handle(),
            r is Some ==> final(self).handle() == Some(*final(r->Some_0)),
            r is None ==> final(self).handle() == old(self).handle(),
            final(self).interface_spec() == old(self).interface_spec(),
            final(self).filter_spec() == old(self).filter_spec(),
            final(self).config_spec() == old(self).config_spec(),
            final(self).nonblocking_spec() == old(self).nonblocking_spec(),
    {
        match &mut self.cap {
            Some(h) => Some(h),
            None => None,
        }
    }

    /// Replaces the session's handle by one on the interface named exactly
    /// `interface`, opened with the standard parameters and `timeout_ms` and
    /// filtered with `filter`, as `new` does with `listing` and `open`.
    ///
    /// The new handle is swapped in only once it is fully configured and
    /// filtered. On any failure the session is left exactly as it was, open
    /// or closed; on success it is open, whatever it was before.
    pub fn reopen_with_timeout<F: FnOnce(&str) -> (Result<H, String>, Result<(), String>)>(
        &mut self,
        interface: &str,
        filter: Option<&str>,
        timeout_ms: i32,
        listing: Result<Vec<String>, String>,
        open: F,
    ) -> (r: Result<(), SessionError>)
        requires
            open.requires((interface,)),
        ensures
            listing is Err ==> r is Err && r->Err_0 is Enumeration
                && carries(r->Err_0, listing->Err_0@),
            listing is Ok && !names_of(listing->Ok_0@).contains(interface@) ==> r is Err
                && r->Err_0 is DeviceNotFound && carries(r->Err_0, interface@),
            listing is Ok && names_of(listing->Ok_0@).contains(interface@) ==>
                exists|o: (Result<H, String>, Result<(), String>)| #[trigger] open.ensures((interface,), o)
                    && reopens_as(r, *old(self), *final(self), interface@, filter_view(filter),
                        CaptureConfig::with_timeout_spec(timeout_ms), o.0, o.1),
            r is Err ==> *final(self) == *old(self),
    {
        let config = CaptureConfig::with_timeout(timeout_ms);
        match Sniffer::new(interface, filter, config, listing, open) {
            Ok(fresh) => {
                *self = fresh;
                Ok(())
            },
            Err(e) => Err(e),
        }
    }

    /// Gives up the handle; every later operation fails with `SessionClosed`.
    pub fn close(&mut self)
        ensures
            !final(self).is_open(),
            final(self).interface_spec() == old(self).interface_spec(),
            final(self).filter_spec() == old(self).filter_spec(),
            final(self).config_spec() == old(self).config_spec(),
    {
        self.cap = None;
    }

    /// The engine's counters (received, dropped by the buffer, dropped by the
    /// interface) from `counters`, the outcome of asking the live handle.
    pub fn stats(&self, counters: Result<(u32, u32, u32), String>) -> (r: Result<(u32, u32, u32), SessionError>)
        ensures
            !self.is_open() ==> r is Err && r->Err_0 is SessionClosed,
            self.is_open() && counters is Ok ==> r is Ok && r->Ok_0 == counters->Ok_0,
            self.is_open() && counters is Err ==> r is Err && r->Err_0 is Stats
                && carries(r->Err_0, counters->Err_0@),
    {
        match self.ensure_open() {
            Err(e) => Err(e),
            Ok(()) => match counters {
                Ok(c) => Ok(c),
                Err(m) => Err(SessionError::Stats(m)),
            },
        }
    }

    /// Records `expr` as the installed filter, from `installed`, the outcome
    /// of installing it on the live handle. A rejected expression fails with
    /// `Filter` and leaves the session as it was, previous filter included.
    pub fn set_filter(&mut self, expr: &str, installed: Result<(), String>) -> (r: Result<(), SessionError>)
        ensures
            !old(self).is_open() ==> r is Err && r->Err_0 is SessionClosed,
            old(self).is_open() && installed is Err ==> r is Err && r->Err_0 is Filter
                && carries(r->Err_0, installed->Err_0@),
            old(self).is_open() && installed is Ok ==> r is Ok && final(self).filter_spec() == Some(expr@),
            r is Err ==> *final(self) == *old(self),
            final(self).handle() == old(self).handle(),
            final(self).interface_spec() == old(self).interface_spec(),
            final(self).config_spec() == old(self).config_spec(),
            final(self).nonblocking_spec() == old(self).nonblocking_spec(),
            final(self).wf() == old(self).wf(),
    {
        match self.ensure_open() {
            Err(e) => Err(e),
            Ok(()) => match installed {
                Err(m) => Err(SessionError::Filter(m)),
                Ok(()) => {
                    self.filter = Some(expr.to_owned());
                    Ok(())
                },
            },
        }
    }

    /// Switches the session to non-blocking reads. `switched` is a fresh
    /// handle, opened on the session's interface with its parameters,
    /// filtered with its filter and switched to non-blocking mode, or the
    /// cause of the first of these steps that failed.
    ///
    /// The fresh handle is swapped in only on success: a failure is a
    /// `Reconfigure` error and leaves the session as it was, still open.
    pub fn set_nonblock(&mut self, switched: Result<H, String>) -> (r: Result<(), SessionError>)
        ensures
            !old(self).is_open() ==> r is Err && r->Err_0 is SessionClosed,
            old(self).is_open() && switched is Err ==> r is Err && r->Err_0 is Reconfigure
                && carries(r->Err_0, switched->Err_0@),
            old(self).is_open() && switched is Ok ==> r is Ok
                && final(self).handle() == Some(switched->Ok_0)
                && final(self).nonblocking_spec(),
            r is Err ==> *final(self) == *old(self),
            final(self).is_open() == old(self).is_open(),
            final(self).interface_spec() == old(self).interface_spec(),
            final(self).filter_spec() == old(self).filter_spec(),
            final(self).config_spec() == old(self).config_spec(),
            final(self).wf() == old(self).wf(),
    {
        match self.ensure_open() {
            Err(e) => Err(e),
            Ok(()) => match switched {
                Err(m) => Err(SessionError::Reconfigure(m)),
                Ok(h) => {
                    self.cap = Some(h);
                    self.nonblocking = true;
                    Ok(())
                },
            },
        }
    }

    /// Changes the read timeout to `ms` from `opened`, a handle opened afresh
    /// on the session's interface with the new timeout (and switched to
    /// non-blocking mode when the session is), and `filtered`, the outcome of
    /// installing the session's filter on it. The new handle is swapped in
    /// only on success; a failure is a `Reconfigure` error and leaves the
    /// session as it was. Only the timeout changes: interface, filter and
    /// blocking mode stay.
    pub fn set_timeout(
        &mut self,
        ms: i32,
        opened: Result<H, String>,
        filtered: Result<(), String>,
    ) -> (r: Result<(), SessionError>)
        ensures
            !old(self).is_open() ==> r is Err && r->Err_0 is SessionClosed,
            old(self).is_open() && opened is Err ==> r is Err && r->Err_0 is Reconfigure
                && carries(r->Err_0, opened->Err_0@),
            old(self).is_open() && opened is Ok && old(self).filter_spec() is Some && filtered is Err
                ==> r is Err && r->Err_0 is Reconfigure && carries(r->Err_0, filtered->Err_0@),
            old(self).is_open() && opened is Ok && (old(self).filter_spec() is None || filtered is Ok)
                ==> r is Ok && final(self).handle() == Some(opened->Ok_0)
                && final(self).config_spec() == (CaptureConfig { timeout_ms: ms, ..old(self).config_spec() }),
            r is Err ==> *final(self) == *old(self),
            final(self).is_open() == old(self).is_open(),
            final(self).interface_spec() == old(self).interface_spec(),
            final(self).filter_spec() == old(self).filter_spec(),
            final(self).nonblocking_spec() == old(self).nonblocking_spec(),
            final(self).wf() == old(self).wf(),
    {
        match self.ensure_open() {
            Err(e) => Err(e),
            Ok(()) => match opened {
                Err(m) => Err(SessionError::Reconfigure(m)),
                Ok(h) => {
                    if self.filter.is_some() {
                        if let Err(m) = filtered {
                            return Err(SessionError::Reconfigure(m));
                        }
                    }
                    self.cap = Some(h);
                    self.config.timeout_ms = ms;
                    Ok(())
                },
            },
        }
    }

    /// A batch of at most `batch_size` reads on the live handle. The caller
    /// reads while the batch wants more, then finishes it with `next_batch`
    /// or `next_batch_meta`. A batch of size zero wants no read at all.
    pub fn begin_batch(&self, batch_size: usize) -> (r: Result<BatchRead, SessionError>)
        ensures
            !self.is_open() ==> r is Err && r->Err_0 is SessionClosed,
            self.is_open() ==> r is Ok && r->Ok_0.wf() && r->Ok_0.limit() == batch_size
                && r->Ok_0.events() == Seq::<EventModel>::empty(),
    {
        match self.ensure_open() {
            Err(e) => Err(e),
            Ok(()) => Ok(BatchRead::new(batch_size)),
        }
    }

    /// The finished batch as raw bytes: the packets delivered before a
    /// timeout or the batch size ended it, in capture order; or, when a read
    /// failed, a `Capture` error and no packets at all.
    pub fn next_batch(&self, batch: BatchRead) -> (r: Result<Vec<Vec<u8>>, SessionError>)
        requires
            batch.wf(),
            !batch.wants_more_spec(),
        ensures
            !self.is_open() ==> r is Err && r->Err_0 is SessionClosed,
            self.is_open() ==> is_batch_run(batch.events(), batch.limit())
                && bytes_batch_result(r, batch.events()),
    {
        match self.ensure_open() {
            Err(e) => Err(e),
            Ok(()) => batch.finish(),
        }
    }

    /// The finished batch with each packet's timestamp and lengths; the same
    /// packets, order and failures as `next_batch`.
    pub fn next_batch_meta(&self, batch: BatchRead) -> (r: Result<Vec<Packet>, SessionError>)
        requires
            batch.wf(),
            !batch.wants_more_spec(),
        ensures
            !self.is_open() ==> r is Err && r->Err_0 is SessionClosed,
            self.is_open() ==> is_batch_run(batch.events(), batch.limit())
                && meta_batch_result(r, batch.events()),
    {
        match self.ensure_open() {
            Err(e) => Err(e),
            Ok(()) => batch.finish_meta(),
        }
    }

    /// The interface the session was opened on.
    pub fn interface(&self) -> (r: &str)
        ensures
            r@ == self.interface_spec(),
    {
        self.interface.as_str()
    }

    /// The filter expression installed on the handle, if any.
    pub fn filter(&self) -> (r: Option<&str>)
        ensures
            filter_view(r) == self.filter_spec(),
    {
        match &self.filter {
            Some(f) => Some(f.as_str()),
            None => None,
        }
    }

    /// The parameters the handle was opened with.
    pub fn config(&self) -> (r: CaptureConfig)
        ensures
            r == self.config_spec(),
    {
        self.config
    }

    /// Whether the session holds a live handle.
    pub fn is_live(&self) -> (r: bool)
        ensures
            r == self.is_open(),
    {
        self.cap.is_some()
    }

    /// Whether the handle was switched to non-blocking reads.
    pub fn is_nonblocking(&self) -> (r: bool)
        ensures
            r == self.nonblocking_spec(),
    {
        self.nonblocking
    }
}

} // verus!
