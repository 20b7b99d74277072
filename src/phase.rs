//! The phase-gated system handle and the lifecycle of the process-wide
//! helpers (diagnostic output and memory allocation).
use vstd::prelude::*;

use crate::status::{Error, Result};

verus! {

/// A 128-bit protocol identifier in its defining byte order.
#[derive(Clone, Copy, Debug, PartialEq, Eq)]
pub struct Guid(pub [u8; 16]);

/// The bytes that identify the packet network protocol.
pub open spec fn simple_network_guid_bytes() -> Seq<u8> {
    seq![
        0xa1u8, 0x98u8, 0x32u8, 0xb9u8, 0xacu8, 0x25u8, 0x11u8, 0xd3u8,
        0x9au8, 0x2du8, 0x00u8, 0x90u8, 0x27u8, 0x3fu8, 0xc1u8, 0x4du8,
    ]
}

/// The identifier of the packet network protocol.
pub fn simple_network_guid() -> (r: Guid)
    ensures
        r.0@ == simple_network_guid_bytes(),
{
    let r = Guid(
        [
            0xa1, 0x98, 0x32, 0xb9, 0xac, 0x25, 0x11, 0xd3, 0x9a, 0x2d, 0x00, 0x90, 0x27, 0x3f, 0xc1,
            0x4d,
        ],
    );
    assert(r.0@ =~= simple_network_guid_bytes());
    r
}

/// Whether two identifiers hold the same bytes.
pub fn guid_eq(a: &Guid, b: &Guid) -> (r: bool)
    ensures
        r == (a.0@ == b.0@),
{
    let mut i: usize = 0;
    while i < 16
        invariant
            i <= 16,
            forall|k: int| 0 <= k < i ==> a.0@[k] == b.0@[k],
        decreases 16 - i,
    {
        if a.0[i] != b.0[i] {
            return false;
        }
        i = i + 1;
    }
    assert(a.0@ =~= b.0@);
    true
}

/// The firmware epoch: boot services are available before the exit and
/// gone for good after it.
#[derive(Clone, Copy, Debug, PartialEq, Eq, Structural)]
pub enum Phase {
    /// Boot services are available.
    PreExit,
    /// Boot services have been exited.
    PostExit,
}

/// The handle on the system table, tagged with the phase it was obtained in.
#[derive(Debug)]
pub struct SystemTable {
    phase: Phase,
}

/// A request to locate and open a protocol by its identifier.
#[derive(Clone, Copy, Debug)]
pub struct OpenProtocol {
    /// The identifier of the protocol to open.
    pub guid: Guid,
}

impl SystemTable {
    /// The phase the handle belongs to.
    pub closed spec fn phase_view(&self) -> Phase {
        self.phase
    }

    /// The handle the application receives at entry, while boot services
    /// are available.
    pub fn boot() -> (r: Self)
        ensures
            r.phase_view() == Phase::PreExit,
    {
        SystemTable { phase: Phase::PreExit }
    }

    /// The phase the handle belongs to.
    pub fn phase(&self) -> (r: Phase)
        ensures
            r == self.phase_view(),
    {
        self.phase
    }

    /// Prepares the opening of a protocol. Only a handle of the boot phase
    /// may open protocols; after the exit the request is refused.
    pub fn open_protocol(&self, guid: &Guid) -> (r: Result<OpenProtocol>)
        ensures
            self.phase_view() == Phase::PreExit ==> r == Ok::<OpenProtocol, Error>(
                OpenProtocol { guid: *guid },
            ),
            self.phase_view() == Phase::PostExit ==> r == Err::<OpenProtocol, Error>(
                Error::Unavailable,
            ),
    {
        match self.phase {
            Phase::PreExit => Ok(OpenProtocol { guid: *guid }),
            Phase::PostExit => Err(Error::Unavailable),
        }
    }

    /// Leaves the boot phase: the helpers are told first, then the handle is
    /// given up for one of the runtime phase.
    pub fn exit_boot_services(self, helpers: &mut Helpers) -> (r: SystemTable)
        ensures
            r.phase_view() == Phase::PostExit,
            final(helpers).view() == old(helpers).view().exited(),
    {
        exit(helpers);
        SystemTable { phase: Phase::PostExit }
    }
}

/// What the helper context holds: which helpers are built in, whether they
/// were set up, and the phase they last saw.
pub struct HelpersView {
    /// The logger is built in.
    pub logger: bool,
    /// The allocator is built in.
    pub allocator: bool,
    /// The debug channel is present on this machine.
    pub debugcon: bool,
    /// `init` has run.
    pub initialized: bool,
    /// The phase the helpers last saw.
    pub phase: Phase,
}

impl HelpersView {
    /// The context after `init`.
    pub open spec fn initialized(self) -> HelpersView {
        HelpersView { initialized: true, ..self }
    }

    /// The context after `exit`.
    pub open spec fn exited(self) -> HelpersView {
        HelpersView { phase: Phase::PostExit, ..self }
    }

    /// Log records go to the firmware's text output.
    pub open spec fn logs_to_console(self) -> bool {
        self.logger && self.initialized && self.phase == Phase::PreExit
    }

    /// Log records go to the debug channel, which outlives boot services.
    pub open spec fn logs_to_debugcon(self) -> bool {
        self.logger && self.debugcon && self.initialized
    }

    /// Allocations are served by the firmware's memory services.
    pub open spec fn allocates(self) -> bool {
        self.allocator && self.initialized && self.phase == Phase::PreExit
    }

    /// The system table can be handed out.
    pub open spec fn table_available(self) -> bool {
        self.initialized && self.phase == Phase::PreExit
    }
}

/// The process-wide helper context: diagnostic output and memory allocation,
/// tied to the phase of boot services.
#[derive(Debug)]
pub struct Helpers {
    logger: bool,
    allocator: bool,
    debugcon: bool,
    initialized: bool,
    phase: Phase,
}

impl Helpers {
    /// The context's state.
    pub closed spec fn view(&self) -> HelpersView {
        HelpersView {
            logger: self.logger,
            allocator: self.allocator,
            debugcon: self.debugcon,
            initialized: self.initialized,
            phase: self.phase,
        }
    }

    /// A context with the given helpers built in, not yet set up, in the
    /// boot phase.
    pub fn new(logger: bool, allocator: bool, debugcon: bool) -> (r: Self)
        ensures
            r.view() == (HelpersView {
                logger,
                allocator,
                debugcon,
                initialized: false,
                phase: Phase::PreExit,
            }),
    {
        Helpers { logger, allocator, debugcon, initialized: false, phase: Phase::PreExit }
    }

    /// Whether log records go to the firmware's text output.
    pub fn logs_to_console(&self) -> (r: bool)
        ensures
            r == self.view().logs_to_console(),
    {
        self.logger && self.initialized && self.phase == Phase::PreExit
    }

    /// Whether log records go to the debug channel.
    pub fn logs_to_debugcon(&self) -> (r: bool)
        ensures
            r == self.view().logs_to_debugcon(),
    {
        self.logger && self.debugcon && self.initialized
    }

    /// Whether allocations are served by the firmware.
    pub fn allocates(&self) -> (r: bool)
        ensures
            r == self.view().allocates(),
    {
        self.allocator && self.initialized && self.phase == Phase::PreExit
    }

    /// The phase the context last saw.
    pub fn phase(&self) -> (r: Phase)
        ensures
            r == self.view().phase,
    {
        self.phase
    }
}

/// Sets up the built-in helpers against the system table. Calling it again
/// changes nothing.
pub fn init(helpers: &mut Helpers, st: &SystemTable) -> (r: Result<()>)
    ensures
        st.phase_view() == Phase::PreExit ==> r == Ok::<(), Error>(()) && final(helpers).view()
            == old(helpers).view().initialized(),
        st.phase_view() == Phase::PostExit ==> r == Err::<(), Error>(Error::Unavailable)
            && final(helpers).view() == old(helpers).view(),
{
    match st.phase() {
        Phase::PreExit => {
            helpers.initialized = true;
            Ok(())
        },
        Phase::PostExit => Err(Error::Unavailable),
    }
}

/// Tears the boot-phase helpers down before boot services go away: output
/// to the firmware console stops and allocation through the firmware
/// stops; the debug channel stays. Calling it again changes nothing.
pub fn exit(helpers: &mut Helpers)
    ensures
        final(helpers).view() == old(helpers).view().exited(),
{
    helpers.phase = Phase::PostExit;
}

/// The system table handle, while boot services are available and the
/// helpers were set up.
pub fn system_table(helpers: &Helpers) -> (r: Result<SystemTable>)
    ensures
        helpers.view().table_available() ==> r is Ok && r->Ok_0.phase_view() == Phase::PreExit,
        !helpers.view().table_available() ==> r is Err && r->Err_0 == Error::Unavailable,
{
    if helpers.initialized && helpers.phase == Phase::PreExit {
        Ok(SystemTable::boot())
    } else {
        Err(Error::Unavailable)
    }
}

/// After the exit the system table is no longer handed out (so no protocol
/// can be opened through it), neither the console nor the allocator is used, while the debug channel keeps working as before;
/// exiting twice is the same as exiting once, and setting up twice the same
/// as setting up once.
pub proof fn lemma_exit_is_final(h: HelpersView)
    ensures
        !h.exited().table_available(),
        !h.exited().logs_to_console(),
        !h.exited().allocates(),
        h.exited().logs_to_debugcon() == h.logs_to_debugcon(),
        h.exited().exited() == h.exited(),
        h.initialized().initialized() == h.initialized(),
        h.exited().initialized().table_available() == false,
{
}

} // verus!
