use vstd::prelude::*;

use crate::directplay::{ConnectionView, DPCompoundAddressElement, DPLConnection};
use crate::guid::Guid;
use crate::launch::{
    address_elements, build_connection, copy_elements, spec_address_elements, spec_connection,
    LaunchError, LaunchStatus,
};
use crate::session::SessionInfo;

verus! {

/// What a launch needs from the user's choices once it has started.
#[derive(Debug)]
pub struct LaunchRequest {
    pub app_guid: Guid,
    pub sp_guid: Guid,
    pub session_name: String,
    pub player_name: String,
    pub host_session: bool,
    pub ip_address: String,
    pub phone_number: String,
}

/// The content of a `LaunchRequest`.
#[verifier::ext_equal]
pub struct RequestView {
    pub app_guid: Guid,
    pub sp_guid: Guid,
    pub session_name: Seq<char>,
    pub player_name: Seq<char>,
    pub host_session: bool,
    pub ip_address: Seq<char>,
    pub phone_number: Seq<char>,
}

impl View for LaunchRequest {
    type V = RequestView;

    open spec fn view(&self) -> RequestView {
        RequestView {
            app_guid: self.app_guid,
            sp_guid: self.sp_guid,
            session_name: self.session_name@,
            player_name: self.player_name@,
            host_session: self.host_session,
            ip_address: self.ip_address@,
            phone_number: self.phone_number@,
        }
    }
}

/// Where a launch stands: which lobby call it waits for, or how it ended.
#[derive(Debug)]
pub enum LaunchPhase {
    Idle,
    EnumeratingAddressTypes { request: LaunchRequest },
    ProbingAddressSize { request: LaunchRequest, elements: Vec<DPCompoundAddressElement> },
    CreatingAddress { request: LaunchRequest },
    RunningApplication,
    Finished { outcome: Result<(), LaunchError> },
}

/// The content of a `LaunchPhase`.
#[verifier::ext_equal]
pub enum PhaseView {
    Idle,
    EnumeratingAddressTypes(RequestView),
    ProbingAddressSize(RequestView, Seq<(Guid, Seq<u8>)>),
    CreatingAddress(RequestView),
    RunningApplication,
    Finished(Result<(), LaunchError>),
}

impl View for LaunchPhase {
    type V = PhaseView;

    open spec fn view(&self) -> PhaseView {
        match self {
            LaunchPhase::Idle => PhaseView::Idle,
            LaunchPhase::EnumeratingAddressTypes { request } => PhaseView::EnumeratingAddressTypes(request@),
            LaunchPhase::ProbingAddressSize { request, elements } => PhaseView::ProbingAddressSize(request@, elements.deep_view()),
            LaunchPhase::CreatingAddress { request } => PhaseView::CreatingAddress(request@),
            LaunchPhase::RunningApplication => PhaseView::RunningApplication,
            LaunchPhase::Finished { outcome } => PhaseView::Finished(*outcome),
        }
    }
}

/// The launcher: the phase of the current launch, and every address type
/// that the lobby has reported so far. The list is kept from one launch to
/// the next, and its first entry decides the kind of address.
#[derive(Debug)]
pub struct Launcher {
    pub phase: LaunchPhase,
    pub address_types: Vec<Guid>,
}

/// The content of a `Launcher`.
#[verifier::ext_equal]
pub struct LauncherView {
    pub phase: PhaseView,
    pub address_types: Seq<Guid>,
}

impl View for Launcher {
    type V = LauncherView;

    open spec fn view(&self) -> LauncherView {
        LauncherView { phase: self.phase@, address_types: self.address_types@ }
    }
}

/// What a lobby call that the launcher asked for gave back.
#[derive(Debug)]
pub enum LaunchEvent {
    /// The lobby enumerated the address types of the service provider,
    /// reporting `found` in order, and the call ended with `result`
    /// (an error carries the COM error code).
    AddressTypesEnumerated { found: Vec<Guid>, result: Result<(), i32> },
    /// The call that asks for the size of the compound address ended with
    /// `result` and reported `size`.
    AddressSizeProbed { result: Result<(), i32>, size: u32 },
    /// The call that builds the compound address ended with `result`, and
    /// the buffer held `address`.
    AddressCreated { result: Result<(), i32>, address: Vec<u8> },
    /// The call that runs the application ended with `result`.
    ApplicationRun { result: Result<(), i32> },
}

/// The content of a `LaunchEvent`.
#[verifier::ext_equal]
pub enum EventView {
    AddressTypesEnumerated(Seq<Guid>, Result<(), i32>),
    AddressSizeProbed(Result<(), i32>, u32),
    AddressCreated(Result<(), i32>, Seq<u8>),
    ApplicationRun(Result<(), i32>),
}

impl View for LaunchEvent {
    type V = EventView;

    open spec fn view(&self) -> EventView {
        match self {
            LaunchEvent::AddressTypesEnumerated { found, result } => EventView::AddressTypesEnumerated(found@, *result),
            LaunchEvent::AddressSizeProbed { result, size } => EventView::AddressSizeProbed(*result, *size),
            LaunchEvent::AddressCreated { result, address } => EventView::AddressCreated(*result, address@),
            LaunchEvent::ApplicationRun { result } => EventView::ApplicationRun(*result),
        }
    }
}

/// The next thing to do.
#[derive(Debug)]
pub enum LaunchCommand {
    /// Enumerate the address types of this service provider.
    EnumerateAddressTypes { guid_sp: Guid },
    /// Ask, with no buffer, how large the compound address of these elements is.
    ProbeAddressSize { elements: Vec<DPCompoundAddressElement> },
    /// Build the compound address of these elements in a buffer of `size` bytes.
    CreateAddress { elements: Vec<DPCompoundAddressElement>, size: u32 },
    /// Run the application with these connection settings.
    RunApplication { connection: DPLConnection },
    /// The launch is over, with this outcome.
    Finish { outcome: Result<(), LaunchError> },
    /// Nothing: the input did not fit the phase, which stays as it was.
    Wait,
}

/// The content of a `LaunchCommand`.
#[verifier::ext_equal]
pub enum CommandView {
    EnumerateAddressTypes(Guid),
    ProbeAddressSize(Seq<(Guid, Seq<u8>)>),
    CreateAddress(Seq<(Guid, Seq<u8>)>, u32),
    RunApplication(ConnectionView),
    Finish(Result<(), LaunchError>),
    Wait,
}

/// The next thing to do, and the status to show first, if it changes.
#[derive(Debug)]
pub struct LaunchAction {
    pub status: Option<LaunchStatus>,
    pub command: LaunchCommand,
}

/// The content of a `LaunchAction`.
#[verifier::ext_equal]
pub struct ActionView {
    pub status: Option<LaunchStatus>,
    pub command: CommandView,
}

impl View for LaunchAction {
    type V = ActionView;

    open spec fn view(&self) -> ActionView {
        ActionView {
            status: self.status,
            command: match &self.command {
                LaunchCommand::EnumerateAddressTypes { guid_sp } => CommandView::EnumerateAddressTypes(*guid_sp),
                LaunchCommand::ProbeAddressSize { elements } => CommandView::ProbeAddressSize(elements.deep_view()),
                LaunchCommand::CreateAddress { elements, size } => CommandView::CreateAddress(elements.deep_view(), *size),
                LaunchCommand::RunApplication { connection } => CommandView::RunApplication(connection@),
                LaunchCommand::Finish { outcome } => CommandView::Finish(*outcome),
                LaunchCommand::Wait => CommandView::Wait,
            },
        }
    }
}

/// A launch is under way: the launcher waits for a lobby call.
pub open spec fn in_progress(phase: PhaseView) -> bool {
    ||| phase is EnumeratingAddressTypes
    ||| phase is ProbingAddressSize
    ||| phase is CreatingAddress
    ||| phase is RunningApplication
}

/// End the launch with `outcome`: a successful launch shows "launch
/// successful"; a failed one changes no status here (the failure is handed
/// back, and whoever started the launch reports it).
pub open spec fn finish(l: LauncherView, outcome: Result<(), LaunchError>) -> (LauncherView, ActionView) {
    (
        LauncherView { phase: PhaseView::Finished(outcome), address_types: l.address_types },
        ActionView {
            status: if outcome is Ok { Some(LaunchStatus::Launched) } else { None },
            command: CommandView::Finish(outcome),
        },
    )
}

/// Leave the launcher as it is and do nothing.
pub open spec fn wait(l: LauncherView) -> (LauncherView, ActionView) {
    (l, ActionView { status: None, command: CommandView::Wait })
}

/// Starting a launch from the user's choices and the address fields: ignored
/// while a launch is under way; otherwise it fails when no service provider,
/// then when no application is selected, and else shows "launching" and asks
/// for the address types of the selected service provider.
pub open spec fn spec_start(l: LauncherView, session: SessionInfo, ip_address: Seq<char>, phone_number: Seq<char>) -> (LauncherView, ActionView) {
    if in_progress(l.phase) {
        wait(l)
    } else {
        match session.selected_service_provider {
            None => finish(l, Err(LaunchError::NoServiceProviderSelected)),
            Some(sp) => match session.selected_app {
                None => finish(l, Err(LaunchError::NoApplicationSelected)),
                Some(app) => (
                    LauncherView {
                        phase: PhaseView::EnumeratingAddressTypes(RequestView {
                            app_guid: app.app_guid,
                            sp_guid: sp.sp_guid,
                            session_name: session.session_name@,
                            player_name: session.player_name@,
                            host_session: session.host_session,
                            ip_address,
                            phone_number,
                        }),
                        address_types: l.address_types,
                    },
                    ActionView {
                        status: Some(LaunchStatus::Launching),
                        command: CommandView::EnumerateAddressTypes(sp.sp_guid),
                    },
                ),
            },
        }
    }
}

/// Taking in what a lobby call gave back:
/// - address types: they are appended to the list; a failed call ends the
///   launch; else the first type of the whole list picks the compound
///   address, whose size is asked for next (or the launch fails when the
///   list is empty or no address can be made);
/// - size probe: a probe that succeeds ends the launch in failure; one that
///   fails, as it must, leads to building the address with the size reported;
/// - address built: a failure ends the launch, else the application is run
///   with the connection settings of the request and that address;
/// - application run: the launch ends, with the call's outcome.
/// Anything that does not fit the phase is ignored.
pub open spec fn spec_step(l: LauncherView, event: EventView) -> (LauncherView, ActionView) {
    match (l.phase, event) {
        (PhaseView::EnumeratingAddressTypes(request), EventView::AddressTypesEnumerated(found, result)) => {
            let types = l.address_types + found;
            let listed = LauncherView { phase: l.phase, address_types: types };
            match result {
                Err(code) => finish(listed, Err(LaunchError::Com(code))),
                Ok(_) => if types.len() == 0 {
                    finish(listed, Err(LaunchError::NoAddressTypes))
                } else {
                    match spec_address_elements(types[0], request.sp_guid, request.ip_address, request.phone_number) {
                        Err(e) => finish(listed, Err(e)),
                        Ok(elements) => (
                            LauncherView { phase: PhaseView::ProbingAddressSize(request, elements), address_types: types },
                            ActionView { status: None, command: CommandView::ProbeAddressSize(elements) },
                        ),
                    }
                },
            }
        },
        (PhaseView::ProbingAddressSize(request, elements), EventView::AddressSizeProbed(result, size)) => {
            match result {
                Ok(_) => finish(l, Err(LaunchError::AddressSizeProbeSucceeded)),
                Err(_) => (
                    LauncherView { phase: PhaseView::CreatingAddress(request), address_types: l.address_types },
                    ActionView { status: None, command: CommandView::CreateAddress(elements, size) },
                ),
            }
        },
        (PhaseView::CreatingAddress(request), EventView::AddressCreated(result, address)) => {
            match result {
                Err(code) => finish(l, Err(LaunchError::Com(code))),
                Ok(_) => (
                    LauncherView { phase: PhaseView::RunningApplication, address_types: l.address_types },
                    ActionView {
                        status: None,
                        command: CommandView::RunApplication(spec_connection(request.app_guid, request.sp_guid, address,
                            request.session_name, request.player_name, request.host_session)),
                    },
                ),
            }
        },
        (PhaseView::RunningApplication, EventView::ApplicationRun(result)) => {
            match result {
                Err(code) => finish(l, Err(LaunchError::Com(code))),
                Ok(_) => finish(l, Ok(())),
            }
        },
        _ => wait(l),
    }
}

impl Launcher {
    /// A launcher that has not launched anything and knows no address type.
    pub fn new() -> (launcher: Launcher)
        ensures
            launcher@.phase == PhaseView::Idle,
            launcher@.address_types == Seq::<Guid>::empty(),
    {
        Launcher { phase: LaunchPhase::Idle, address_types: Vec::new() }
    }

    /// End the launch with `outcome` (see `finish`).
    fn finish_with(&mut self, outcome: Result<(), LaunchError>) -> (action: LaunchAction)
        ensures
            (final(self)@, action@) == finish(old(self)@, outcome),
    {
        self.phase = LaunchPhase::Finished { outcome };
        let status = match outcome {
            Ok(_) => Some(LaunchStatus::Launched),
            Err(_) => None,
        };
        LaunchAction { status, command: LaunchCommand::Finish { outcome } }
    }

    /// Starts a launch (see `spec_start`).
    pub fn start(&mut self, session: &SessionInfo, ip_address: String, phone_number: String) -> (action: LaunchAction)
        ensures
            (final(self)@, action@) == spec_start(old(self)@, *session, ip_address@, phone_number@),
    {
        let busy = match &self.phase {
            LaunchPhase::EnumeratingAddressTypes { .. } => true,
            LaunchPhase::ProbingAddressSize { .. } => true,
            LaunchPhase::CreatingAddress { .. } => true,
            LaunchPhase::RunningApplication => true,
            _ => false,
        };
        if busy {
            return LaunchAction { status: None, command: LaunchCommand::Wait };
        }
        let sp_guid = match &session.selected_service_provider {
            Some(sp) => sp.sp_guid,
            None => {
                return self.finish_with(Err(LaunchError::NoServiceProviderSelected));
            },
        };
        let app_guid = match &session.selected_app {
            Some(app) => app.app_guid,
            None => {
                return self.finish_with(Err(LaunchError::NoApplicationSelected));
            },
        };
        let request = LaunchRequest {
            app_guid,
            sp_guid,
            session_name: session.session_name.clone(),
            player_name: session.player_name.clone(),
            host_session: session.host_session,
            ip_address,
            phone_number,
        };
        self.phase = LaunchPhase::EnumeratingAddressTypes { request };
        LaunchAction {
            status: Some(LaunchStatus::Launching),
            command: LaunchCommand::EnumerateAddressTypes { guid_sp: sp_guid },
        }
    }

    /// Takes in what a lobby call gave back (see `spec_step`).
    pub fn step(&mut self, event: LaunchEvent) -> (action: LaunchAction)
        ensures
            (final(self)@, action@) == spec_step(old(self)@, event@),
    {
        let mut phase = LaunchPhase::Idle;
        std::mem::swap(&mut phase, &mut self.phase);
        match (phase, event) {
            (LaunchPhase::EnumeratingAddressTypes { request }, LaunchEvent::AddressTypesEnumerated { found, result }) => {
                let ghost before = self.address_types@;
                let n = found.len();
                let mut i: usize = 0;
                while i < n
                    invariant
                        n == found@.len(),
                        i <= n,
                        self.address_types@ =~= before + found@.take(i as int),
                    decreases n - i,
                {
                    self.address_types.push(found[i]);
                    i += 1;
                    assert(self.address_types@ =~= before + found@.take(i as int));
                }
                assert(found@.take(n as int) =~= found@);
                match result {
                    Err(code) => self.finish_with(Err(LaunchError::Com(code))),
                    Ok(_) => {
                        if self.address_types.len() == 0 {
                            return self.finish_with(Err(LaunchError::NoAddressTypes));
                        }
                        let first = self.address_types[0];
                        match address_elements(first, request.sp_guid, request.ip_address.as_str(), request.phone_number.as_str()) {
                            Err(e) => self.finish_with(Err(e)),
                            Ok(elements) => {
                                let sent = copy_elements(&elements);
                                self.phase = LaunchPhase::ProbingAddressSize { request, elements };
                                LaunchAction { status: None, command: LaunchCommand::ProbeAddressSize { elements: sent } }
                            },
                        }
                    },
                }
            },
            (LaunchPhase::ProbingAddressSize { request, elements }, LaunchEvent::AddressSizeProbed { result, size }) => {
                match result {
                    Ok(_) => self.finish_with(Err(LaunchError::AddressSizeProbeSucceeded)),
                    Err(_) => {
                        self.phase = LaunchPhase::CreatingAddress { request };
                        LaunchAction { status: None, command: LaunchCommand::CreateAddress { elements, size } }
                    },
                }
            },
            (LaunchPhase::CreatingAddress { request }, LaunchEvent::AddressCreated { result, address }) => {
                match result {
                    Err(code) => self.finish_with(Err(LaunchError::Com(code))),
                    Ok(_) => {
                        let connection = build_connection(request.app_guid, request.sp_guid, address,
                            request.session_name.as_str(), request.player_name.as_str(), request.host_session);
                        self.phase = LaunchPhase::RunningApplication;
                        LaunchAction { status: None, command: LaunchCommand::RunApplication { connection } }
                    },
                }
            },
            (LaunchPhase::RunningApplication, LaunchEvent::ApplicationRun { result }) => {
                match result {
                    Err(code) => self.finish_with(Err(LaunchError::Com(code))),
                    Ok(_) => self.finish_with(Ok(())),
                }
            },
            (other, _) => {
                self.phase = other;
                LaunchAction { status: None, command: LaunchCommand::Wait }
            },
        }
    }
}


/// A failed enumeration of address types ends the launch with the lobby's
/// error code at once, whatever address types are already known and whatever
/// the lobby reported before failing; no further lobby call is asked for.
pub proof fn lemma_failed_enumeration_ends_launch(l: LauncherView, request: RequestView, found: Seq<Guid>, code: i32)
    requires
        l.phase == PhaseView::EnumeratingAddressTypes(request),
    ensures
        ({
            let (next, action) = spec_step(l, EventView::AddressTypesEnumerated(found, Err(code)));
            &&& action.command == CommandView::Finish(Err(LaunchError::Com(code)))
            &&& action.status is None
            &&& next.phase == PhaseView::Finished(Err(LaunchError::Com(code)))
            &&& next.address_types == l.address_types + found
        }),
{
}

/// A failed build of the compound address ends the launch with the lobby's
/// error code, whatever the buffer holds; the application is not run.
pub proof fn lemma_failed_address_build_ends_launch(l: LauncherView, request: RequestView, address: Seq<u8>, code: i32)
    requires
        l.phase == PhaseView::CreatingAddress(request),
    ensures
        ({
            let (next, action) = spec_step(l, EventView::AddressCreated(Err(code), address));
            &&& action.command == CommandView::Finish(Err(LaunchError::Com(code)))
            &&& action.status is None
            &&& next.phase == PhaseView::Finished(Err(LaunchError::Com(code)))
            &&& next.address_types == l.address_types
        }),
{
}

/// No lobby call that fails leads to another lobby call: an enumeration,
/// address build or application run that answers with an error code is
/// either out of turn (and changes nothing) or ends the launch with exactly
/// that code. (The size probe is the one call that is meant to fail.)
pub proof fn lemma_failed_calls_never_go_on(l: LauncherView, event: EventView, code: i32)
    requires
        (event matches EventView::AddressTypesEnumerated(_, Err(c)) && c == code)
            || (event matches EventView::AddressCreated(Err(c), _) && c == code)
            || (event matches EventView::ApplicationRun(Err(c)) && c == code),
    ensures
        ({
            let (next, action) = spec_step(l, event);
            ||| action.command == CommandView::Wait && next == l
            ||| action.command == CommandView::Finish(Err(LaunchError::Com(code)))
                && next.phase == PhaseView::Finished(Err(LaunchError::Com(code)))
        }),
{
}

/// How far a launch has come: each lobby call that is answered moves it on.
pub open spec fn phase_rank(phase: PhaseView) -> int {
    match phase {
        PhaseView::Idle => 0,
        PhaseView::EnumeratingAddressTypes(_) => 1,
        PhaseView::ProbingAddressSize(_, _) => 2,
        PhaseView::CreatingAddress(_) => 3,
        PhaseView::RunningApplication => 4,
        PhaseView::Finished(_) => 5,
    }
}

/// The address types that the lobby has reported are never forgotten:
/// starting a launch keeps the list, and every answer only appends to it.
pub proof fn lemma_address_types_only_grow(l: LauncherView, event: EventView, session: SessionInfo, ip_address: Seq<char>, phone_number: Seq<char>)
    ensures
        spec_start(l, session, ip_address, phone_number).0.address_types == l.address_types,
        l.address_types.is_prefix_of(spec_step(l, event).0.address_types),
{
}

/// The status shown always matches the outcome: "launch successful" exactly
/// when the launch ends well, "launching" exactly when a launch starts, and
/// nothing else (a failure, in particular, shows no status of the launcher's
/// own); an ended launch keeps its outcome.
pub proof fn lemma_status_reports_outcome(l: LauncherView, event: EventView, session: SessionInfo, ip_address: Seq<char>, phone_number: Seq<char>)
    ensures
        ({
            let (next, action) = spec_step(l, event);
            &&& (action.status == Some(LaunchStatus::Launched)) == (action.command == CommandView::Finish(Ok(())))
            &&& action.status is Some ==> action.status == Some(LaunchStatus::Launched)
            &&& action.command matches CommandView::Finish(outcome) ==> next.phase == PhaseView::Finished(outcome)
        }),
        ({
            let (next, action) = spec_start(l, session, ip_address, phone_number);
            &&& (action.status == Some(LaunchStatus::Launching)) == (action.command is EnumerateAddressTypes)
            &&& action.status is Some ==> action.status == Some(LaunchStatus::Launching)
            &&& action.command matches CommandView::Finish(outcome) ==> next.phase == PhaseView::Finished(outcome)
        }),
{
}

/// An answer that does not fit the phase changes nothing, and every answer
/// that fits moves the launch strictly on; so a launch takes in at most four
/// answers before it ends.
pub proof fn lemma_answers_move_launch_on(l: LauncherView, event: EventView)
    ensures
        spec_step(l, event).1.command == CommandView::Wait ==> spec_step(l, event).0 == l,
        spec_step(l, event).1.command != CommandView::Wait ==> phase_rank(spec_step(l, event).0.phase) > phase_rank(l.phase),
        spec_step(l, event).1.command != CommandView::Wait ==> in_progress(l.phase),
{
}

/// Once some address type is known, the first one known decides the address
/// of every later launch, whatever the lobby reports next.
pub proof fn lemma_first_address_type_decides(l: LauncherView, request: RequestView, found: Seq<Guid>)
    requires
        l.phase == PhaseView::EnumeratingAddressTypes(request),
        l.address_types.len() > 0,
    ensures
        spec_step(l, EventView::AddressTypesEnumerated(found, Ok(()))).1.command == match spec_address_elements(
            l.address_types[0], request.sp_guid, request.ip_address, request.phone_number) {
            Ok(elements) => CommandView::ProbeAddressSize(elements),
            Err(e) => CommandView::Finish(Err(e)),
        },
{
    assert((l.address_types + found)[0] == l.address_types[0]);
}

/// A launch whose lobby calls behave succeeds: once the user has chosen a
/// service provider and an application, and the first known address type
/// gives an address, the launcher asks for the address types, probes the
/// address size with the address elements, builds the address with the size
/// reported, runs the application with the connection settings of the
/// user's choices and that address, and ends with "launch successful".
/// Had the last call failed, it would end in that call's failure, with no
/// further status shown.
pub proof fn lemma_launch_succeeds(
    l: LauncherView,
    session: SessionInfo,
    ip_address: Seq<char>,
    phone_number: Seq<char>,
    found: Seq<Guid>,
    probe_code: i32,
    size: u32,
    address: Seq<u8>,
    run_code: i32,
)
    requires
        !in_progress(l.phase),
        session.selected_service_provider is Some,
        session.selected_app is Some,
        (l.address_types + found).len() > 0,
        spec_address_elements((l.address_types + found)[0], session.selected_service_provider->0.sp_guid,
            ip_address, phone_number) is Ok,
    ensures
        ({
            let sp = session.selected_service_provider->0;
            let app = session.selected_app->0;
            let elements = spec_address_elements((l.address_types + found)[0], sp.sp_guid, ip_address, phone_number)->Ok_0;
            let (l1, a1) = spec_start(l, session, ip_address, phone_number);
            let (l2, a2) = spec_step(l1, EventView::AddressTypesEnumerated(found, Ok(())));
            let (l3, a3) = spec_step(l2, EventView::AddressSizeProbed(Err(probe_code), size));
            let (l4, a4) = spec_step(l3, EventView::AddressCreated(Ok(()), address));
            let (l5, a5) = spec_step(l4, EventView::ApplicationRun(Ok(())));
            let (l6, a6) = spec_step(l4, EventView::ApplicationRun(Err(run_code)));
            &&& a1 == ActionView { status: Some(LaunchStatus::Launching), command: CommandView::EnumerateAddressTypes(sp.sp_guid) }
            &&& a2 == ActionView { status: None, command: CommandView::ProbeAddressSize(elements) }
            &&& a3 == ActionView { status: None, command: CommandView::CreateAddress(elements, size) }
            &&& a4 == ActionView {
                status: None,
                command: CommandView::RunApplication(spec_connection(app.app_guid, sp.sp_guid, address,
                    session.session_name@, session.player_name@, session.host_session)),
            }
            &&& a5 == ActionView { status: Some(LaunchStatus::Launched), command: CommandView::Finish(Ok(())) }
            &&& l5.phase == PhaseView::Finished(Ok(()))
            &&& l5.address_types == l.address_types + found
            &&& a6 == ActionView { status: None, command: CommandView::Finish(Err(LaunchError::Com(run_code))) }
        }),
{
}

} // verus!
