//! The runtime lifecycle adapter.
//!
//! The host dispatcher drives a runtime through a fixed set of entry points.
//! For each of them the adapter decides, from what is known of the external
//! process, whether its function table is to be invoked and with what
//! marshaled arguments, and afterwards what the outcome of the invocation
//! means to the host. The invocation itself is the caller's: it crosses the
//! process boundary.

use vstd::prelude::*;
use vstd::utf8::*;

use crate::errors::decode_spec;
use crate::errors::CompletionCode;
use crate::errors::ExecutionError;
use crate::errors::ExecutionErrorView;
use crate::errors::ProtocolViolation;
use crate::errors::PythonRuntimeResult;
use crate::host::ArtifactId;
use crate::host::ArtifactProtobufSpec;
use crate::host::CallInfo;
use crate::host::ExecutionContext;
use crate::host::InstanceDescriptor;
use crate::host::InstanceSpec;
use crate::host::StateHashAggregator;
use crate::merkledb_interface::binary_data::BinaryData;
use crate::pending_deployment::PendingDeployment;
use crate::python_interface::started;
use crate::python_interface::PythonRuntimeInterface;
use crate::types::nul_free_chars;
use crate::types::RawArtifactId;
use crate::types::RawArtifactProtobufSpec;
use crate::types::RawCallInfo;
use crate::types::RawExecutionContext;
use crate::types::RawIndexAccess;
use crate::types::RawInstanceDescriptor;
use crate::types::RawInstanceSpec;
use crate::types::RawStateHashAggregator;

verus! {

/// Identifier of this runtime among the host's runtimes.
pub const PYTHON_RUNTIME_ID: u32 = 2;

/// One invocation of the external function table, with its arguments in
/// boundary form.
#[derive(Debug)]
pub enum PythonCall<F, S> {
    DeployArtifact { artifact: RawArtifactId, spec: BinaryData },
    IsArtifactDeployed { artifact: RawArtifactId },
    StartService { spec: RawInstanceSpec },
    InitializeService {
        access: RawIndexAccess<F, S>,
        descriptor: RawInstanceDescriptor,
        parameters: BinaryData,
    },
    StopService { descriptor: RawInstanceDescriptor },
    Execute { context: RawExecutionContext<F, S>, call_info: RawCallInfo, payload: BinaryData },
    ArtifactProtobufSpec { artifact: RawArtifactId },
    StateHashes { access: RawIndexAccess<F, S> },
    BeforeCommit { access: RawIndexAccess<F, S> },
    AfterCommit { access: RawIndexAccess<F, S> },
}

/// What an entry point asks of its caller: to invoke the function table
/// `methods` with `call`, or nothing, the result being known already.
#[derive(Debug)]
pub enum Dispatch<'a, M, F, S, R> {
    Call { methods: &'a M, call: PythonCall<F, S> },
    Done(R),
}

/// How an invocation of the function table ended.
#[derive(Debug)]
pub enum CallOutcome<T> {
    /// The external process answered.
    Returned(T),
    /// The invocation failed hard: the external process is gone.
    Crashed,
}

/// What stands between an entry point and the function table: nothing, or
/// the status that is reported in place of a call.
pub open spec fn obstacle<M>(alive: bool, registered: Option<M>) -> Option<CompletionCode> {
    if !alive {
        Some(CompletionCode::RuntimeDead)
    } else if registered is None {
        Some(CompletionCode::RuntimeNotReady)
    } else {
        None
    }
}

/// What a status outcome means to the host.
pub open spec fn status_meaning(outcome: CallOutcome<u8>) -> Option<ExecutionErrorView> {
    match outcome {
        CallOutcome::Crashed => Some(CompletionCode::RuntimeDead.error()),
        CallOutcome::Returned(status) => if status == 0 {
            None
        } else {
            Some(decode_spec(status).error())
        },
    }
}

/// A resource that the external process allocated for an out-parameter. It
/// has to be released exactly once.
#[derive(Debug)]
pub struct ForeignResource {
    released: bool,
}

impl ForeignResource {
    /// Whether the resource has been released.
    pub closed spec fn is_released(&self) -> bool {
        self.released
    }

    /// A resource that was just handed over, not yet released.
    pub fn acquired() -> (resource: ForeignResource)
        ensures
            !resource.is_released(),
    {
        ForeignResource { released: false }
    }

    /// Marks the resource as released. The first call succeeds, and tells the
    /// caller to invoke the release callback; every later call is a breach of
    /// the protocol.
    pub fn release(&mut self) -> (r: Result<(), ProtocolViolation>)
        ensures
            final(self).is_released(),
            r is Ok <==> !old(self).is_released(),
            r matches Err(e) ==> e == ProtocolViolation::DoubleFree,
    {
        if self.released {
            Err(ProtocolViolation::DoubleFree)
        } else {
            self.released = true;
            Ok(())
        }
    }
}

/// A value read from an out-parameter, with the resource to release for it
/// where the external process had allocated one.
#[derive(Debug)]
pub struct Released<T> {
    pub value: T,
    pub resource: Option<ForeignResource>,
}

/// What `after_commit` asks of its caller.
#[derive(Debug)]
pub struct AfterCommit<'a, A, M, F, S> {
    /// The API context to take the current snapshot from, if there is one.
    pub refresh_snapshot: Option<&'a A>,
    /// The call to make.
    pub dispatch: Dispatch<'a, M, F, S, ()>,
}

/// The adapter's own state: whether the external process was found alive at
/// the last probe, and the host's API context of type `A` once it is known.
#[derive(Debug)]
pub struct PythonRuntime<A> {
    alive: bool,
    api_context: Option<A>,
}

impl<A> PythonRuntime<A> {
    /// Whether the external process was alive at the last probe.
    pub closed spec fn alive(&self) -> bool {
        self.alive
    }

    /// The API context, once the host has announced it.
    pub closed spec fn api_context(&self) -> Option<A> {
        self.api_context
    }

    /// The adapter at start-up: the process is taken to be alive, and no API
    /// context is known.
    pub fn new() -> (runtime: Self)
        ensures
            runtime.alive(),
            runtime.api_context() is None,
    {
        PythonRuntime { alive: true, api_context: None }
    }

    /// Records the result of a liveness probe.
    pub fn set_alive(&mut self, alive: bool)
        ensures
            final(self).alive() == alive,
            final(self).api_context() == old(self).api_context(),
    {
        self.alive = alive;
    }

    /// Checks that the external process is still running.
    pub fn ensure_runtime(&self) -> (r: Result<(), ExecutionError>)
        ensures
            r is Ok <==> self.alive(),
            r matches Err(e) ==> e@ == CompletionCode::RuntimeDead.error(),
    {
        if self.alive {
            Ok(())
        } else {
            Err(CompletionCode::RuntimeDead.to_error())
        }
    }

    /// The function table to invoke, or the error to report in its place: a
    /// dead process is never called, and neither is one that has not
    /// registered.
    fn gate<'a, M>(&self, interface: &'a PythonRuntimeInterface<M>) -> (r: Result<
        &'a M,
        ExecutionError,
    >)
        ensures
            match obstacle(self.alive(), interface.registered()) {
                Some(code) => r matches Err(e) && e@ == code.error(),
                None => r matches Ok(methods) && interface.registered() == Some(*methods),
            },
    {
        if !self.alive {
            return Err(CompletionCode::RuntimeDead.to_error());
        }
        match interface.methods() {
            Some(methods) => Ok(methods),
            None => Err(CompletionCode::RuntimeNotReady.to_error()),
        }
    }

    /// Starts the deployment of an artifact. A deployment of the same
    /// artifact that is still in flight makes this a breach of the protocol.
    /// Otherwise the external process is asked to deploy, unless it is dead
    /// or has not registered.
    pub fn deploy_artifact<'a, M, F, S>(
        &self,
        interface: &'a PythonRuntimeInterface<M>,
        artifact: &ArtifactId,
        spec: &[u8],
    ) -> (r: Result<Dispatch<'a, M, F, S, ExecutionError>, ProtocolViolation>)
        requires
            artifact@.marshalable(),
        ensures
            r is Err <==> interface.deployments().contains(artifact@),
            r matches Err(e) ==> e == ProtocolViolation::DuplicateDeployment,
            r matches Ok(dispatch) ==> match obstacle(self.alive(), interface.registered()) {
                Some(code) => dispatch matches Dispatch::Done(e) && e@ == code.error(),
                None => dispatch matches Dispatch::Call {
                    methods,
                    call: PythonCall::DeployArtifact { artifact: raw, spec: data },
                } && interface.registered() == Some(*methods) && raw@ == artifact@.marshal()
                    && data.views(spec@),
            },
    {
        if interface.is_pending(artifact) {
            return Err(ProtocolViolation::DuplicateDeployment);
        }
        match self.gate(interface) {
            Err(e) => Ok(Dispatch::Done(e)),
            Ok(methods) => Ok(
                Dispatch::Call {
                    methods,
                    call: PythonCall::DeployArtifact {
                        artifact: RawArtifactId::from_artifact_id(artifact),
                        spec: BinaryData::from_slice(spec),
                    },
                },
            ),
        }
    }

    /// Asks whether an artifact is deployed. A dead process and one that has
    /// not registered have deployed nothing; otherwise the external process
    /// answers.
    pub fn is_artifact_deployed<'a, M, F, S>(
        &self,
        interface: &'a PythonRuntimeInterface<M>,
        id: &ArtifactId,
    ) -> (r: Dispatch<'a, M, F, S, bool>)
        requires
            id@.marshalable(),
        ensures
            match obstacle(self.alive(), interface.registered()) {
                Some(_) => r matches Dispatch::Done(deployed) && !deployed,
                None => r matches Dispatch::Call {
                    methods,
                    call: PythonCall::IsArtifactDeployed { artifact: raw },
                } && interface.registered() == Some(*methods) && raw@ == id@.marshal(),
            },
    {
        match self.gate(interface) {
            Err(_) => Dispatch::Done(false),
            Ok(methods) => Dispatch::Call {
                methods,
                call: PythonCall::IsArtifactDeployed {
                    artifact: RawArtifactId::from_artifact_id(id),
                },
            },
        }
    }

    /// Starts a service instance.
    pub fn start_service<'a, M, F, S>(
        &self,
        interface: &'a PythonRuntimeInterface<M>,
        spec: &InstanceSpec,
    ) -> (r: Dispatch<'a, M, F, S, ExecutionError>)
        requires
            spec@.marshalable(),
        ensures
            match obstacle(self.alive(), interface.registered()) {
                Some(code) => r matches Dispatch::Done(e) && e@ == code.error(),
                None => r matches Dispatch::Call {
                    methods,
                    call: PythonCall::StartService { spec: raw },
                } && interface.registered() == Some(*methods) && raw@ == spec@.marshal(),
            },
    {
        match self.gate(interface) {
            Err(e) => Dispatch::Done(e),
            Ok(methods) => Dispatch::Call {
                methods,
                call: PythonCall::StartService { spec: RawInstanceSpec::from_instance_spec(spec) },
            },
        }
    }

    /// Initializes a service instance, with mutable access to `fork`.
    pub fn initialize_service<'a, M, F, S>(
        &self,
        interface: &'a PythonRuntimeInterface<M>,
        fork: F,
        descriptor: &InstanceDescriptor,
        parameters: &[u8],
    ) -> (r: Dispatch<'a, M, F, S, ExecutionError>)
        requires
            descriptor@.marshalable(),
        ensures
            match obstacle(self.alive(), interface.registered()) {
                Some(code) => r matches Dispatch::Done(e) && e@ == code.error(),
                None => r matches Dispatch::Call {
                    methods,
                    call: PythonCall::InitializeService { access, descriptor: raw, parameters: data },
                } && interface.registered() == Some(*methods) && access == RawIndexAccess::<
                    F,
                    S,
                >::Fork(fork) && raw@ == descriptor@.marshal() && data.views(parameters@),
            },
    {
        match self.gate(interface) {
            Err(e) => Dispatch::Done(e),
            Ok(methods) => Dispatch::Call {
                methods,
                call: PythonCall::InitializeService {
                    access: RawIndexAccess::Fork(fork),
                    descriptor: RawInstanceDescriptor::from_instance_descriptor(descriptor),
                    parameters: BinaryData::from_slice(parameters),
                },
            },
        }
    }

    /// Stops a service instance.
    pub fn stop_service<'a, M, F, S>(
        &self,
        interface: &'a PythonRuntimeInterface<M>,
        descriptor: &InstanceDescriptor,
    ) -> (r: Dispatch<'a, M, F, S, ExecutionError>)
        requires
            descriptor@.marshalable(),
        ensures
            match obstacle(self.alive(), interface.registered()) {
                Some(code) => r matches Dispatch::Done(e) && e@ == code.error(),
                None => r matches Dispatch::Call {
                    methods,
                    call: PythonCall::StopService { descriptor: raw },
                } && interface.registered() == Some(*methods) && raw@ == descriptor@.marshal(),
            },
    {
        match self.gate(interface) {
            Err(e) => Dispatch::Done(e),
            Ok(methods) => Dispatch::Call {
                methods,
                call: PythonCall::StopService {
                    descriptor: RawInstanceDescriptor::from_instance_descriptor(descriptor),
                },
            },
        }
    }

    /// Executes a method of a service instance, with mutable access to the
    /// context's transactional view.
    pub fn execute<'a, M, F, S>(
        &self,
        interface: &'a PythonRuntimeInterface<M>,
        context: ExecutionContext<F>,
        call_info: &CallInfo,
        payload: &[u8],
    ) -> (r: Dispatch<'a, M, F, S, ExecutionError>)
        requires
            nul_free_chars(context.interface_name@),
        ensures
            match obstacle(self.alive(), interface.registered()) {
                Some(code) => r matches Dispatch::Done(e) && e@ == code.error(),
                None => r matches Dispatch::Call {
                    methods,
                    call: PythonCall::Execute { context: raw, call_info: info, payload: data },
                } && interface.registered() == Some(*methods) && raw.access == RawIndexAccess::<
                    F,
                    S,
                >::Fork(context.fork) && raw.caller@ == context.caller.marshal()
                    && raw.interface_name@ == encode_utf8(context.interface_name@)
                    && info.instance_id == call_info.instance_id && info.method_id
                    == call_info.method_id && data.views(payload@),
            },
    {
        match self.gate(interface) {
            Err(e) => Dispatch::Done(e),
            Ok(methods) => Dispatch::Call {
                methods,
                call: PythonCall::Execute {
                    context: RawExecutionContext::from_execution_context(context),
                    call_info: RawCallInfo::from_call_info(call_info),
                    payload: BinaryData::from_slice(payload),
                },
            },
        }
    }

    /// Asks for the protobuf sources of an artifact. A dead process and one
    /// that has not registered have none.
    pub fn artifact_protobuf_spec<'a, M, F, S>(
        &self,
        interface: &'a PythonRuntimeInterface<M>,
        id: &ArtifactId,
    ) -> (r: Dispatch<'a, M, F, S, Option<ArtifactProtobufSpec>>)
        requires
            id@.marshalable(),
        ensures
            match obstacle(self.alive(), interface.registered()) {
                Some(_) => r matches Dispatch::Done(spec) && spec is None,
                None => r matches Dispatch::Call {
                    methods,
                    call: PythonCall::ArtifactProtobufSpec { artifact: raw },
                } && interface.registered() == Some(*methods) && raw@ == id@.marshal(),
            },
    {
        match self.gate(interface) {
            Err(_) => Dispatch::Done(None),
            Ok(methods) => Dispatch::Call {
                methods,
                call: PythonCall::ArtifactProtobufSpec {
                    artifact: RawArtifactId::from_artifact_id(id),
                },
            },
        }
    }

    /// Asks for the state hashes, with read access to `snapshot`. A dead
    /// process and one that has not registered contribute none.
    pub fn state_hashes<'a, M, F, S>(
        &self,
        interface: &'a PythonRuntimeInterface<M>,
        snapshot: S,
    ) -> (r: Dispatch<'a, M, F, S, StateHashAggregator>)
        ensures
            match obstacle(self.alive(), interface.registered()) {
                Some(_) => r matches Dispatch::Done(aggregator) && aggregator@.runtime.len() == 0
                    && aggregator@.instances.len() == 0,
                None => r matches Dispatch::Call { methods, call: PythonCall::StateHashes { access } }
                    && interface.registered() == Some(*methods) && access == RawIndexAccess::<
                    F,
                    S,
                >::Snapshot(snapshot),
            },
    {
        match self.gate(interface) {
            Err(_) => Dispatch::Done(StateHashAggregator::empty()),
            Ok(methods) => Dispatch::Call {
                methods,
                call: PythonCall::StateHashes { access: RawIndexAccess::Snapshot(snapshot) },
            },
        }
    }

    /// Announces that a block is about to be committed, with mutable access
    /// to `fork`.
    pub fn before_commit<'a, M, F, S>(
        &self,
        interface: &'a PythonRuntimeInterface<M>,
        fork: F,
    ) -> (r: Dispatch<'a, M, F, S, ()>)
        ensures
            match obstacle(self.alive(), interface.registered()) {
                Some(_) => r is Done,
                None => r matches Dispatch::Call { methods, call: PythonCall::BeforeCommit { access } }
                    && interface.registered() == Some(*methods) && access == RawIndexAccess::<
                    F,
                    S,
                >::Fork(fork),
            },
    {
        match self.gate(interface) {
            Err(_) => Dispatch::Done(()),
            Ok(methods) => Dispatch::Call {
                methods,
                call: PythonCall::BeforeCommit { access: RawIndexAccess::Fork(fork) },
            },
        }
    }

    /// Announces that a block was committed, with read access to `snapshot`.
    /// Where the process is alive and an API context is known, the snapshot
    /// for API requests is to be taken anew from that context.
    pub fn after_commit<'a, M, F, S>(
        &'a self,
        interface: &'a PythonRuntimeInterface<M>,
        snapshot: S,
    ) -> (r: AfterCommit<'a, A, M, F, S>)
        ensures
            r.refresh_snapshot is Some <==> self.alive() && self.api_context() is Some,
            r.refresh_snapshot matches Some(context) ==> self.api_context() == Some(*context),
            match obstacle(self.alive(), interface.registered()) {
                Some(_) => r.dispatch is Done,
                None => r.dispatch matches Dispatch::Call {
                    methods,
                    call: PythonCall::AfterCommit { access },
                } && interface.registered() == Some(*methods) && access == RawIndexAccess::<
                    F,
                    S,
                >::Snapshot(snapshot),
            },
    {
        let refresh_snapshot = if self.alive {
            self.api_context.as_ref()
        } else {
            None
        };
        let dispatch = match self.gate(interface) {
            Err(_) => Dispatch::Done(()),
            Ok(methods) => Dispatch::Call {
                methods,
                call: PythonCall::AfterCommit { access: RawIndexAccess::Snapshot(snapshot) },
            },
        };
        AfterCommit { refresh_snapshot, dispatch }
    }

    /// Takes note of the host's API context. The first context that is
    /// announced is kept; later ones change nothing.
    pub fn notify_api_changes(&mut self, context: A)
        ensures
            final(self).alive() == old(self).alive(),
            final(self).api_context() == if old(self).api_context() is None {
                Some(context)
            } else {
                old(self).api_context()
            },
    {
        if self.api_context.is_none() {
            self.api_context = Some(context);
        }
    }
}

/// What the status that an invocation returned means to the host: success
/// for zero, the decoded error otherwise, and the error of a dead runtime
/// where the invocation failed hard.
pub fn status_result(outcome: CallOutcome<u8>) -> (r: Result<(), ExecutionError>)
    ensures
        match status_meaning(outcome) {
            None => r is Ok,
            Some(error) => r matches Err(e) && e@ == error,
        },
{
    match outcome {
        CallOutcome::Crashed => Err(CompletionCode::RuntimeDead.to_error()),
        CallOutcome::Returned(status) => PythonRuntimeResult::from_value(status),
    }
}

/// Concludes the start of a deployment. Where the external process accepted
/// it, a pending deployment is recorded as in flight: the record owns it
/// until its completion is reported. Where the external process refused or
/// failed, the error is returned and nothing is recorded. An artifact that is
/// in flight already is not recorded again.
pub fn deployment_started<M>(
    interface: &mut PythonRuntimeInterface<M>,
    artifact: ArtifactId,
    outcome: CallOutcome<u8>,
) -> (r: Result<Result<(), ExecutionError>, ProtocolViolation>)
    requires
        old(interface).wf(),
    ensures
        final(interface).wf(),
        final(interface).registered() == old(interface).registered(),
        match status_meaning(outcome) {
            Some(error) => r matches Ok(Err(e)) && e@ == error && final(interface).deployments()
                == old(interface).deployments(),
            None => match started(old(interface).deployments(), artifact@) {
                Some(deployments) => r matches Ok(Ok(_)) && final(interface).deployments()
                    == deployments,
                None => r matches Err(e) && e == ProtocolViolation::DuplicateDeployment
                    && final(interface).deployments() == old(interface).deployments(),
            },
        },
{
    match status_result(outcome) {
        Err(e) => Ok(Err(e)),
        Ok(()) => match interface.notify_deployment_started(artifact, PendingDeployment::new()) {
            Ok(()) => Ok(Ok(())),
            Err(violation) => Err(violation),
        },
    }
}

/// The answer to "is this artifact deployed": that of the external process,
/// and no where the invocation failed hard.
pub fn artifact_deployed(outcome: CallOutcome<bool>) -> (deployed: bool)
    ensures
        deployed <==> outcome == CallOutcome::Returned(true),
{
    match outcome {
        CallOutcome::Returned(answer) => answer,
        CallOutcome::Crashed => false,
    }
}

/// Reads the protobuf sources from the out-parameter of the invocation. A
/// null out-parameter means that there are none. Whatever the external
/// process allocated has to be released, whether it could be read or not.
pub fn protobuf_spec_result(outcome: CallOutcome<Option<RawArtifactProtobufSpec>>) -> (r: Released<
    Option<ArtifactProtobufSpec>,
>)
    ensures
        r.resource is Some <==> outcome matches CallOutcome::Returned(Some(_)),
        r.resource matches Some(resource) ==> !resource.is_released(),
        match outcome {
            CallOutcome::Returned(Some(raw)) => {
                &&& r.value is Some <==> raw.readable()
                &&& r.value matches Some(spec) ==> spec@ == raw.sources()
            },
            _ => r.value is None,
        },
{
    match outcome {
        CallOutcome::Returned(Some(raw)) => Released {
            value: ArtifactProtobufSpec::from_raw(&raw),
            resource: Some(ForeignResource::acquired()),
        },
        _ => Released { value: None, resource: None },
    }
}

/// Reads the state hashes from the out-parameter of the invocation. A null
/// out-parameter, and one that cannot be read, contribute no hashes.
/// Whatever the external process allocated has to be released.
pub fn state_hashes_result(outcome: CallOutcome<Option<RawStateHashAggregator>>) -> (r: Released<
    StateHashAggregator,
>)
    ensures
        r.resource is Some <==> outcome matches CallOutcome::Returned(Some(_)),
        r.resource matches Some(resource) ==> !resource.is_released(),
        match outcome {
            CallOutcome::Returned(Some(raw)) => if raw.readable() {
                r.value@ == raw.aggregate()
            } else {
                r.value@.runtime.len() == 0 && r.value@.instances.len() == 0
            },
            _ => r.value@.runtime.len() == 0 && r.value@.instances.len() == 0,
        },
{
    match outcome {
        CallOutcome::Returned(Some(raw)) => {
            let value = match StateHashAggregator::from_raw(&raw) {
                Some(aggregator) => aggregator,
                None => StateHashAggregator::empty(),
            };
            Released { value, resource: Some(ForeignResource::acquired()) }
        },
        _ => Released { value: StateHashAggregator::empty(), resource: None },
    }
}

/// The adapter for the host to run, where one can be made before the node
/// is built: there is none, the host makes the adapter itself with
/// [`PythonRuntime::new`].
pub fn initialize_python_backend<A>() -> (r: Option<PythonRuntime<A>>)
    ensures
        r is None,
{
    None
}

/// Before the external process has registered, and whenever it is found
/// dead, no entry point reaches the function table; a status other than
/// zero never means success, and a hard failure means a dead runtime.
pub proof fn lemma_infrastructure_failures<M>(alive: bool, registered: Option<M>, status: u8)
    ensures
        obstacle(alive, registered) is None <==> alive && registered is Some,
        !alive ==> obstacle(alive, registered) == Some(CompletionCode::RuntimeDead),
        status_meaning(CallOutcome::Returned(status)) is None <==> status == 0,
        status_meaning(CallOutcome::<u8>::Crashed) == Some(CompletionCode::RuntimeDead.error()),
{
}

} // verus!
