//! What the bridge knows of the external runtime: the function table it
//! registered, and the deployments that it has accepted and not yet
//! completed.

use vstd::prelude::*;

use crate::errors::ProtocolViolation;
use crate::errors::PythonRuntimeResult;
use crate::host::ArtifactId;
use crate::host::ArtifactIdView;
use crate::pending_deployment::resolution_of;
use crate::pending_deployment::resolve;
use crate::pending_deployment::PendingDeployment;
use crate::types::RawIndexAccess;

verus! {

/// One accepted deployment.
#[derive(Debug)]
struct Entry {
    artifact: ArtifactId,
    deployment: PendingDeployment,
}

/// The artifacts whose deployment is in flight: accepted by the external
/// runtime and not yet reported as completed.
pub type Deployments = Set<ArtifactIdView>;

/// The artifacts that a sequence of entries holds.
spec fn artifacts(entries: Seq<Entry>) -> Deployments {
    Set::new(|artifact: ArtifactIdView| has_entry(entries, artifact))
}

/// No artifact has two entries.
spec fn distinct(entries: Seq<Entry>) -> bool {
    forall|i: int, j: int|
        0 <= i < j < entries.len() ==> entries[i].artifact@ != entries[j].artifact@
}

/// Every entry is pending.
spec fn pending(entries: Seq<Entry>) -> bool {
    forall|i: int| 0 <= i < entries.len() ==> (#[trigger] entries[i]).deployment@ is None
}

/// Some entry is that of `artifact`.
spec fn has_entry(entries: Seq<Entry>, artifact: ArtifactIdView) -> bool {
    exists|i: int| 0 <= i < entries.len() && #[trigger] entries[i].artifact@ == artifact
}

proof fn lemma_artifacts_push(entries: Seq<Entry>, entry: Entry)
    ensures
        artifacts(entries.push(entry)) == artifacts(entries).insert(entry.artifact@),
{
    let more = entries.push(entry);
    assert forall|a: ArtifactIdView| has_entry(more, a) <==> (a == entry.artifact@ || has_entry(
        entries,
        a,
    )) by {
        if has_entry(more, a) {
            let i = choose|i: int| 0 <= i < more.len() && #[trigger] more[i].artifact@ == a;
            if i < entries.len() {
                assert(entries[i].artifact@ == a);
            }
        }
        if has_entry(entries, a) {
            let i = choose|i: int| 0 <= i < entries.len() && #[trigger] entries[i].artifact@ == a;
            assert(more[i].artifact@ == a);
        }
        if a == entry.artifact@ {
            assert(more[entries.len() as int].artifact@ == a);
        }
    }
    assert(artifacts(more) =~= artifacts(entries).insert(entry.artifact@));
}

proof fn lemma_artifacts_remove(entries: Seq<Entry>, i: int)
    requires
        distinct(entries),
        0 <= i < entries.len(),
    ensures
        distinct(entries.remove(i)),
        pending(entries) ==> pending(entries.remove(i)),
        artifacts(entries.remove(i)) == artifacts(entries).remove(entries[i].artifact@),
{
    let rest = entries.remove(i);
    let key = entries[i].artifact@;
    if pending(entries) {
        assert forall|j: int| 0 <= j < rest.len() implies (#[trigger] rest[j]).deployment@
            is None by {
            if j < i {
                assert(rest[j] == entries[j]);
            } else {
                assert(rest[j] == entries[j + 1]);
            }
        }
    }
    assert forall|a: ArtifactIdView| has_entry(rest, a) <==> (a != key && has_entry(
        entries,
        a,
    )) by {
        if has_entry(rest, a) {
            let j = choose|j: int| 0 <= j < rest.len() && #[trigger] rest[j].artifact@ == a;
            if j < i {
                assert(entries[j].artifact@ == a);
            } else {
                assert(entries[j + 1].artifact@ == a);
            }
        }
        if a != key && has_entry(entries, a) {
            let j = choose|j: int| 0 <= j < entries.len() && #[trigger] entries[j].artifact@ == a;
            if j < i {
                assert(rest[j].artifact@ == a);
            } else {
                assert(rest[j - 1].artifact@ == a);
            }
        }
    }
    assert(artifacts(rest) =~= artifacts(entries).remove(key));
}

/// The deployments after a deployment was accepted for `artifact`, or `None`
/// where the artifact is being deployed already.
pub open spec fn started(deployments: Deployments, artifact: ArtifactIdView) -> Option<
    Deployments,
> {
    if deployments.contains(artifact) {
        None
    } else {
        Some(deployments.insert(artifact))
    }
}

/// The bridge's record of the external runtime, with the function table of
/// type `M` that the runtime registers. The record is the one owner of every
/// deployment in flight.
#[derive(Debug)]
pub struct PythonRuntimeInterface<M> {
    methods: Option<M>,
    ongoing_deployments: Vec<Entry>,
}

impl<M> PythonRuntimeInterface<M> {
    /// No artifact is recorded twice, and every recorded deployment is
    /// pending. Every record that this module hands out is well-formed, and
    /// every operation keeps it so.
    pub closed spec fn wf(&self) -> bool {
        distinct(self.ongoing_deployments@) && pending(self.ongoing_deployments@)
    }

    /// The registered function table, if any.
    pub closed spec fn registered(&self) -> Option<M> {
        self.methods
    }

    /// The artifacts whose deployment is in flight.
    pub closed spec fn deployments(&self) -> Deployments {
        artifacts(self.ongoing_deployments@)
    }

    /// The record at start-up: nothing registered, nothing in flight.
    pub fn new() -> (interface: Self)
        ensures
            interface.wf(),
            interface.registered() is None,
            interface.deployments() == Deployments::empty(),
    {
        let interface = PythonRuntimeInterface { methods: None, ongoing_deployments: Vec::new() };
        assert(interface.deployments() =~= Deployments::empty());
        interface
    }

    /// The registered function table, if any.
    pub fn methods(&self) -> (m: Option<&M>)
        ensures
            m is Some <==> self.registered() is Some,
            m matches Some(table) ==> self.registered() == Some(*table),
    {
        self.methods.as_ref()
    }

    /// Whether a function table is registered.
    pub fn is_registered(&self) -> (b: bool)
        ensures
            b <==> self.registered() is Some,
    {
        self.methods.is_some()
    }

    /// Position of the entry of `artifact`, if it has one.
    fn position(&self, artifact: &ArtifactId) -> (p: Option<usize>)
        ensures
            p is Some <==> self.deployments().contains(artifact@),
            p matches Some(i) ==> i < self.ongoing_deployments@.len()
                && self.ongoing_deployments@[i as int].artifact@ == artifact@,
    {
        let mut i: usize = 0;
        while i < self.ongoing_deployments.len()
            invariant
                i <= self.ongoing_deployments@.len(),
                forall|j: int|
                    0 <= j < i ==> (#[trigger] self.ongoing_deployments@[j]).artifact@ != artifact@,
            decreases self.ongoing_deployments@.len() - i,
        {
            if self.ongoing_deployments[i].artifact.same_as(artifact) {
                assert(self.ongoing_deployments@[i as int].artifact@ == artifact@);
                return Some(i);
            }
            i += 1;
        }
        assert(!has_entry(self.ongoing_deployments@, artifact@));
        None
    }

    /// Whether `artifact` is being deployed.
    pub fn is_pending(&self, artifact: &ArtifactId) -> (b: bool)
        ensures
            b <==> self.deployments().contains(artifact@),
    {
        self.position(artifact).is_some()
    }

    /// Records that the external runtime accepted the deployment of
    /// `artifact`, and takes the pending deployment into the record. An
    /// artifact that is being deployed already is not accepted again: the
    /// record stays as it is.
    pub fn notify_deployment_started(
        &mut self,
        artifact: ArtifactId,
        deployment: PendingDeployment,
    ) -> (r: Result<(), ProtocolViolation>)
        requires
            old(self).wf(),
            deployment@ is None,
        ensures
            final(self).wf(),
            final(self).registered() == old(self).registered(),
            match started(old(self).deployments(), artifact@) {
                Some(deployments) => r is Ok && final(self).deployments() == deployments,
                None => r == Err::<(), ProtocolViolation>(ProtocolViolation::DuplicateDeployment)
                    && final(self).deployments() == old(self).deployments(),
            },
    {
        if self.position(&artifact).is_some() {
            return Err(ProtocolViolation::DuplicateDeployment);
        }
        let entry = Entry { artifact, deployment };
        proof {
            lemma_artifacts_push(self.ongoing_deployments@, entry);
        }
        self.ongoing_deployments.push(entry);
        Ok(())
    }
}

/// Registers the function table of the external runtime. A table that was
/// registered before is replaced as a whole.
pub fn init_python_side<M>(interface: &mut PythonRuntimeInterface<M>, methods: M)
    ensures
        old(interface).wf() ==> final(interface).wf(),
        final(interface).registered() == Some(methods),
        final(interface).deployments() == old(interface).deployments(),
{
    interface.methods = Some(methods);
}

/// Takes the completion that the external runtime reported for `artifact`,
/// which is being deployed: the deployment leaves the record, resolved with
/// what `status` stands for, and is handed to the caller, who owns it from
/// then on. A completion for an artifact that is not being deployed is a
/// breach of the protocol, which the caller has to rule out: see
/// [`PythonRuntimeInterface::is_pending`].
pub fn deployment_completed<M>(
    interface: &mut PythonRuntimeInterface<M>,
    artifact: &ArtifactId,
    status: u8,
) -> (deployment: PendingDeployment)
    requires
        old(interface).wf(),
        old(interface).deployments().contains(artifact@),
    ensures
        final(interface).wf(),
        final(interface).registered() == old(interface).registered(),
        final(interface).deployments() == old(interface).deployments().remove(artifact@),
        deployment@ == Some(resolution_of(status)),
        !deployment.is_parked(),
{
    let found = interface.position(artifact);
    let i = found.unwrap();
    proof {
        lemma_artifacts_remove(interface.ongoing_deployments@, i as int);
    }
    let entry = interface.ongoing_deployments.remove(i);
    let mut deployment = entry.deployment;
    let _ = deployment.resolve_with(status);
    deployment
}

/// The status that every slot of the function table reports before the
/// external runtime has registered.
pub fn default_status() -> (status: u8)
    ensures
        status == PythonRuntimeResult::RuntimeNotReady.spec_code(),
        status != 0,
{
    PythonRuntimeResult::RuntimeNotReady.code()
}

/// The access token for requests that arrive outside block processing: it
/// stands for whatever snapshot is current.
pub fn get_snapshot_token<F, S>() -> (token: RawIndexAccess<F, S>)
    ensures
        token is SnapshotToken,
{
    RawIndexAccess::SnapshotToken
}

/// A second deployment of an artifact is rejected for as long as the first
/// is in flight, and accepted again once the first has been completed.
pub proof fn lemma_duplicate_deployment_rejected(deployments: Deployments, artifact: ArtifactIdView)
    requires
        started(deployments, artifact) is Some,
    ensures
        started(started(deployments, artifact).unwrap(), artifact) is None,
        started(started(deployments, artifact).unwrap().remove(artifact), artifact) is Some,
{
}

/// A completion takes exactly its own artifact out of flight: no other
/// deployment is touched, and the status decides how the deployment ends.
pub proof fn lemma_completion(deployments: Deployments, artifact: ArtifactIdView, status: u8)
    ensures
        !deployments.remove(artifact).contains(artifact),
        forall|other: ArtifactIdView|
            other != artifact ==> (deployments.remove(artifact).contains(other)
                <==> deployments.contains(other)),
        resolve(None, resolution_of(status)) == Some(resolution_of(status)),
        resolution_of(status) is Succeeded <==> status == 0,
{
}

} // verus!
