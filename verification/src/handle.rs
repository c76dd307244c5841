//! Replacing a layer's filter while the process runs.

use crate::filter::{parsed, FilterSpec};
use tracing_subscriber::filter::EnvFilter;
use tracing_subscriber::reload;
use vstd::prelude::*;

verus! {

/// The error of `tracing_subscriber::reload`, opaque to the verifier.
#[verifier::external_type_specification]
#[verifier::external_body]
pub struct ExReloadFailure(reload::Error);

/// The reload handle of `tracing_subscriber`, opaque to the verifier.
#[verifier::external_type_specification]
#[verifier::external_body]
#[verifier::reject_recursive_types(L)]
#[verifier::reject_recursive_types(S)]
pub struct ExReloadSlot<L, S>(reload::Handle<L, S>);

/// The reloadable layer of `tracing_subscriber`: the slot that holds a
/// layer's filter. Opaque to the verifier.
#[verifier::external_type_specification]
#[verifier::external_body]
#[verifier::reject_recursive_types(L)]
#[verifier::reject_recursive_types(S)]
pub struct ExReloadLayer<L, S>(reload::Layer<L, S>);

/// Why a filter could not be replaced.
#[derive(Clone, Copy, Debug, PartialEq, Eq, Structural)]
pub enum ReloadError {
    /// The layer that the handle was made for no longer exists.
    LayerGone,
    /// The lock around the layer's filter was poisoned by a panic.
    LockPoisoned,
}

/// The capability to replace the value in one layer's slot, whatever the
/// concrete type of the pipeline around that layer.
pub trait ReloadHandle<L>: Send + Sync {
    /// Puts `new_value` in the slot, for every record emitted from now on.
    fn reload(&self, new_value: L) -> Result<(), reload::Error>;
}

/// Hides the concrete type of `handle` behind the capability.
pub fn boxed<L, H>(handle: H) -> Box<dyn ReloadHandle<L>> where H: ReloadHandle<L> + 'static {
    Box::new(handle)
}

/// Calls `reload::Handle::reload`, which swaps the value under the layer's
/// write lock, tells every call site to ask the filter anew, and fails if
/// the layer is gone. Nothing is claimed of the outcome: it depends on
/// whether the pipeline is still alive. If a panic inside the layer has
/// poisoned the lock, the call panics too, unless the thread is already
/// unwinding, in which case it fails.
#[verifier::external_body]
fn swap_slot<L, S>(handle: &reload::Handle<L, S>, new_value: L) -> (outcome: Result<(), reload::Error>) {
    handle.reload(new_value)
}

impl<L, S> ReloadHandle<L> for reload::Handle<L, S> where L: Send + Sync {
    fn reload(&self, new_value: L) -> Result<(), reload::Error> {
        swap_slot(self, new_value)
    }
}

/// Calls `reload::Layer::new`, which puts `inner` in a slot of its own and
/// returns the slot with a handle on it. Both are opaque, so nothing is
/// claimed of them.
#[verifier::external_body]
fn new_slot<L, S>(inner: L) -> (slot: (reload::Layer<L, S>, reload::Handle<L, S>)) {
    reload::Layer::new(inner)
}

/// Calls `reload::Error::is_dropped`, which tells the two causes of a
/// failed reload apart. The error is opaque, so nothing is claimed of the
/// answer.
#[verifier::external_body]
fn layer_dropped(failure: &reload::Error) -> (dropped: bool) {
    failure.is_dropped()
}

/// The filter text that is active after one request to replace `active` by
/// the directives kept of `directive`: the new text if the request
/// succeeded, the old one if it did not.
pub open spec fn after_request(active: Seq<char>, directive: Seq<char>, succeeded: bool) -> Seq<char> {
    if succeeded {
        parsed(directive)
    } else {
        active
    }
}

/// The filter text that is active after a sequence of requests, each a
/// directive string and whether the request succeeded, applied in order to a
/// layer whose filter text was `initial`.
pub open spec fn after_requests(initial: Seq<char>, requests: Seq<(Seq<char>, bool)>) -> Seq<char>
    decreases requests.len(),
{
    if requests.len() == 0 {
        initial
    } else {
        let last = requests.last();
        after_request(after_requests(initial, requests.drop_last()), last.0, last.1)
    }
}

/// The most recent successful request decides the active filter: if request
/// `i` succeeded and none after it did, the active text is what was kept of
/// request `i`'s directive, whatever was requested before.
pub proof fn latest_success_decides(initial: Seq<char>, requests: Seq<(Seq<char>, bool)>, i: int)
    requires
        0 <= i < requests.len(),
        requests[i].1,
        forall|j: int| i < j < requests.len() ==> !(#[trigger] requests[j]).1,
    ensures
        after_requests(initial, requests) == parsed(requests[i].0),
    decreases requests.len(),
{
    if i < requests.len() - 1 {
        let earlier = requests.drop_last();
        assert(earlier[i] == requests[i]);
        assert forall|j: int| i < j < earlier.len() implies !(#[trigger] earlier[j]).1 by {
            assert(earlier[j] == requests[j]);
        }
        latest_success_decides(initial, earlier, i);
    }
}

/// While no request succeeds, the filter that was active at the start stays
/// active.
pub proof fn failures_change_nothing(initial: Seq<char>, requests: Seq<(Seq<char>, bool)>)
    requires
        forall|j: int| 0 <= j < requests.len() ==> !(#[trigger] requests[j]).1,
    ensures
        after_requests(initial, requests) == initial,
    decreases requests.len(),
{
    if requests.len() > 0 {
        let earlier = requests.drop_last();
        assert forall|j: int| 0 <= j < earlier.len() implies !(#[trigger] earlier[j]).1 by {
            assert(earlier[j] == requests[j]);
        }
        failures_change_nothing(initial, earlier);
    }
}

/// Handle on the filter of one layer of the installed pipeline.
///
/// It owns the capability to replace the filter and remembers the text of the
/// filter that it last put in place. Its view is that text.
pub struct LogLevelReloadHandle {
    slot: Box<dyn ReloadHandle<EnvFilter>>,
    active: String,
}

impl View for LogLevelReloadHandle {
    type V = Seq<char>;

    closed spec fn view(&self) -> Seq<char> {
        self.active@
    }
}

impl ReloadError {
    /// The cause of a failed reload, given whether the layer was dropped.
    /// The write lock around a filter fails in no other way than by
    /// poisoning.
    pub fn from_cause(dropped: bool) -> (error: ReloadError)
        ensures
            error == (if dropped { ReloadError::LayerGone } else { ReloadError::LockPoisoned }),
    {
        if dropped {
            ReloadError::LayerGone
        } else {
            ReloadError::LockPoisoned
        }
    }

    /// A sentence for an operator.
    pub fn message(&self) -> (text: &'static str)
        ensures
            text@ == (match *self {
                ReloadError::LayerGone => "the layer behind this handle no longer exists"@,
                ReloadError::LockPoisoned => "the lock around the layer's filter is poisoned"@,
            }),
    {
        match self {
            ReloadError::LayerGone => "the layer behind this handle no longer exists",
            ReloadError::LockPoisoned => "the lock around the layer's filter is poisoned",
        }
    }
}

/// Reads the outcome of a reload: `None` for success, the cause for a
/// failure.
pub fn failure_of(outcome: Result<(), reload::Error>) -> (failure: Option<ReloadError>)
    ensures
        failure is None <==> outcome is Ok,
{
    match outcome {
        Ok(()) => None,
        Err(e) => Some(ReloadError::from_cause(layer_dropped(&e))),
    }
}

impl LogLevelReloadHandle {
    /// Binds `slot`, the capability on a layer whose filter currently holds
    /// the directives `active`.
    pub fn new(slot: Box<dyn ReloadHandle<EnvFilter>>, active: String) -> (handle: LogLevelReloadHandle)
        ensures
            handle@ == active@,
    {
        LogLevelReloadHandle { slot, active }
    }

    /// Binds a reload handle of `tracing_subscriber`, whatever the pipeline
    /// `S` around its layer, whose filter currently holds the directives
    /// `active`.
    pub fn from_handle<S: 'static>(
        slot: reload::Handle<EnvFilter, S>,
        active: String,
    ) -> (handle: LogLevelReloadHandle)
        ensures
            handle@ == active@,
    {
        LogLevelReloadHandle { slot: boxed(slot), active }
    }

    /// Puts `filter` in a slot of its own, for a layer of a pipeline `S` to
    /// be filtered by, and returns the slot with the handle that is bound to
    /// it.
    pub fn bind<S: 'static>(filter: FilterSpec) -> (bound: (reload::Layer<EnvFilter, S>, LogLevelReloadHandle))
        ensures
            bound.1@ == filter@,
    {
        let (compiled, text) = filter.into_parts();
        let (slot, handle) = new_slot(compiled);
        (slot, LogLevelReloadHandle::from_handle(handle, text))
    }

    /// The directives of the filter that is active on the layer. Always
    /// answers, also when the layer is gone: it then names the last filter
    /// the layer had.
    pub fn get(&self) -> (text: String)
        ensures
            text@ == self@,
    {
        self.active.clone()
    }

    /// Records the end of one request: `requested` becomes the active text
    /// if the reload went through, and the failure is handed on if it did
    /// not.
    pub fn settle(&mut self, requested: String, failure: Option<ReloadError>) -> (r: Result<(), ReloadError>)
        ensures
            failure is None ==> r is Ok && final(self)@ == requested@,
            failure is Some ==> r == Err::<(), ReloadError>(failure->Some_0) && final(self)@ == old(self)@,
    {
        match failure {
            None => {
                self.active = requested;
                Ok(())
            },
            Some(e) => Err(e),
        }
    }

    /// Compiles `filter` and puts it in place of the layer's filter.
    ///
    /// A malformed directive is no error: what cannot be read is left out.
    /// The call fails only if the layer cannot take a new filter, and then
    /// the filter that was active stays active.
    pub fn set(&mut self, filter: &str) -> (r: Result<(), ReloadError>)
        ensures
            final(self)@ == after_request(old(self)@, filter@, r is Ok),
    {
        let (compiled, text) = FilterSpec::parse(filter).into_parts();
        let outcome = self.slot.reload(compiled);
        self.settle(text, failure_of(outcome))
    }
}

} // verus!
