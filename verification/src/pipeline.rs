//! The layers of the pipeline and the steps that install it.

use crate::filter::{parsed, FilterSpec};
use crate::handle::LogLevelReloadHandle;
use crate::queue::QueuePolicy;
use crate::rotation::RotationPolicy;
use tracing::Dispatch;
use tracing_subscriber::filter::EnvFilter;
use tracing_subscriber::reload;
use vstd::prelude::*;

verus! {

/// The dispatcher of `tracing`: a pipeline that has been put together and
/// can be made the consumer of the records of the process. Opaque to the
/// verifier.
#[verifier::external_type_specification]
#[verifier::external_body]
pub struct ExDispatch(Dispatch);

/// Calls `tracing::dispatcher::set_global_default`, which makes `dispatch`
/// the consumer of every record of the process unless the process has one
/// already. Nothing is claimed of the answer: it depends on what the process
/// did before.
#[verifier::external_body]
fn claim_global_default(dispatch: Dispatch) -> (claimed: bool) {
    tracing::dispatcher::set_global_default(dispatch).is_ok()
}

/// Calls `tracing_log::LogTracer::init`, which makes the pipeline the
/// consumer of the `log` facade unless the facade has one already. Nothing
/// is claimed of the answer: it depends on what the process did before.
#[verifier::external_body]
fn claim_log_facade() -> (claimed: bool) {
    tracing_log::LogTracer::init().is_ok()
}

/// Where a layer writes.
#[derive(Clone, Copy, Debug, PartialEq, Eq, Structural)]
pub enum Sink {
    /// The console of the process.
    Console,
    /// A file on disk that rolls over as `policy` says, written by a
    /// background writer that drains a queue bounded as `queue` says.
    RollingFile { policy: RotationPolicy, queue: QueuePolicy },
}

/// Which span lifecycle events a layer writes as records.
#[derive(Clone, Copy, Debug, PartialEq, Eq, Structural)]
pub struct SpanEvents {
    /// A record when a span is created.
    pub on_new: bool,
    /// A record when a span is closed.
    pub on_close: bool,
}

/// The plan of one independently filtered observer of the records that the
/// process emits.
///
/// It holds the directive string of the layer's filter, and the layer gets a
/// filter of its own compiled from it, so that no two layers share one.
pub struct LayerPlan {
    sink: Sink,
    ansi: bool,
    span_events: SpanEvents,
    directive: String,
    reloadable: bool,
}

/// What a layer is, with its filter as the text of its directives.
pub struct LayerView {
    pub sink: Sink,
    pub ansi: bool,
    pub span_events: SpanEvents,
    pub filter: Seq<char>,
    pub reloadable: bool,
}

impl View for LayerPlan {
    type V = LayerView;

    closed spec fn view(&self) -> LayerView {
        LayerView {
            sink: self.sink,
            ansi: self.ansi,
            span_events: self.span_events,
            filter: parsed(self.directive@),
            reloadable: self.reloadable,
        }
    }
}

/// The console layer: coloured output, a record for each new span, and a
/// filter that can be replaced later.
pub open spec fn console_layer(filter: Seq<char>) -> LayerView {
    LayerView {
        sink: Sink::Console,
        ansi: true,
        span_events: SpanEvents { on_new: true, on_close: false },
        filter,
        reloadable: true,
    }
}

/// The on-disk layer: plain text, a record for each new and each closed
/// span, and a filter that stays as it is.
pub open spec fn on_disk_layer(filter: Seq<char>) -> LayerView {
    LayerView {
        sink: Sink::RollingFile { policy: RotationPolicy::spec_on_disk(), queue: QueuePolicy::spec_on_disk() },
        ansi: false,
        span_events: SpanEvents { on_new: true, on_close: true },
        filter,
        reloadable: false,
    }
}

/// The layers of the pipeline, in order, for a filter text: the on-disk
/// layer, if there is to be one, then the console layer.
pub open spec fn pipeline_layers(filter: Seq<char>, to_disk: bool) -> Seq<LayerView> {
    if to_disk {
        seq![on_disk_layer(filter), console_layer(filter)]
    } else {
        seq![console_layer(filter)]
    }
}

/// The views of a sequence of layers.
pub open spec fn views_of(layers: Seq<LayerPlan>) -> Seq<LayerView> {
    layers.map_values(|layer: LayerPlan| layer@)
}

impl LayerPlan {
    /// A layer from its parts, with `directive` as the source of its filter.
    pub fn new(sink: Sink, ansi: bool, span_events: SpanEvents, directive: String, reloadable: bool) -> (layer: LayerPlan)
        ensures
            layer@ == (LayerView { sink, ansi, span_events, filter: parsed(directive@), reloadable }),
    {
        LayerPlan { sink, ansi, span_events, directive, reloadable }
    }

    /// Where the layer writes.
    pub fn sink(&self) -> (sink: Sink)
        ensures
            sink == self@.sink,
    {
        self.sink
    }

    /// Whether the layer colours its output with ANSI escapes.
    pub fn ansi(&self) -> (ansi: bool)
        ensures
            ansi == self@.ansi,
    {
        self.ansi
    }

    /// The span events that the layer writes.
    pub fn span_events(&self) -> (events: SpanEvents)
        ensures
            events == self@.span_events,
    {
        self.span_events
    }

    /// Whether a reload handle is to be made for the layer's filter.
    pub fn reloadable(&self) -> (reloadable: bool)
        ensures
            reloadable == self@.reloadable,
    {
        self.reloadable
    }

    /// Compiles the layer's filter. Each call gives a filter of its own.
    pub fn filter(&self) -> (filter: FilterSpec)
        ensures
            filter@ == self@.filter,
    {
        FilterSpec::parse(self.directive.as_str())
    }

    /// For a reloadable layer of a pipeline `S`: its filter in a slot of
    /// its own, with the handle bound to the slot. For any other layer:
    /// nothing.
    pub fn open_slot<S: 'static>(&self) -> (opened: Option<(reload::Layer<EnvFilter, S>, LogLevelReloadHandle)>)
        ensures
            opened is Some <==> self@.reloadable,
            opened is Some ==> opened->Some_0.1@ == self@.filter,
    {
        if self.reloadable {
            Some(LogLevelReloadHandle::bind(self.filter()))
        } else {
            None
        }
    }
}

/// Plans the layers of the pipeline for the directive string `log_level`.
///
/// Each layer gets a filter of its own, compiled from the same string, so
/// that replacing the console layer's filter later leaves the file's filter
/// alone.
pub fn plan_layers(log_level: &str, to_disk: bool) -> (layers: Vec<LayerPlan>)
    ensures
        views_of(layers@) == pipeline_layers(parsed(log_level@), to_disk),
{
    let mut layers: Vec<LayerPlan> = Vec::new();
    if to_disk {
        layers.push(LayerPlan {
            sink: Sink::RollingFile { policy: RotationPolicy::on_disk(), queue: QueuePolicy::on_disk() },
            ansi: false,
            span_events: SpanEvents { on_new: true, on_close: true },
            directive: log_level.to_string(),
            reloadable: false,
        });
    }
    layers.push(LayerPlan {
        sink: Sink::Console,
        ansi: true,
        span_events: SpanEvents { on_new: true, on_close: false },
        directive: log_level.to_string(),
        reloadable: true,
    });
    assert(views_of(layers@) =~= pipeline_layers(parsed(log_level@), to_disk));
    layers
}

/// Whatever the directive string, the pipeline has exactly one layer whose
/// filter can be replaced, the console layer, which comes last, and only
/// the layer before it, if there is one, writes to a file.
pub proof fn one_reloadable_layer(filter: Seq<char>, to_disk: bool)
    ensures
        pipeline_layers(filter, to_disk).last() == console_layer(filter),
        forall|i: int|
            0 <= i < pipeline_layers(filter, to_disk).len() ==> (#[trigger] pipeline_layers(filter, to_disk)[i].reloadable
                <==> i == pipeline_layers(filter, to_disk).len() - 1),
        forall|i: int|
            0 <= i < pipeline_layers(filter, to_disk).len() ==> (#[trigger] pipeline_layers(filter, to_disk)[i].sink
                == Sink::Console <==> i == pipeline_layers(filter, to_disk).len() - 1),
{
}

/// The state of a registry: its layers in order, and whether it has been
/// installed as the consumer of the records of the process.
pub struct RegistryView {
    pub layers: Seq<LayerView>,
    pub installed: bool,
}

/// What a request to install does to a registry, given whether the process
/// let the pipeline be its consumer: the registry is installed if it was
/// not yet and the process had no other consumer, and else the request is
/// refused and changes nothing.
pub open spec fn spec_install(before: RegistryView, claimed: bool) -> (RegistryView, Result<(), InitError>) {
    if before.installed || !claimed {
        (before, Err(InitError::AlreadyInstalled))
    } else {
        (RegistryView { layers: before.layers, installed: true }, Ok(()))
    }
}

/// What appending a layer does to a registry: the layer goes to the end
/// while the registry is being put together, and is refused once the
/// registry is installed.
pub open spec fn spec_append(before: RegistryView, layer: LayerView) -> (RegistryView, Result<(), InitError>) {
    if before.installed {
        (before, Err(InitError::AlreadyInstalled))
    } else {
        (RegistryView { layers: before.layers.push(layer), installed: false }, Ok(()))
    }
}

/// Installing twice: once a request to install has succeeded, every later
/// one fails with `AlreadyInstalled`, whatever the process answers, and
/// leaves the installed pipeline as it is.
pub proof fn second_install_fails(before: RegistryView, first_claimed: bool, second_claimed: bool)
    requires
        spec_install(before, first_claimed).1 is Ok,
    ensures
        spec_install(spec_install(before, first_claimed).0, second_claimed).1 == Err::<(), InitError>(
            InitError::AlreadyInstalled,
        ),
        spec_install(spec_install(before, first_claimed).0, second_claimed).0 == spec_install(before, first_claimed).0,
        spec_install(before, first_claimed).0.layers == before.layers,
{
}

/// A refused request to install or to append leaves the registry as it
/// was.
pub proof fn refusal_changes_nothing(before: RegistryView, claimed: bool, layer: LayerView)
    ensures
        spec_install(before, claimed).1 is Err ==> spec_install(before, claimed).0 == before,
        spec_append(before, layer).1 is Err ==> spec_append(before, layer).0 == before,
{
}

/// The layers that observe the records of the process, in the order in which
/// they were put together. Every layer sees every record and decides by its
/// own filter.
pub struct LayerRegistry {
    layers: Vec<LayerPlan>,
    installed: bool,
}

impl View for LayerRegistry {
    type V = RegistryView;

    closed spec fn view(&self) -> RegistryView {
        RegistryView { layers: views_of(self.layers@), installed: self.installed }
    }
}

impl LayerRegistry {
    /// Puts `layers` together, in their order. Nothing is installed yet.
    pub fn build(layers: Vec<LayerPlan>) -> (registry: LayerRegistry)
        ensures
            registry@ == (RegistryView { layers: views_of(layers@), installed: false }),
    {
        LayerRegistry { layers, installed: false }
    }

    /// Adds `layer` behind the others, unless the registry is installed.
    pub fn append(&mut self, layer: LayerPlan) -> (r: Result<(), InitError>)
        ensures
            (final(self)@, r) == spec_append(old(self)@, layer@),
    {
        if self.installed {
            Err(InitError::AlreadyInstalled)
        } else {
            self.layers.push(layer);
            assert(views_of(self.layers@) =~= views_of(old(self).layers@).push(layer@));
            Ok(())
        }
    }

    /// Records the end of a request to install, given whether the process
    /// let the pipeline be its consumer.
    pub fn settle_install(&mut self, claimed: bool) -> (r: Result<(), InitError>)
        ensures
            (final(self)@, r) == spec_install(old(self)@, claimed),
    {
        if self.installed || !claimed {
            Err(InitError::AlreadyInstalled)
        } else {
            self.installed = true;
            Ok(())
        }
    }

    /// Makes `dispatch`, the pipeline built from the layers of this
    /// registry, the consumer of every record of the process.
    ///
    /// An installed registry refuses without asking the process. Otherwise
    /// the process decides: it takes one pipeline in its life.
    pub fn install(&mut self, dispatch: Dispatch) -> (r: Result<(), InitError>)
        ensures
            old(self)@.installed ==> (final(self)@, r) == spec_install(old(self)@, false),
            (final(self)@, r) == spec_install(old(self)@, true) || (final(self)@, r) == spec_install(
                old(self)@,
                false,
            ),
    {
        if self.installed {
            Err(InitError::AlreadyInstalled)
        } else {
            let claimed = claim_global_default(dispatch);
            self.settle_install(claimed)
        }
    }

    /// The place of the first layer that writes to a file, which is the
    /// layer whose file is opened, or `None` if every layer writes to the
    /// console.
    pub fn disk_layer(&self) -> (found: Option<usize>)
        ensures
            found is None ==> forall|j: int| 0 <= j < self@.layers.len() ==> (#[trigger] self@.layers[j]).sink
                == Sink::Console,
            found is Some ==> found->Some_0 < self@.layers.len(),
            found is Some ==> self@.layers[found->Some_0 as int].sink != Sink::Console,
            found is Some ==> forall|j: int| 0 <= j < found->Some_0 ==> (#[trigger] self@.layers[j]).sink
                == Sink::Console,
    {
        let mut i: usize = 0;
        while i < self.layers.len()
            invariant
                i <= self.layers.len(),
                forall|j: int| 0 <= j < i ==> (#[trigger] views_of(self.layers@)[j]).sink == Sink::Console,
            decreases self.layers.len() - i,
        {
            match self.layers[i].sink {
                Sink::Console => {},
                Sink::RollingFile { .. } => {
                    assert(views_of(self.layers@)[i as int] == self.layers@[i as int]@);
                    return Some(i);
                },
            }
            assert(views_of(self.layers@)[i as int] == self.layers@[i as int]@);
            i += 1;
        }
        None
    }

    /// The place of the layer whose filter the handle of the pipeline
    /// replaces: the last layer that is reloadable, or `None` if no layer
    /// is.
    pub fn reload_target(&self) -> (found: Option<usize>)
        ensures
            found is None ==> forall|j: int| 0 <= j < self@.layers.len() ==> !(#[trigger] self@.layers[j]).reloadable,
            found is Some ==> found->Some_0 < self@.layers.len(),
            found is Some ==> self@.layers[found->Some_0 as int].reloadable,
            found is Some ==> forall|j: int|
                found->Some_0 < j < self@.layers.len() ==> !(#[trigger] self@.layers[j]).reloadable,
    {
        let mut i: usize = self.layers.len();
        while i > 0
            invariant
                i <= self.layers.len(),
                forall|j: int| i <= j < self.layers.len() ==> !(#[trigger] views_of(self.layers@)[j]).reloadable,
            decreases i,
        {
            i -= 1;
            assert(views_of(self.layers@)[i as int] == self.layers@[i as int]@);
            if self.layers[i].reloadable {
                return Some(i);
            }
        }
        None
    }

    /// Whether the registry has been installed.
    pub fn is_installed(&self) -> (installed: bool)
        ensures
            installed == self@.installed,
    {
        self.installed
    }

    /// The layers, in order.
    pub fn layers(&self) -> (layers: &Vec<LayerPlan>)
        ensures
            views_of(layers@) == self@.layers,
    {
        &self.layers
    }
}

/// The steps of installing the pipeline, in the order in which they are
/// taken.
#[derive(Clone, Copy, Debug, PartialEq, Eq, Structural)]
pub enum SetupStep {
    /// Route the records of the `log` facade into the pipeline.
    BridgeLog,
    /// Open the log file and start its background writer.
    OpenSink,
    /// Make the pipeline the consumer of every record of the process.
    Install,
    /// Nothing is left to do.
    Done,
}

/// Why the pipeline could not be installed.
#[derive(Clone, Copy, Debug, PartialEq, Eq, Structural)]
pub enum InitError {
    /// The `log` facade already has a consumer.
    LoggerTaken,
    /// The log file could not be opened.
    SinkUnavailable,
    /// The process already has a pipeline; it stays as it is.
    AlreadyInstalled,
}

/// What follows `step`, given whether it succeeded: the next step, or the
/// error that ends the installation. Without an on-disk layer no file is
/// opened.
pub open spec fn spec_after_step(step: SetupStep, succeeded: bool, to_disk: bool) -> Result<SetupStep, InitError> {
    match step {
        SetupStep::BridgeLog => if !succeeded {
            Err(InitError::LoggerTaken)
        } else if to_disk {
            Ok(SetupStep::OpenSink)
        } else {
            Ok(SetupStep::Install)
        },
        SetupStep::OpenSink => if succeeded {
            Ok(SetupStep::Install)
        } else {
            Err(InitError::SinkUnavailable)
        },
        SetupStep::Install => if succeeded {
            Ok(SetupStep::Done)
        } else {
            Err(InitError::AlreadyInstalled)
        },
        SetupStep::Done => Ok(SetupStep::Done),
    }
}

impl SetupStep {
    /// The step with which every installation starts.
    pub fn first() -> (step: SetupStep)
        ensures
            step == SetupStep::BridgeLog,
    {
        SetupStep::BridgeLog
    }

    /// Takes the first step: claims the `log` facade for the pipeline, and
    /// says what follows.
    pub fn bridge_log(to_disk: bool) -> (next: Result<SetupStep, InitError>)
        ensures
            next == spec_after_step(SetupStep::BridgeLog, true, to_disk) || next == spec_after_step(
                SetupStep::BridgeLog,
                false,
                to_disk,
            ),
    {
        let claimed = claim_log_facade();
        SetupStep::BridgeLog.after(claimed, to_disk)
    }

    /// Decides what follows this step, once it has been carried out.
    pub fn after(self, succeeded: bool, to_disk: bool) -> (next: Result<SetupStep, InitError>)
        ensures
            next == spec_after_step(self, succeeded, to_disk),
    {
        match self {
            SetupStep::BridgeLog => if !succeeded {
                Err(InitError::LoggerTaken)
            } else if to_disk {
                Ok(SetupStep::OpenSink)
            } else {
                Ok(SetupStep::Install)
            },
            SetupStep::OpenSink => if succeeded {
                Ok(SetupStep::Install)
            } else {
                Err(InitError::SinkUnavailable)
            },
            SetupStep::Install => if succeeded {
                Ok(SetupStep::Done)
            } else {
                Err(InitError::AlreadyInstalled)
            },
            SetupStep::Done => Ok(SetupStep::Done),
        }
    }
}

impl InitError {
    /// A sentence for an operator.
    pub fn message(&self) -> (text: &'static str)
        ensures
            text@ == (match *self {
                InitError::LoggerTaken => "the log facade already has a consumer"@,
                InitError::SinkUnavailable => "the log file could not be opened"@,
                InitError::AlreadyInstalled => "a logging pipeline is already installed"@,
            }),
    {
        match self {
            InitError::LoggerTaken => "the log facade already has a consumer",
            InitError::SinkUnavailable => "the log file could not be opened",
            InitError::AlreadyInstalled => "a logging pipeline is already installed",
        }
    }
}

/// An installation never succeeds past a failed step: a step that failed is
/// followed by an error, and a step that succeeded by a later step.
pub proof fn failed_step_ends_setup(step: SetupStep, to_disk: bool)
    requires
        step != SetupStep::Done,
    ensures
        spec_after_step(step, false, to_disk) is Err,
        spec_after_step(step, true, to_disk) is Ok,
        spec_after_step(SetupStep::Install, false, to_disk) == Err::<SetupStep, InitError>(InitError::AlreadyInstalled),
{
}

} // verus!
