//! The pipeline: how the configured stages are linked by channels, and what
//! the driver of a stage does with each thing that happens to it.
//!
//! Channels, tasks and the waiting on them are outside this crate. What
//! is here are the decisions: which channels exist, which peers an object
//! goes to, when a peer is given up, and when a driver stops.

use crate::components::control::Controls;
use crate::components::processing_units::PUs;
use crate::components::processing_units::factory::{buildable, can_make};
use crate::components::sinks::Sinks;
use crate::components::sources::Sources;
use crate::config::Config;
use crate::config::pus::PUConfigs;
use crate::config::sources::SourceConfigs;
use crate::objects::Objects;
use crate::utils::text::same_text;
use vstd::prelude::*;

verus! {

/// The peers of a stage on one side, outbound senders or inbound
/// receivers, by their index in the order of wiring. A peer that failed is
/// disabled for good; the indices of the others never change.
pub struct Links {
    disabled: Vec<bool>,
}

impl Links {
    /// Number of peers, enabled or not.
    pub closed spec fn count(&self) -> nat {
        self.disabled@.len()
    }

    /// Whether the peer at `index` has been disabled.
    pub closed spec fn is_disabled(&self, index: int) -> bool {
        0 <= index < self.disabled@.len() && self.disabled@[index]
    }

    /// Every peer has been disabled. A stage without peers on this side
    /// has, trivially, no peer left.
    pub open spec fn exhausted(&self) -> bool {
        forall|i: int| 0 <= i < self.count() ==> self.is_disabled(i)
    }

    /// No peer has been disabled.
    pub open spec fn healthy(&self) -> bool {
        forall|i: int| 0 <= i < self.count() ==> !self.is_disabled(i)
    }

    /// `count` peers, all enabled.
    pub fn new(count: usize) -> (r: Links)
        ensures
            r.count() == count,
            r.healthy(),
    {
        let mut disabled: Vec<bool> = Vec::new();
        let mut i: usize = 0;
        while i < count
            invariant
                i <= count,
                disabled.len() == i,
                forall|j: int| 0 <= j < i ==> !disabled[j],
            decreases count - i,
        {
            disabled.push(false);
            i = i + 1;
        }
        Links { disabled }
    }

    pub fn len(&self) -> (r: usize)
        ensures
            r == self.count(),
    {
        self.disabled.len()
    }

    pub fn is_enabled(&self, index: usize) -> (r: bool)
        ensures
            r == (index < self.count() && !self.is_disabled(index as int)),
    {
        index < self.disabled.len() && !self.disabled[index]
    }

    /// The indices of the enabled peers, in ascending order: every enabled
    /// peer once, and no other. While no peer has failed, these are all
    /// the peers: an object that is fanned out reaches every one of them.
    pub fn targets(&self) -> (r: Vec<usize>)
        ensures
            forall|k: int| 0 <= k < r.len() ==> r[k] < self.count() && !self.is_disabled(r[k] as int),
            forall|k: int, l: int| 0 <= k < l < r.len() ==> r[k] < r[l],
            forall|i: int|
                0 <= i < self.count() && !self.is_disabled(i) ==> exists|k: int|
                    0 <= k < r.len() && #[trigger] r[k] == i,
            self.healthy() ==> r.len() == self.count() && forall|i: int|
                0 <= i < r.len() ==> r[i] == i,
    {
        let mut out: Vec<usize> = Vec::new();
        let mut i: usize = 0;
        while i < self.disabled.len()
            invariant
                i <= self.disabled.len(),
                out.len() <= i,
                forall|k: int| 0 <= k < out.len() ==> out[k] < i && !self.is_disabled(out[k] as int),
                forall|k: int, l: int| 0 <= k < l < out.len() ==> out[k] < out[l],
                forall|j: int|
                    0 <= j < i && !self.is_disabled(j) ==> exists|k: int|
                        0 <= k < out.len() && #[trigger] out[k] == j,
                self.healthy() ==> out.len() == i && forall|j: int| 0 <= j < i ==> out[j] == j,
            decreases self.disabled.len() - i,
        {
            if !self.disabled[i] {
                let ghost before = out@;
                out.push(i);
                proof {
                    assert forall|j: int| 0 <= j < i + 1 && !self.is_disabled(j) implies exists|
                        k: int,
                    |
                        0 <= k < out.len() && #[trigger] out[k] == j by {
                        if j < i {
                            let k = choose|k: int| 0 <= k < before.len() && #[trigger] before[k] == j;
                            assert(out[k] == j);
                        } else {
                            assert(out[out.len() - 1] == j);
                        }
                    }
                }
            } else {
                proof {
                    assert(self.is_disabled(i as int));
                }
            }
            i = i + 1;
        }
        out
    }

    /// Disables the peer at `index` after it failed, and says whether
    /// that leaves no peer: the driver then stops. The other peers keep
    /// their state.
    pub fn disable(&mut self, index: usize) -> (r: bool)
        requires
            index < old(self).count(),
        ensures
            final(self).count() == old(self).count(),
            final(self).is_disabled(index as int),
            forall|i: int| i != index ==> final(self).is_disabled(i) == old(self).is_disabled(i),
            r == final(self).exhausted(),
    {
        self.disabled.set(index, true);
        self.none_left()
    }

    /// Whether every peer has been disabled.
    pub fn none_left(&self) -> (r: bool)
        ensures
            r == self.exhausted(),
    {
        let mut i: usize = 0;
        while i < self.disabled.len()
            invariant
                i <= self.disabled.len(),
                forall|j: int| 0 <= j < i ==> self.is_disabled(j),
            decreases self.disabled.len() - i,
        {
            if !self.disabled[i] {
                proof {
                    assert(!self.is_disabled(i as int));
                }
                return false;
            }
            i = i + 1;
        }
        true
    }
}

/// The kind of a stage.
#[derive(Clone, Copy, Debug, PartialEq, Eq, Structural)]
pub enum StageKind {
    Source,
    Processor,
    Sink,
}

/// What the driver of a stage does next.
pub enum Step {
    /// Send the object to every enabled outbound peer.
    Fanout(Objects),
    /// Set the throttle of the source.
    SleepTime(u64),
    /// Hand the object to the processor.
    Execute(Objects),
    /// Hand the object to the sink.
    Send(Objects),
    /// Nothing to do: wait for the next event.
    Continue,
    /// Leave the loop.
    Stop,
}

/// What a driver does with a message from its control channel; `None`
/// stands for a failure of the channel.
///
/// A failed channel stops the driver. An injected object is fanned out by
/// a source or a processor as if the stage had produced it, and ignored by
/// a sink. A new sleep time is set on a source and ignored by the others.
pub open spec fn control_step(kind: StageKind, message: Option<Controls>) -> Step {
    match message {
        None => Step::Stop,
        Some(Controls::Inject(obj)) => match kind {
            StageKind::Sink => Step::Continue,
            _ => Step::Fanout(obj),
        },
        Some(Controls::SleepTime(sleep_time)) => match kind {
            StageKind::Source => Step::SleepTime(sleep_time),
            _ => Step::Continue,
        },
    }
}

pub fn on_control(kind: StageKind, message: Option<Controls>) -> (r: Step)
    ensures
        r == control_step(kind, message),
{
    match message {
        None => Step::Stop,
        Some(Controls::Inject(obj)) => match kind {
            StageKind::Sink => Step::Continue,
            _ => Step::Fanout(obj),
        },
        Some(Controls::SleepTime(sleep_time)) => match kind {
            StageKind::Source => Step::SleepTime(sleep_time),
            _ => Step::Continue,
        },
    }
}

/// What a driver does with what its source received or its processor
/// made of an object. An object is fanned out. No object with the
/// completed mark stops the driver; no object without the mark is nothing
/// to act on. An error stops the driver of a source; the driver of a
/// processor drops the input and takes the next one. A sink produces
/// nothing.
pub open spec fn produced_step(
    kind: StageKind,
    result: Result<(Option<Objects>, bool), String>,
) -> Step {
    match result {
        Ok((Some(obj), _)) => Step::Fanout(obj),
        Ok((None, true)) => Step::Stop,
        Ok((None, false)) => Step::Continue,
        Err(_) => match kind {
            StageKind::Source => Step::Stop,
            _ => Step::Continue,
        },
    }
}

pub fn on_produced(kind: StageKind, result: Result<(Option<Objects>, bool), String>) -> (r: Step)
    requires
        kind != StageKind::Sink,
    ensures
        r == produced_step(kind, result),
{
    match result {
        Ok((Some(obj), _)) => Step::Fanout(obj),
        Ok((None, true)) => Step::Stop,
        Ok((None, false)) => Step::Continue,
        Err(_) => match kind {
            StageKind::Source => Step::Stop,
            _ => Step::Continue,
        },
    }
}

/// What a driver does with an object that arrived on an inbound channel:
/// a processor executes it, a sink sends it. A source has no inbound
/// channel.
pub open spec fn received_step(kind: StageKind, obj: Objects) -> Step {
    match kind {
        StageKind::Sink => Step::Send(obj),
        _ => Step::Execute(obj),
    }
}

pub fn on_received(kind: StageKind, obj: Objects) -> (r: Step)
    requires
        kind != StageKind::Source,
    ensures
        r == received_step(kind, obj),
{
    match kind {
        StageKind::Sink => Step::Send(obj),
        _ => Step::Execute(obj),
    }
}

/// What the driver of a sink does after the sink took an object: it goes
/// on. Where the sink reported an error, the object is lost and the next
/// one is taken.
pub open spec fn sent_step(result: Result<(), String>) -> Step {
    match result {
        Ok(_) => Step::Continue,
        Err(_) => Step::Continue,
    }
}

pub fn on_sent(result: Result<(), String>) -> (r: Step)
    ensures
        r == sent_step(result),
{
    match result {
        Ok(()) => Step::Continue,
        Err(_) => Step::Continue,
    }
}

/// What a driver does after a peer failed: the peer is disabled, and the
/// driver stops if that was the last one.
pub fn on_peer_failed(links: &mut Links, index: usize) -> (r: Step)
    requires
        index < old(links).count(),
    ensures
        final(links).count() == old(links).count(),
        final(links).is_disabled(index as int),
        forall|i: int| i != index ==> final(links).is_disabled(i) == old(links).is_disabled(i),
        r == if final(links).exhausted() {
            Step::Stop
        } else {
            Step::Continue
        },
{
    if links.disable(index) {
        Step::Stop
    } else {
        Step::Continue
    }
}

/// A bounded data channel between two stages, as it is to be created.
pub struct Channel {
    pub upstream: String,
    pub downstream: String,
    pub capacity: usize,
}

/// A channel as a mathematical value.
pub struct Edge {
    pub upstream: Seq<char>,
    pub downstream: Seq<char>,
    pub capacity: usize,
}

impl View for Channel {
    type V = Edge;

    open spec fn view(&self) -> Edge {
        Edge { upstream: self.upstream@, downstream: self.downstream@, capacity: self.capacity }
    }
}

/// The channels of a list as mathematical values.
pub open spec fn edges_of(channels: Seq<Channel>) -> Seq<Edge> {
    Seq::new(channels.len(), |i: int| channels[i]@)
}

/// Why a pipeline cannot be set up from a configuration.
pub enum WiringError {
    /// A stage names a downstream that is neither a processing unit nor a
    /// sink.
    UnknownDownstream { stage: String, downstream: String },
    /// No processing unit can be built from the configuration of that
    /// name.
    CannotBuild { stage: String },
}

/// The processing units of a configuration, none where it has no list of
/// them.
pub open spec fn pu_list(cfg: Config) -> Seq<PUConfigs> {
    match cfg.pus {
        Some(units) => units@,
        None => Seq::empty(),
    }
}

/// The channels that leave one stage: one to each of its downstreams, in
/// the order in which it names them, each with the stage's queue size.
pub open spec fn stage_edges(name: Seq<char>, downstreams: Seq<String>, capacity: usize) -> Seq<
    Edge,
> {
    Seq::new(
        downstreams.len(),
        |i: int| Edge { upstream: name, downstream: downstreams[i]@, capacity },
    )
}

/// The channels that leave the sources, source by source.
pub open spec fn source_edges(sources: Seq<SourceConfigs>) -> Seq<Edge>
    decreases sources.len(),
{
    if sources.len() == 0 {
        Seq::empty()
    } else {
        source_edges(sources.drop_last()) + stage_edges(
            sources.last().spec_name()@,
            sources.last().spec_downstreams()@,
            sources.last().spec_queue_size(),
        )
    }
}

/// The channels that leave the processing units, unit by unit.
pub open spec fn pu_edges(units: Seq<PUConfigs>) -> Seq<Edge>
    decreases units.len(),
{
    if units.len() == 0 {
        Seq::empty()
    } else {
        pu_edges(units.drop_last()) + stage_edges(
            units.last().spec_name()@,
            units.last().spec_downstreams()@,
            units.last().spec_queue_size(),
        )
    }
}

/// All channels of a configuration in the order of their creation: those
/// of the sources, then those of the processing units.
pub open spec fn all_edges(cfg: Config) -> Seq<Edge> {
    source_edges(cfg.sources@) + pu_edges(pu_list(cfg))
}

/// Whether a stage of that name has an inbound side: it is a processing
/// unit or a sink.
pub open spec fn can_receive(cfg: Config, name: Seq<char>) -> bool {
    ||| exists|i: int| 0 <= i < pu_list(cfg).len() && (#[trigger] pu_list(cfg)[i]).spec_name()@ == name
    ||| exists|i: int| 0 <= i < cfg.sinks@.len() && (#[trigger] cfg.sinks@[i]).spec_name()@ == name
}

/// The first channel, in the order of creation, whose downstream cannot
/// receive is at `k`.
pub open spec fn first_unknown(cfg: Config, k: int) -> bool {
    &&& 0 <= k < all_edges(cfg).len()
    &&& !can_receive(cfg, all_edges(cfg)[k].downstream)
    &&& forall|j: int| 0 <= j < k ==> can_receive(cfg, (#[trigger] all_edges(cfg)[j]).downstream)
}

/// Every channel ends at a stage that can receive.
pub open spec fn well_wired(cfg: Config) -> bool {
    forall|j: int|
        0 <= j < all_edges(cfg).len() ==> can_receive(cfg, (#[trigger] all_edges(cfg)[j]).downstream)
}

fn push_stage_channels(
    out: &mut Vec<Channel>,
    name: &str,
    downstreams: &Vec<String>,
    capacity: usize,
)
    ensures
        edges_of(final(out)@) == edges_of(old(out)@) + stage_edges(name@, downstreams@, capacity),
{
    let ghost before = edges_of(out@);
    let ghost added = stage_edges(name@, downstreams@, capacity);
    let mut j: usize = 0;
    while j < downstreams.len()
        invariant
            j <= downstreams.len(),
            added == stage_edges(name@, downstreams@, capacity),
            edges_of(out@) == before + added.take(j as int),
        decreases downstreams.len() - j,
    {
        let channel = Channel {
            upstream: name.to_owned(),
            downstream: downstreams[j].clone(),
            capacity,
        };
        let ghost grown = edges_of(out@).push(channel@);
        out.push(channel);
        proof {
            assert(edges_of(out@) =~= grown);
            assert(grown =~= before + added.take(j + 1));
        }
        j = j + 1;
    }
    proof {
        assert(added.take(downstreams.len() as int) =~= added);
    }
}

/// The channels that leave the sources.
fn source_channels(sources: &Vec<SourceConfigs>) -> (r: Vec<Channel>)
    ensures
        edges_of(r@) == source_edges(sources@),
{
    let mut out: Vec<Channel> = Vec::new();
    let mut i: usize = 0;
    proof {
        assert(edges_of(out@) =~= source_edges(sources@.take(0)));
    }
    while i < sources.len()
        invariant
            i <= sources.len(),
            edges_of(out@) == source_edges(sources@.take(i as int)),
        decreases sources.len() - i,
    {
        proof {
            assert(sources@.take(i + 1).drop_last() =~= sources@.take(i as int));
        }
        let stage = &sources[i];
        push_stage_channels(&mut out, stage.name(), stage.downstreams(), stage.queue_size());
        i = i + 1;
    }
    proof {
        assert(sources@.take(sources.len() as int) =~= sources@);
    }
    out
}

/// Adds the channels that leave the processing units.
fn push_pu_channels(out: &mut Vec<Channel>, units: &Vec<PUConfigs>)
    ensures
        edges_of(final(out)@) == edges_of(old(out)@) + pu_edges(units@),
{
    let ghost before = edges_of(out@);
    let mut i: usize = 0;
    proof {
        assert(edges_of(out@) =~= before + pu_edges(units@.take(0)));
    }
    while i < units.len()
        invariant
            i <= units.len(),
            edges_of(out@) == before + pu_edges(units@.take(i as int)),
        decreases units.len() - i,
    {
        proof {
            assert(units@.take(i + 1).drop_last() =~= units@.take(i as int));
        }
        let stage = &units[i];
        let ghost so_far = pu_edges(units@.take(i as int));
        let ghost more = stage_edges(
            stage.spec_name()@,
            stage.spec_downstreams()@,
            stage.spec_queue_size(),
        );
        push_stage_channels(out, stage.name(), stage.downstreams(), stage.queue_size());
        proof {
            assert((before + so_far) + more =~= before + (so_far + more));
        }
        i = i + 1;
    }
    proof {
        assert(units@.take(units.len() as int) =~= units@);
    }
}

/// Whether a stage of that name has an inbound side.
pub fn has_inbound(cfg: &Config, name: &String) -> (r: bool)
    ensures
        r == can_receive(*cfg, name@),
{
    match &cfg.pus {
        Some(units) => {
            let mut i: usize = 0;
            while i < units.len()
                invariant
                    i <= units.len(),
                    cfg.pus == Some(*units),
                    forall|j: int| 0 <= j < i ==> (#[trigger] units@[j]).spec_name()@ != name@,
                decreases units.len() - i,
            {
                if same_text(units[i].name(), name.as_str()) {
                    proof {
                        assert(pu_list(*cfg)[i as int].spec_name()@ == name@);
                    }
                    return true;
                }
                i = i + 1;
            }
        },
        None => {},
    }
    let mut i: usize = 0;
    while i < cfg.sinks.len()
        invariant
            i <= cfg.sinks.len(),
            forall|j: int|
                0 <= j < pu_list(*cfg).len() ==> (#[trigger] pu_list(*cfg)[j]).spec_name()@ != name@,
            forall|j: int| 0 <= j < i ==> (#[trigger] cfg.sinks@[j]).spec_name()@ != name@,
        decreases cfg.sinks.len() - i,
    {
        if same_text(cfg.sinks[i].name(), name.as_str()) {
            proof {
                assert(cfg.sinks@[i as int].spec_name()@ == name@);
            }
            return true;
        }
        i = i + 1;
    }
    false
}

/// Lays out the data channels of a configuration.
///
/// Every source and every processing unit gets one channel to each stage
/// that it names as a downstream, with the stage's own queue size; the
/// channels are listed in the order of their creation. A configuration
/// with a downstream that is neither a processing unit nor a sink is
/// rejected, with the first such channel as the reason.
pub fn wire(cfg: &Config) -> (r: Result<Vec<Channel>, WiringError>)
    ensures
        match r {
            Ok(channels) => well_wired(*cfg) && edges_of(channels@) == all_edges(*cfg),
            Err(WiringError::UnknownDownstream { stage, downstream }) => exists|k: int|
                first_unknown(*cfg, k) && stage@ == (#[trigger] all_edges(*cfg)[k]).upstream
                    && downstream@ == all_edges(*cfg)[k].downstream,
            Err(WiringError::CannotBuild { .. }) => false,
        },
{
    let mut channels = source_channels(&cfg.sources);
    match &cfg.pus {
        Some(units) => {
            push_pu_channels(&mut channels, units);
        },
        None => {
            proof {
                assert(edges_of(channels@) + pu_edges(Seq::<PUConfigs>::empty()) =~= edges_of(
                    channels@,
                ));
            }
        },
    }
    let mut k: usize = 0;
    while k < channels.len()
        invariant
            k <= channels.len(),
            edges_of(channels@) == all_edges(*cfg),
            forall|j: int| 0 <= j < k ==> can_receive(*cfg, (#[trigger] all_edges(*cfg)[j]).downstream),
        decreases channels.len() - k,
    {
        if !has_inbound(cfg, &channels[k].downstream) {
            proof {
                assert(edges_of(channels@)[k as int] == channels@[k as int]@);
                assert(first_unknown(*cfg, k as int));
            }
            return Err(
                WiringError::UnknownDownstream {
                    stage: channels[k].upstream.clone(),
                    downstream: channels[k].downstream.clone(),
                },
            );
        }
        proof {
            assert(edges_of(channels@)[k as int] == channels@[k as int]@);
        }
        k = k + 1;
    }
    Ok(channels)
}

/// The channels that leave the stage of that name, by their index in the
/// list, in order: these are its outbound peers.
pub fn outbound(channels: &Vec<Channel>, name: &str) -> (r: Vec<usize>)
    ensures
        forall|k: int| 0 <= k < r.len() ==> r[k] < channels.len() && channels[r[k] as int].upstream@
            == name@,
        forall|k: int, l: int| 0 <= k < l < r.len() ==> r[k] < r[l],
        forall|i: int|
            0 <= i < channels.len() && channels[i].upstream@ == name@ ==> exists|k: int|
                0 <= k < r.len() && #[trigger] r[k] == i,
{
    let mut out: Vec<usize> = Vec::new();
    let mut i: usize = 0;
    while i < channels.len()
        invariant
            i <= channels.len(),
            forall|k: int| 0 <= k < out.len() ==> out[k] < i && channels[out[k] as int].upstream@
                == name@,
            forall|k: int, l: int| 0 <= k < l < out.len() ==> out[k] < out[l],
            forall|j: int|
                0 <= j < i && channels[j].upstream@ == name@ ==> exists|k: int|
                    0 <= k < out.len() && #[trigger] out[k] == j,
        decreases channels.len() - i,
    {
        if same_text(channels[i].upstream.as_str(), name) {
            let ghost before = out@;
            out.push(i);
            proof {
                assert forall|j: int| 0 <= j < i + 1 && channels[j].upstream@ == name@ implies exists|
                    k: int,
                |
                    0 <= k < out.len() && #[trigger] out[k] == j by {
                    if j < i {
                        let k = choose|k: int| 0 <= k < before.len() && #[trigger] before[k] == j;
                        assert(out[k] == j);
                    } else {
                        assert(out[out.len() - 1] == j);
                    }
                }
            }
        }
        i = i + 1;
    }
    out
}

/// The channels that arrive at the stage of that name, by their index in
/// the list, in order: these are its inbound peers.
pub fn inbound(channels: &Vec<Channel>, name: &str) -> (r: Vec<usize>)
    ensures
        forall|k: int|
            0 <= k < r.len() ==> r[k] < channels.len() && channels[r[k] as int].downstream@
                == name@,
        forall|k: int, l: int| 0 <= k < l < r.len() ==> r[k] < r[l],
        forall|i: int|
            0 <= i < channels.len() && channels[i].downstream@ == name@ ==> exists|k: int|
                0 <= k < r.len() && #[trigger] r[k] == i,
{
    let mut out: Vec<usize> = Vec::new();
    let mut i: usize = 0;
    while i < channels.len()
        invariant
            i <= channels.len(),
            forall|k: int|
                0 <= k < out.len() ==> out[k] < i && channels[out[k] as int].downstream@ == name@,
            forall|k: int, l: int| 0 <= k < l < out.len() ==> out[k] < out[l],
            forall|j: int|
                0 <= j < i && channels[j].downstream@ == name@ ==> exists|k: int|
                    0 <= k < out.len() && #[trigger] out[k] == j,
        decreases channels.len() - i,
    {
        if same_text(channels[i].downstream.as_str(), name) {
            let ghost before = out@;
            out.push(i);
            proof {
                assert forall|j: int|
                    0 <= j < i + 1 && channels[j].downstream@ == name@ implies exists|k: int|
                    0 <= k < out.len() && #[trigger] out[k] == j by {
                    if j < i {
                        let k = choose|k: int| 0 <= k < before.len() && #[trigger] before[k] == j;
                        assert(out[k] == j);
                    } else {
                        assert(out[out.len() - 1] == j);
                    }
                }
            }
        }
        i = i + 1;
    }
    out
}

/// Every processing unit of the configuration can be built.
pub open spec fn all_buildable(cfg: Config) -> bool {
    forall|i: int| 0 <= i < pu_list(cfg).len() ==> buildable(#[trigger] pu_list(cfg)[i])
}

/// The pipeline as it stands before it runs: its stages, each built from
/// its configuration, and the data channels between them.
pub struct Processor {
    pub name: String,
    pub sources: Vec<Sources>,
    pub pus: Vec<PUs>,
    pub sinks: Vec<Sinks>,
    pub channels: Vec<Channel>,
}

impl Processor {
    /// The stages are those of the configuration, kind by kind and in
    /// their order, each as its configuration describes it; `started` is
    /// the text that the file sinks carry in the names of their files.
    pub open spec fn built_from(&self, cfg: Config, started: Seq<char>) -> bool {
        &&& self.sources@.len() == cfg.sources@.len()
        &&& forall|i: int|
            0 <= i < cfg.sources@.len() ==> (#[trigger] self.sources@[i]).configured_by(
                cfg.sources@[i],
            )
        &&& self.pus@.len() == pu_list(cfg).len()
        &&& forall|i: int|
            0 <= i < pu_list(cfg).len() ==> (#[trigger] self.pus@[i]).configured_by(
                pu_list(cfg)[i],
            )
        &&& self.sinks@.len() == cfg.sinks@.len()
        &&& forall|i: int|
            0 <= i < cfg.sinks@.len() ==> (#[trigger] self.sinks@[i]).configured_by(
                cfg.sinks@[i],
                started,
            )
    }

    /// Sets the pipeline up from a configuration in which every processing
    /// unit can be built and every downstream can receive: builds every
    /// stage and lays out the channels as [`wire`] does. `started` is the
    /// text of the present moment, for the sinks that name their file
    /// after it. Whether a configuration is fit is what [`Self::try_new`]
    /// tells.
    pub fn new(processor_name: &str, cfg: &Config, started: &str) -> (r: Processor)
        requires
            all_buildable(*cfg),
            well_wired(*cfg),
        ensures
            r.name@ == processor_name@,
            r.built_from(*cfg, started@),
            edges_of(r.channels@) == all_edges(*cfg),
    {
        match Self::try_new(processor_name, cfg, started) {
            Ok(processor) => processor,
            Err(_) => vstd::pervasive::unreached(),
        }
    }

    /// Sets the pipeline up from a configuration, or says why it cannot
    /// be.
    ///
    /// A configuration succeeds exactly if every processing unit can be
    /// built and every downstream can receive; the pipeline is then the
    /// one that [`Self::new`] gives. Else the error names the first
    /// processing unit that cannot be built or, where all can, the first
    /// channel that ends nowhere.
    pub fn try_new(processor_name: &str, cfg: &Config, started: &str) -> (r: Result<
        Processor,
        WiringError,
    >)
        ensures
            r is Ok <==> all_buildable(*cfg) && well_wired(*cfg),
            match r {
                Ok(processor) => {
                    &&& processor.name@ == processor_name@
                    &&& processor.built_from(*cfg, started@)
                    &&& edges_of(processor.channels@) == all_edges(*cfg)
                },
                Err(WiringError::CannotBuild { stage }) => exists|i: int|
                    0 <= i < pu_list(*cfg).len() && !buildable(#[trigger] pu_list(*cfg)[i])
                        && stage@ == pu_list(*cfg)[i].spec_name()@ && forall|j: int|
                        0 <= j < i ==> buildable(#[trigger] pu_list(*cfg)[j]),
                Err(WiringError::UnknownDownstream { stage, downstream }) => all_buildable(*cfg)
                    && exists|k: int|
                    first_unknown(*cfg, k) && stage@ == (#[trigger] all_edges(*cfg)[k]).upstream
                        && downstream@ == all_edges(*cfg)[k].downstream,
            },
    {
        let mut pus: Vec<PUs> = Vec::new();
        match &cfg.pus {
            Some(units) => {
                let mut i: usize = 0;
                while i < units.len()
                    invariant
                        i <= units.len(),
                        cfg.pus == Some(*units),
                        pus.len() == i,
                        forall|j: int| 0 <= j < i ==> buildable(#[trigger] units@[j]),
                        forall|j: int|
                            0 <= j < i ==> (#[trigger] pus@[j]).configured_by(units@[j]),
                    decreases units.len() - i,
                {
                    if !can_make(&units[i]) {
                        proof {
                            assert(!buildable(pu_list(*cfg)[i as int]));
                        }
                        return Err(
                            WiringError::CannotBuild { stage: units[i].name().to_owned() },
                        );
                    }
                    pus.push(crate::components::processing_units::factory::make(&units[i]));
                    i = i + 1;
                }
            },
            None => {},
        }
        let channels = match wire(cfg) {
            Ok(channels) => channels,
            Err(e) => {
                return Err(e);
            },
        };
        let mut sources: Vec<Sources> = Vec::new();
        let mut i: usize = 0;
        while i < cfg.sources.len()
            invariant
                i <= cfg.sources.len(),
                sources.len() == i,
                forall|j: int|
                    0 <= j < i ==> (#[trigger] sources@[j]).configured_by(cfg.sources@[j]),
            decreases cfg.sources.len() - i,
        {
            sources.push(crate::components::sources::factory::make(&cfg.sources[i]));
            i = i + 1;
        }
        let mut sinks: Vec<Sinks> = Vec::new();
        let mut i: usize = 0;
        while i < cfg.sinks.len()
            invariant
                i <= cfg.sinks.len(),
                sinks.len() == i,
                forall|j: int|
                    0 <= j < i ==> (#[trigger] sinks@[j]).configured_by(cfg.sinks@[j], started@),
            decreases cfg.sinks.len() - i,
        {
            sinks.push(crate::components::sinks::factory::make(&cfg.sinks[i], started));
            i = i + 1;
        }
        Ok(Processor { name: processor_name.to_owned(), sources, pus, sinks, channels })
    }
}

} // verus!
