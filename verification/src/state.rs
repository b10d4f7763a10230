//! Runtime state of one edge node: whether it streams, the publisher process
//! that does it, and the sequence number of the metadata it publishes.
//!
//! Starting and stopping the publisher are split into a decision made here
//! and the process work done by the caller, which reports back.
use vstd::prelude::*;

use crate::config::AppConfig;

verus! {

/// Runtime state of one node; `C` is the handle of the publisher process.
pub struct NodeState<C> {
    pub is_streaming: bool,
    pub gst_child: Option<C>,
    pub metadata_sequence: u64,
}

/// What a start command does in a given state.
#[derive(Debug, Clone, Copy, PartialEq, Eq, Structural)]
pub enum StartDecision {
    /// The node streams already: nothing to do.
    AlreadyStreaming,
    /// `rtsp.enabled` is false: the command is ignored with a warning.
    RtspDisabled,
    /// Launch the publisher, then report it with `stream_started`.
    Launch,
}

/// What a stop command does in a given state.
pub enum StopDecision<C> {
    /// The node does not stream: nothing to do.
    NotStreaming,
    /// Stop this publisher process (if there is one), then report it with
    /// `stream_stopped`.
    Stop(Option<C>),
}

/// The sequence number that follows `s`, wrapping at `u64::MAX`.
pub open spec fn next_sequence(s: u64) -> u64 {
    if s == u64::MAX {
        0
    } else {
        (s + 1) as u64
    }
}

/// The decision of a start command.
pub open spec fn start_decision_of(is_streaming: bool, rtsp_enabled: bool) -> StartDecision {
    if is_streaming {
        StartDecision::AlreadyStreaming
    } else if !rtsp_enabled {
        StartDecision::RtspDisabled
    } else {
        StartDecision::Launch
    }
}

/// The state once the publisher `child` runs.
pub open spec fn started<C>(s: NodeState<C>, child: C) -> NodeState<C> {
    NodeState { is_streaming: true, gst_child: Some(child), metadata_sequence: s.metadata_sequence }
}

/// The state once a stop command took the publisher out of `s`.
pub open spec fn child_taken<C>(s: NodeState<C>) -> NodeState<C> {
    NodeState { is_streaming: s.is_streaming, gst_child: None, metadata_sequence: s.metadata_sequence }
}

/// The state once the publisher of `s` has exited.
pub open spec fn stopped<C>(s: NodeState<C>) -> NodeState<C> {
    NodeState { is_streaming: false, gst_child: s.gst_child, metadata_sequence: s.metadata_sequence }
}

impl<C> NodeState<C> {
    /// A node that does not stream and has published no metadata.
    pub fn new() -> (s: Self)
        ensures
            s == initial_state::<C>(),
    {
        NodeState { is_streaming: false, gst_child: None, metadata_sequence: 0 }
    }

    /// What a start command does: nothing while streaming, nothing (with a
    /// warning) when RTSP is disabled, else launch the publisher.
    pub fn start_decision(&self, config: &AppConfig) -> (d: StartDecision)
        ensures
            d == start_decision_of(self.is_streaming, config.rtsp.enabled),
    {
        if self.is_streaming {
            StartDecision::AlreadyStreaming
        } else if !config.rtsp.enabled {
            StartDecision::RtspDisabled
        } else {
            StartDecision::Launch
        }
    }

    /// Records that the publisher `child` was launched.
    pub fn stream_started(&mut self, child: C)
        ensures
            *final(self) == started(*old(self), child),
    {
        self.gst_child = Some(child);
        self.is_streaming = true;
    }

    /// What a stop command does: nothing when not streaming, else take the
    /// publisher out of the state to stop it.
    pub fn begin_stop(&mut self) -> (d: StopDecision<C>)
        ensures
            !old(self).is_streaming ==> d is NotStreaming && *final(self) == *old(self),
            old(self).is_streaming ==> d == StopDecision::Stop(old(self).gst_child) && *final(self)
                == child_taken(*old(self)),
    {
        if !self.is_streaming {
            return StopDecision::NotStreaming;
        }
        let child = self.gst_child.take();
        StopDecision::Stop(child)
    }

    /// Records that the publisher has exited.
    pub fn stream_stopped(&mut self)
        ensures
            *final(self) == stopped(*old(self)),
    {
        self.is_streaming = false;
    }

    /// Advances the metadata sequence (wrapping) and returns the new value.
    pub fn next_metadata_sequence(&mut self) -> (r: u64)
        ensures
            r == next_sequence(old(self).metadata_sequence),
            final(self).metadata_sequence == r,
            final(self).is_streaming == old(self).is_streaming,
            final(self).gst_child == old(self).gst_child,
    {
        self.metadata_sequence = self.metadata_sequence.wrapping_add(1);
        self.metadata_sequence
    }

    /// One metadata tick: no sequence number (and no change) while the node
    /// does not stream, else the next sequence number.
    pub fn metadata_tick(&mut self) -> (r: Option<u64>)
        ensures
            !old(self).is_streaming ==> r is None && *final(self) == *old(self),
            old(self).is_streaming ==> r == Some(next_sequence(old(self).metadata_sequence))
                && final(self).metadata_sequence == next_sequence(old(self).metadata_sequence)
                && final(self).is_streaming && final(self).gst_child == old(self).gst_child,
    {
        if !self.is_streaming {
            None
        } else {
            Some(self.next_metadata_sequence())
        }
    }
}

/// A node streams exactly when it holds a publisher process.
pub open spec fn streams_iff_publisher<C>(s: NodeState<C>) -> bool {
    s.is_streaming <==> s.gst_child is Some
}

/// One completed operation on a node.
pub enum NodeEvent<C> {
    /// A start command; `child` is the publisher launched when the decision
    /// is to launch one.
    Start { rtsp_enabled: bool, child: C },
    /// A stop command, with the publisher stopped when there was one.
    Stop,
    /// The metadata sequence advanced.
    NextSequence,
}

/// The state after one completed operation: a start that launches gives
/// `started`, a stop of a streaming node takes the publisher out and then
/// records its exit, every other decision changes nothing, and advancing
/// the sequence changes only the sequence.
pub open spec fn after_event<C>(s: NodeState<C>, e: NodeEvent<C>) -> NodeState<C> {
    match e {
        NodeEvent::Start { rtsp_enabled, child } => {
            if start_decision_of(s.is_streaming, rtsp_enabled) == StartDecision::Launch {
                started(s, child)
            } else {
                s
            }
        },
        NodeEvent::Stop => {
            if s.is_streaming {
                stopped(child_taken(s))
            } else {
                s
            }
        },
        NodeEvent::NextSequence => NodeState {
            is_streaming: s.is_streaming,
            gst_child: s.gst_child,
            metadata_sequence: next_sequence(s.metadata_sequence),
        },
    }
}

/// The state after a run of completed operations, in order.
pub open spec fn after_events<C>(s: NodeState<C>, events: Seq<NodeEvent<C>>) -> NodeState<C>
    decreases events.len(),
{
    if events.len() == 0 {
        s
    } else {
        after_event(after_events(s, events.drop_last()), events.last())
    }
}

/// A fresh node, as `NodeState::new` makes it.
pub open spec fn initial_state<C>() -> NodeState<C> {
    NodeState { is_streaming: false, gst_child: None, metadata_sequence: 0 }
}

/// Every state reached from a fresh node by completed starts, stops and
/// sequence steps streams exactly when it holds a publisher process.
pub proof fn lemma_streams_iff_publisher<C>(events: Seq<NodeEvent<C>>)
    ensures
        streams_iff_publisher(after_events(initial_state::<C>(), events)),
    decreases events.len(),
{
    if events.len() > 0 {
        lemma_streams_iff_publisher(events.drop_last());
    }
}

/// Starting a publisher and then stopping it leaves the node idle, without a
/// process, with its metadata sequence where it was, and ready to start again.
pub proof fn lemma_start_then_stop<C>(s: NodeState<C>, child: C, rtsp_enabled: bool)
    ensures
        stopped(child_taken(started(s, child))).is_streaming == false,
        stopped(child_taken(started(s, child))).gst_child is None,
        stopped(child_taken(started(s, child))).metadata_sequence == s.metadata_sequence,
        start_decision_of(stopped(child_taken(started(s, child))).is_streaming, rtsp_enabled) == (
        if rtsp_enabled {
            StartDecision::Launch
        } else {
            StartDecision::RtspDisabled
        }),
{
}

/// A second start while streaming changes nothing: the decision is
/// `AlreadyStreaming` whatever the configuration says.
pub proof fn lemma_start_is_idempotent<C>(s: NodeState<C>, child: C, rtsp_enabled: bool)
    ensures
        start_decision_of(started(s, child).is_streaming, rtsp_enabled)
            == StartDecision::AlreadyStreaming,
{
}

/// Each metadata tick while streaming advances the sequence number by one
/// modulo 2^64, so consecutive messages are numbered consecutively.
pub proof fn lemma_sequence_counts_ticks(s: u64)
    ensures
        next_sequence(s) as int == (s as int + 1) % 0x1_0000_0000_0000_0000,
{
}

} // verus!
