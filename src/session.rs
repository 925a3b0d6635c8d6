//! The lifecycle of one streaming connection: registration, the Started
//! event, deregistration and the Ended event, each exactly once and in order.
use vstd::prelude::*;
use crate::feedback::{StreamerFeedBack, StreamingState};
use crate::registry::{entries_map, keys_distinct, SessionRegistry};
use crate::request::{bare_ip, bare_ip_of, MediaModel, MediaPlan, RequestPlan};

verus! {

/// Where a streaming connection stands.
#[derive(Debug, Clone, Copy, PartialEq, Eq, Structural)]
pub enum SessionPhase {
    /// Accepted and planned, not yet registered.
    Pending,
    /// Registered; the response body is being written.
    Streaming,
    /// Unregistered after the body ended, however it ended.
    Ended,
}

/// One GET connection that streams audio to a renderer.
pub struct StreamSession {
    remote_addr: String,
    remote_ip: String,
    media: MediaPlan,
    phase: SessionPhase,
    events: Ghost<Seq<(Seq<char>, StreamingState)>>,
}

impl StreamSession {
    /// The full peer address, the registry key.
    pub closed spec fn addr(&self) -> Seq<char> {
        self.remote_addr@
    }

    /// The peer address without port, as carried by feedback events.
    pub closed spec fn ip(&self) -> Seq<char> {
        self.remote_ip@
    }

    /// The negotiated media of the stream, as plain values.
    pub closed spec fn media_model(&self) -> MediaModel {
        self.media@
    }

    /// The current phase.
    pub closed spec fn phase_spec(&self) -> SessionPhase {
        self.phase
    }

    /// The feedback events this session has emitted so far, in order.
    pub closed spec fn events(&self) -> Seq<(Seq<char>, StreamingState)> {
        self.events@
    }

    /// The events emitted are exactly those due in the current phase.
    pub open spec fn wf(&self) -> bool {
        &&& self.ip() == bare_ip_of(self.addr())
        &&& match self.phase_spec() {
            SessionPhase::Pending => self.events() == Seq::<(Seq<char>, StreamingState)>::empty(),
            SessionPhase::Streaming => self.events() == seq![(self.ip(), StreamingState::Started)],
            SessionPhase::Ended => self.events() == seq![
                (self.ip(), StreamingState::Started),
                (self.ip(), StreamingState::Ended),
            ],
        }
    }

    /// A session for a planned request from `remote_addr`; only a GET on a
    /// served path gets one.
    pub fn for_request(plan: RequestPlan, remote_addr: &str) -> (r: Option<StreamSession>)
        ensures
            (r is Some) == (plan@ is Stream),
            r matches Some(s) ==> {
                &&& s.wf()
                &&& s.phase_spec() == SessionPhase::Pending
                &&& s.addr() == remote_addr@
                &&& plan@ == crate::request::PlanModel::Stream(s.media_model())
            },
    {
        match plan {
            RequestPlan::Stream(media) => Some(StreamSession {
                remote_addr: String::from_str(remote_addr),
                remote_ip: bare_ip(remote_addr),
                media,
                phase: SessionPhase::Pending,
                events: Ghost(Seq::empty()),
            }),
            _ => None,
        }
    }

    /// The current phase.
    pub fn phase(&self) -> (r: SessionPhase)
        ensures
            r == self.phase_spec(),
    {
        self.phase
    }

    /// The full peer address.
    pub fn remote_addr(&self) -> (r: &String)
        ensures
            r@ == self.addr(),
    {
        &self.remote_addr
    }

    /// The peer address without port.
    pub fn remote_ip(&self) -> (r: &String)
        ensures
            r@ == self.ip(),
    {
        &self.remote_ip
    }

    /// The negotiated media of the stream.
    pub fn media(&self) -> (r: &MediaPlan)
        ensures
            r@ == self.media_model(),
    {
        &self.media
    }

    /// Registers `channel` under this connection's address and yields the
    /// Started event to send.
    pub fn start<C>(&mut self, registry: &mut SessionRegistry<C>, channel: C) -> (r: StreamerFeedBack)
        requires
            old(self).wf(),
            old(self).phase_spec() == SessionPhase::Pending,
            old(registry).wf(),
            !old(registry)@.contains_key(old(self).addr()),
            old(registry)@.len() < usize::MAX,
        ensures
            final(self).wf(),
            final(self).phase_spec() == SessionPhase::Streaming,
            final(self).addr() == old(self).addr(),
            final(self).ip() == old(self).ip(),
            final(self).media_model() == old(self).media_model(),
            final(self).events() == old(self).events().push(r@),
            r@ == (old(self).ip(), StreamingState::Started),
            final(registry).wf(),
            final(registry)@ == old(registry)@.insert(old(self).addr(), channel),
            final(registry)@.len() == old(registry)@.len() + 1,
    {
        registry.insert(self.remote_addr.clone(), channel);
        let ev = StreamerFeedBack {
            remote_ip: self.remote_ip.clone(),
            streaming_state: StreamingState::Started,
        };
        self.phase = SessionPhase::Streaming;
        self.events = Ghost(self.events@.push(ev@));
        ev
    }

    /// Unregisters this connection once its body has ended, normally or by
    /// a write error; hands back the channel to stop and the Ended event.
    pub fn finish<C>(&mut self, registry: &mut SessionRegistry<C>) -> (r: (Option<C>, StreamerFeedBack))
        requires
            old(self).wf(),
            old(self).phase_spec() == SessionPhase::Streaming,
            old(registry).wf(),
        ensures
            final(self).wf(),
            final(self).phase_spec() == SessionPhase::Ended,
            final(self).addr() == old(self).addr(),
            final(self).ip() == old(self).ip(),
            final(self).media_model() == old(self).media_model(),
            final(self).events() == old(self).events().push(r.1@),
            r.1@ == (old(self).ip(), StreamingState::Ended),
            final(registry).wf(),
            final(registry)@ == old(registry)@.remove(old(self).addr()),
            !final(registry)@.contains_key(old(self).addr()),
            r.0 == (if old(registry)@.contains_key(old(self).addr()) {
                Some(old(registry)@[old(self).addr()])
            } else {
                None::<C>
            }),
            old(registry)@.contains_key(old(self).addr()) ==> final(registry)@.len() == old(registry)@.len() - 1,
    {
        let ch = registry.remove(&self.remote_addr);
        let ev = StreamerFeedBack {
            remote_ip: self.remote_ip.clone(),
            streaming_state: StreamingState::Ended,
        };
        self.phase = SessionPhase::Ended;
        self.events = Ghost(self.events@.push(ev@));
        assert(self.events@ =~= seq![
            (self.remote_ip@, StreamingState::Started),
            (self.remote_ip@, StreamingState::Ended),
        ]);
        (ch, ev)
    }
}

/// Within one session a Started event is emitted strictly before its Ended
/// event, both for the session's client, and nothing else is emitted.
pub proof fn lemma_started_before_ended(s: &StreamSession)
    requires
        s.wf(),
    ensures
        forall|j: int| 0 <= j < s.events().len() ==> (#[trigger] s.events()[j]).0 == s.ip(),
        forall|j: int| 0 <= j < s.events().len() && (#[trigger] s.events()[j]).1 == StreamingState::Ended
            ==> exists|i: int| 0 <= i < j && s.events()[i].1 == StreamingState::Started,
        s.phase_spec() == SessionPhase::Ended ==> s.events().len() == 2
            && s.events()[0].1 == StreamingState::Started
            && s.events()[1].1 == StreamingState::Ended,
{
    if s.phase_spec() == SessionPhase::Ended {
        assert(s.events()[0].1 == StreamingState::Started);
    }
}

/// Registering a session and then ending it leaves the registry as it was:
/// the size goes up by one and back down by one, and no entry remains.
pub proof fn lemma_start_then_finish<C>(before: Map<Seq<char>, C>, addr: Seq<char>, channel: C)
    requires
        before.dom().finite(),
        !before.contains_key(addr),
    ensures
        before.insert(addr, channel).len() == before.len() + 1,
        before.insert(addr, channel).remove(addr).len() == before.len(),
        before.insert(addr, channel).remove(addr) =~= before,
{
}

/// The registry reached from an empty one by starting one session per key,
/// in order.
pub open spec fn sessions_started<C>(keys: Seq<Seq<char>>, channels: Seq<C>) -> Map<Seq<char>, C> {
    entries_map(Seq::new(keys.len(), |i: int| (keys[i], channels[i])))
}

/// With N distinct client addresses active, the registry holds exactly N
/// entries, each address keyed to its own channel.
pub proof fn lemma_distinct_sessions<C>(keys: Seq<Seq<char>>, channels: Seq<C>)
    requires
        keys.no_duplicates(),
        keys.len() == channels.len(),
    ensures
        sessions_started(keys, channels).len() == keys.len(),
        sessions_started(keys, channels).dom() =~= keys.to_set(),
        forall|i: int| 0 <= i < keys.len() ==> sessions_started(keys, channels)[#[trigger] keys[i]] == channels[i],
{
    let s = Seq::new(keys.len(), |i: int| (keys[i], channels[i]));
    assert(keys_distinct(s));
    crate::registry::lemma_entries_map_dom(s);
    assert forall|i: int| 0 <= i < keys.len() implies sessions_started(keys, channels)[#[trigger] keys[i]] == channels[i] by {
        assert(s[i].0 == keys[i]);
    }
    assert forall|k: Seq<char>| sessions_started(keys, channels).dom().contains(k) <==> keys.to_set().contains(k) by {
        if keys.to_set().contains(k) {
            let i = choose|i: int| 0 <= i < keys.len() && keys[i] == k;
            assert(s[i].0 == k);
        }
        if sessions_started(keys, channels).dom().contains(k) {
            let i = choose|i: int| 0 <= i < s.len() && s[i].0 == k;
            assert(keys[i] == k);
        }
    }
}

} // verus!
