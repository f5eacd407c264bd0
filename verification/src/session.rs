//! The input-synchronization session.
//!
//! A session owns the rollback world, one input buffer per peer, and
//! the snapshot history.  Per tick and per peer it holds either a
//! *confirmed* input frame (received from the peer) or a *predicted*
//! one — the peer's last confirmed mask repeated, a good predictor for
//! a platformer where keys are held across many frames.  When a
//! confirmation contradicts a frame that was already simulated, the
//! session restores the snapshot at the first diverging tick and
//! replays forward with the corrected inputs.  When the session has
//! run a full prediction window beyond the last fully-confirmed tick
//! it stalls instead of advancing.
//!
//! The session never consults a clock, a socket or a hash-ordered
//! collection: everything it does is a function of its configuration,
//! its buffers and its world, which is what keeps every peer's replay
//! bit-identical.  Transport and timeouts live with the caller, which
//! feeds received frames in and decides when a silent peer counts as
//! disconnected.

use vstd::prelude::*;

use crate::character::spec_char_wf;
use crate::geometry::StaticGeometry;
use crate::geometry::spec_geom_wf;
use crate::input::InputFrame;
use crate::input::disconnected_frame;
use crate::input::spec_disconnected_frame;
use crate::math::MAX_TICK_RATE;
use crate::registry::Snapshot;
use crate::registry::WorldState;
use crate::registry::spec_step_chars;
use crate::registry::spec_world_wf;
use crate::registry::step_world;

verus! {

/// Most ticks a session can ever reach; keeps tick arithmetic far from
/// the integer limits.
pub const MAX_SESSION_TICKS: usize = 1_000_000_000;

/// A fatal configuration error, reported before the session starts.
#[derive(Clone, Copy, PartialEq, Eq, Structural, Debug)]
pub enum ConfigError {
    /// Fewer than two players were requested.
    TooFewPlayers,
    /// The prediction window must allow at least one speculative tick.
    InvalidPredictionWindow,
    /// The tick rate must be positive and within the supported range.
    InvalidTickRate,
    /// The characters handed to the session do not match the
    /// configured player count.
    PlayerCountMismatch,
}

/// The tunables of a session, fixed at session start.
#[derive(Clone, Copy, PartialEq, Eq, Structural, Debug)]
pub struct SessionConfig {
    /// Number of peers, fixed for the session, at least two.
    pub num_players: usize,
    /// Ticks a local input is delayed before it takes effect.
    pub input_delay: usize,
    /// Most ticks the session may run beyond the last fully-confirmed
    /// tick before it stalls.
    pub prediction_window: usize,
    /// Simulation ticks per second.
    pub tick_rate: u64,
}

/// A configuration the session accepts.
pub open spec fn spec_config_wf(c: SessionConfig) -> bool {
    &&& c.num_players >= 2
    &&& c.prediction_window >= 1
    &&& 1 <= c.tick_rate <= MAX_TICK_RATE
    &&& c.input_delay <= MAX_SESSION_TICKS
    &&& c.prediction_window <= MAX_SESSION_TICKS
}

impl SessionConfig {
    /// Validate and build a session configuration.  Each reject comes
    /// with the first applicable error: too few players, then a zero
    /// prediction window, then an unusable tick rate.
    pub fn new(num_players: usize, input_delay: usize, prediction_window: usize, tick_rate: u64)
        -> (r: Result<SessionConfig, ConfigError>)
        requires
            input_delay <= MAX_SESSION_TICKS,
            prediction_window <= MAX_SESSION_TICKS,
        ensures
            num_players < 2 ==> r == Result::<SessionConfig, ConfigError>::Err(
                ConfigError::TooFewPlayers,
            ),
            num_players >= 2 && prediction_window == 0 ==> r == Result::<
                SessionConfig,
                ConfigError,
            >::Err(ConfigError::InvalidPredictionWindow),
            num_players >= 2 && prediction_window >= 1 && !(1 <= tick_rate <= MAX_TICK_RATE)
                ==> r == Result::<SessionConfig, ConfigError>::Err(ConfigError::InvalidTickRate),
            num_players >= 2 && prediction_window >= 1 && 1 <= tick_rate <= MAX_TICK_RATE
                ==> r == Result::<SessionConfig, ConfigError>::Ok(
                SessionConfig { num_players, input_delay, prediction_window, tick_rate },
            ),
            r matches Result::Ok(c) ==> spec_config_wf(c),
    {
        if num_players < 2 {
            Result::Err(ConfigError::TooFewPlayers)
        } else if prediction_window == 0 {
            Result::Err(ConfigError::InvalidPredictionWindow)
        } else if tick_rate == 0 || tick_rate > MAX_TICK_RATE {
            Result::Err(ConfigError::InvalidTickRate)
        } else {
            Result::Ok(SessionConfig { num_players, input_delay, prediction_window, tick_rate })
        }
    }
}

/// The per-peer input buffer: the confirmed mask of every tick the
/// peer has reported, and the tick after which the peer counts as
/// disconnected.
pub struct PeerBuffer {
    pub confirmed: Vec<Option<u8>>,
    pub disconnected_at: Option<usize>,
}

/// The mathematical content of a peer buffer.
pub struct PeerBufferModel {
    pub confirmed: Seq<Option<u8>>,
    pub disconnected_at: Option<usize>,
}

impl View for PeerBuffer {
    type V = PeerBufferModel;

    open spec fn view(&self) -> PeerBufferModel {
        PeerBufferModel { confirmed: self.confirmed@, disconnected_at: self.disconnected_at }
    }
}

/// The confirmed mask of a peer at a tick, if the peer has reported
/// one.
pub open spec fn spec_confirmed_mask(conf: Seq<Option<u8>>, t: int) -> Option<u8> {
    if 0 <= t < conf.len() {
        conf[t]
    } else {
        Option::None
    }
}

/// The predicted mask of a peer at a tick: the peer's last confirmed
/// mask before that tick, or zero if it never confirmed anything —
/// inputs are assumed held until a confirmation says otherwise.
pub open spec fn spec_predicted_mask(conf: Seq<Option<u8>>, t: int) -> u8
    decreases t,
{
    if t <= 0 {
        0
    } else {
        match spec_confirmed_mask(conf, t - 1) {
            Option::Some(m) => m,
            Option::None => spec_predicted_mask(conf, t - 1),
        }
    }
}

/// The frame a live (not yet disconnected) peer contributes at a
/// tick: its confirmed mask, or its prediction.
pub open spec fn spec_live_frame(conf: Seq<Option<u8>>, t: int) -> InputFrame {
    match spec_confirmed_mask(conf, t) {
        Option::Some(m) => InputFrame { mask: m, connected: true },
        Option::None => InputFrame { mask: spec_predicted_mask(conf, t), connected: true },
    }
}

/// The frame a peer contributes at a tick: all-zero and disconnected
/// for every tick after its disconnection, otherwise confirmed or
/// predicted.
pub open spec fn spec_frame_for(b: PeerBufferModel, t: int) -> InputFrame {
    match b.disconnected_at {
        Option::Some(d) => {
            if t > d {
                spec_disconnected_frame()
            } else {
                spec_live_frame(b.confirmed, t)
            }
        },
        Option::None => spec_live_frame(b.confirmed, t),
    }
}

/// Whether a peer's frame at a tick is settled: confirmed, or forced
/// by a disconnection.  An unsettled frame is a prediction that a
/// later confirmation may contradict.
pub open spec fn spec_frame_settled(b: PeerBufferModel, t: int) -> bool {
    ||| (b.disconnected_at matches Option::Some(d) && t > d)
    ||| (spec_confirmed_mask(b.confirmed, t) matches Option::Some(_))
}

/// The models of the peer buffers.
pub open spec fn spec_buffer_models(bufs: Seq<PeerBuffer>) -> Seq<PeerBufferModel> {
    bufs.map_values(|b: PeerBuffer| b@)
}

/// The frames all peers contribute at a tick, in handle order.
pub open spec fn spec_frames_at(bufs: Seq<PeerBufferModel>, t: int) -> Seq<InputFrame> {
    Seq::new(bufs.len(), |p: int| spec_frame_for(bufs[p], t))
}

/// Whether every peer's frame at a tick is settled.
pub open spec fn spec_tick_settled(bufs: Seq<PeerBufferModel>, t: int) -> bool {
    forall|p: int| 0 <= p < bufs.len() ==> spec_frame_settled(#[trigger] bufs[p], t)
}

/// The number of leading ticks, up to `limit`, whose frames are all
/// settled: the confirmed horizon of the session.
pub open spec fn spec_horizon(bufs: Seq<PeerBufferModel>, limit: int) -> int
    decreases limit,
{
    if limit <= 0 {
        0
    } else {
        if spec_horizon(bufs, limit - 1) == limit - 1 && spec_tick_settled(bufs, limit - 1) {
            limit
        } else {
            spec_horizon(bufs, limit - 1)
        }
    }
}

impl PeerBuffer {
    /// A fresh buffer: nothing confirmed, connected.
    pub fn new() -> (r: PeerBuffer)
        ensures
            r@.confirmed.len() == 0,
            r@.disconnected_at is None,
    {
        PeerBuffer { confirmed: Vec::new(), disconnected_at: Option::None }
    }

    /// Look up the peer's confirmed mask at a tick.
    pub fn confirmed_mask(&self, tick: usize) -> (r: Option<u8>)
        ensures
            r == spec_confirmed_mask(self@.confirmed, tick as int),
    {
        if tick < self.confirmed.len() {
            self.confirmed[tick]
        } else {
            Option::None
        }
    }

    /// Compute the peer's predicted mask at a tick: its last
    /// confirmed mask before the tick, or zero.
    pub fn predicted_mask(&self, tick: usize) -> (r: u8)
        ensures
            r == spec_predicted_mask(self@.confirmed, tick as int),
    {
        let mut u: usize = tick;
        while u > 0
            invariant
                0 <= u <= tick,
                spec_predicted_mask(self@.confirmed, tick as int) == spec_predicted_mask(
                    self@.confirmed,
                    u as int,
                ),
            decreases u,
        {
            match self.confirmed_mask(u - 1) {
                Option::Some(m) => {
                    return m;
                },
                Option::None => {
                    u -= 1;
                },
            }
        }
        0
    }

    /// The frame this peer contributes at a tick: disconnected if the
    /// tick lies after its disconnection, else confirmed, else
    /// predicted.
    pub fn frame_for(&self, tick: usize) -> (r: InputFrame)
        ensures
            r == spec_frame_for(self@, tick as int),
    {
        match self.disconnected_at {
            Option::Some(d) => {
                if tick > d {
                    disconnected_frame()
                } else {
                    self.live_frame(tick)
                }
            },
            Option::None => self.live_frame(tick),
        }
    }

    /// The frame of a peer that still counts as connected at a tick.
    fn live_frame(&self, tick: usize) -> (r: InputFrame)
        ensures
            r == spec_live_frame(self@.confirmed, tick as int),
    {
        match self.confirmed_mask(tick) {
            Option::Some(m) => InputFrame { mask: m, connected: true },
            Option::None => InputFrame { mask: self.predicted_mask(tick), connected: true },
        }
    }

    /// Whether this peer's frame at a tick is settled (confirmed or
    /// forced by disconnection).
    pub fn settled(&self, tick: usize) -> (r: bool)
        ensures
            r == spec_frame_settled(self@, tick as int),
    {
        let disc = match self.disconnected_at {
            Option::Some(d) => tick > d,
            Option::None => false,
        };
        if disc {
            true
        } else {
            match self.confirmed_mask(tick) {
                Option::Some(_) => true,
                Option::None => false,
            }
        }
    }

    /// Record a confirmed mask for a tick, growing the buffer as
    /// needed.  Each (peer, tick) slot is written exactly once.
    pub fn store_confirmed(&mut self, tick: usize, mask: u8)
        requires
            spec_confirmed_mask(old(self)@.confirmed, tick as int) is None,
            tick < usize::MAX,
        ensures
            final(self)@.confirmed.len() == if old(self)@.confirmed.len() > tick + 1 {
                old(self)@.confirmed.len() as int
            } else {
                tick + 1
            },
            forall|t: int|
                0 <= t < final(self)@.confirmed.len() ==> #[trigger] final(self)@.confirmed[t] == (
                if t == tick {
                    Option::Some(mask)
                } else {
                    spec_confirmed_mask(old(self)@.confirmed, t)
                }),
            final(self)@.disconnected_at == old(self)@.disconnected_at,
    {
        while self.confirmed.len() < tick + 1
            invariant
                tick < usize::MAX,
                self@.disconnected_at == old(self)@.disconnected_at,
                self@.confirmed.len() >= old(self)@.confirmed.len(),
                self@.confirmed.len() <= if old(self)@.confirmed.len() > tick + 1 {
                    old(self)@.confirmed.len() as int
                } else {
                    tick + 1
                },
                forall|t: int|
                    0 <= t < self@.confirmed.len() ==> #[trigger] self@.confirmed[t]
                        == spec_confirmed_mask(old(self)@.confirmed, t),
            decreases tick + 1 - self@.confirmed.len(),
        {
            self.confirmed.push(Option::None);
        }
        self.confirmed.set(tick, Option::Some(mask));
    }
}

/// Below the first unsettled tick, the horizon equals the tick count
/// examined so far.
proof fn lemma_horizon_full(bufs: Seq<PeerBufferModel>, t: int)
    requires
        0 <= t,
        forall|u: int| 0 <= u < t ==> spec_tick_settled(bufs, u),
    ensures
        spec_horizon(bufs, t) == t,
    decreases t,
{
    if t > 0 {
        lemma_horizon_full(bufs, t - 1);
    }
}

/// Once an unsettled tick exists, the horizon sticks at the first
/// one, however far the session looks.
proof fn lemma_horizon_stops(bufs: Seq<PeerBufferModel>, t0: int, limit: int)
    requires
        0 <= t0 <= limit,
        !spec_tick_settled(bufs, t0),
        forall|u: int| 0 <= u < t0 ==> spec_tick_settled(bufs, u),
    ensures
        spec_horizon(bufs, limit) == t0,
    decreases limit,
{
    if limit == t0 {
        lemma_horizon_full(bufs, t0);
    } else {
        lemma_horizon_stops(bufs, t0, limit - 1);
        if limit - 1 == t0 {
            lemma_horizon_full(bufs, t0);
        }
    }
}

/// Compare two frame vectors element by element.
fn frames_equal(a: &Vec<InputFrame>, b: &Vec<InputFrame>) -> (r: bool)
    ensures
        r <==> a@ == b@,
{
    if a.len() != b.len() {
        proof {
            assert(a@.len() != b@.len());
        }
        return false;
    }
    let n = a.len();
    let mut i: usize = 0;
    while i < n
        invariant
            0 <= i <= n,
            n == a@.len(),
            n == b@.len(),
            forall|k: int| 0 <= k < i ==> a@[k] == b@[k],
        decreases n - i,
    {
        let x = a[i];
        let y = b[i];
        if !(x == y) {
            proof {
                assert(a@[i as int] != b@[i as int]);
            }
            return false;
        }
        i += 1;
    }
    proof {
        assert(a@ =~= b@);
    }
    true
}

/// What `advance` did: stepped the simulation, or stalled waiting for
/// confirmed input.
#[derive(Clone, Copy, PartialEq, Eq, Structural, Debug)]
pub enum AdvanceOutcome {
    Advanced,
    Stalled,
}

/// The session: configuration, the rollback world, the level, the
/// per-peer input buffers, and the snapshot and input history of every
/// tick simulated so far.
pub struct SessionManager {
    pub config: SessionConfig,
    pub world: WorldState,
    pub geom: StaticGeometry,
    pub current_tick: usize,
    pub buffers: Vec<PeerBuffer>,
    pub snapshots: Vec<Snapshot>,
    pub used_inputs: Vec<Vec<InputFrame>>,
}

/// What one unconditional tick does to a session: the old world is
/// snapshotted, the frames the buffers prescribed for the old tick are
/// recorded, and the world is stepped with exactly those frames;
/// buffers and configuration stay as they were.
pub open spec fn spec_advanced(pre: SessionManager, post: SessionManager) -> bool {
    &&& post.wf()
    &&& post.coherent()
    &&& post.current_tick == pre.current_tick + 1
    &&& post.config == pre.config
    &&& post.bufs() == pre.bufs()
    &&& post.geom.rects@ == pre.geom.rects@
    &&& post.world.gravity == pre.world.gravity
    &&& post.snapshots@.len() == pre.snapshots@.len() + 1
    &&& forall|t: int|
        0 <= t < pre.snapshots@.len() ==> #[trigger] post.snapshots@[t] == pre.snapshots@[t]
    &&& post.snapshots@.last().state.characters@ == pre.world.characters@
    &&& post.used().len() == pre.used().len() + 1
    &&& forall|t: int| 0 <= t < pre.used().len() ==> #[trigger] post.used()[t] == pre.used()[t]
    &&& post.used().last() == spec_frames_at(pre.bufs(), pre.current_tick as int)
    &&& post.world.characters@ == spec_step_chars(
        pre.world.characters@,
        spec_frames_at(pre.bufs(), pre.current_tick as int),
        pre.geom.rects@,
        pre.world.gravity,
        false,
        pre.config.tick_rate as int,
    )
}

/// What intake of one confirmed mask does to the peer buffers: the
/// named peer gains the mask at the named tick, everything else is
/// untouched.
pub open spec fn spec_buffer_updated(
    pre: Seq<PeerBufferModel>,
    post: Seq<PeerBufferModel>,
    peer: int,
    tick: int,
    mask: u8,
) -> bool {
    &&& post.len() == pre.len()
    &&& forall|q: int| 0 <= q < post.len() && q != peer ==> #[trigger] post[q] == pre[q]
    &&& post[peer].disconnected_at == pre[peer].disconnected_at
    &&& forall|t: int|
        #[trigger] spec_confirmed_mask(post[peer].confirmed, t) == if t == tick {
            Option::Some(mask)
        } else {
            spec_confirmed_mask(pre[peer].confirmed, t)
        }
}

impl SessionManager {
    /// The models of the per-peer buffers.
    pub open spec fn bufs(&self) -> Seq<PeerBufferModel> {
        spec_buffer_models(self.buffers@)
    }

    /// The frames actually fed to each simulated tick.
    pub open spec fn used(&self) -> Seq<Seq<InputFrame>> {
        self.used_inputs@.map_values(|v: Vec<InputFrame>| v@)
    }

    /// Structural well-formedness: valid configuration, matching
    /// player counts everywhere, a well-formed unpaused world, and one
    /// snapshot and one input record per simulated tick, each snapshot
    /// well-formed and keyed by its tick.
    pub open spec fn wf(&self) -> bool {
        &&& spec_config_wf(self.config)
        &&& self.buffers@.len() == self.config.num_players
        &&& self.world.characters@.len() == self.config.num_players
        &&& spec_world_wf(self.world@)
        &&& !self.world.paused
        &&& spec_geom_wf(self.geom.rects@)
        &&& self.current_tick <= MAX_SESSION_TICKS
        &&& self.snapshots@.len() == self.current_tick
        &&& self.used_inputs@.len() == self.current_tick
        &&& forall|t: int|
            0 <= t < self.current_tick ==> (#[trigger] self.used_inputs@[t])@.len()
                == self.config.num_players
        &&& forall|t: int|
            0 <= t < self.current_tick ==> (#[trigger] self.snapshots@[t]).tick == t
        &&& forall|t: int|
            0 <= t < self.current_tick ==> (#[trigger] self.snapshots@[t]).state.characters@.len()
                == self.config.num_players
        &&& forall|t: int, i: int|
            0 <= t < self.current_tick && 0 <= i
                < self.snapshots@[t].state.characters@.len() ==> spec_char_wf(
                #[trigger] self.snapshots@[t].state.characters@[i],
            )
        &&& forall|t: int|
            0 <= t < self.current_tick ==> (#[trigger] self.snapshots@[t]).state.gravity
                == self.world.gravity
        &&& forall|t: int|
            0 <= t < self.current_tick ==> !(#[trigger] self.snapshots@[t]).state.paused
    }

    /// The snapshot chain is coherent: each snapshot is the previous
    /// one stepped with the inputs recorded for that tick, and the
    /// live world is the last snapshot stepped with the last record.
    /// Together with `inputs_ok` this pins the world down as the pure
    /// run of the buffered inputs from the initial state.
    pub open spec fn chain_ok(&self) -> bool {
        &&& forall|t: int|
            1 <= t < self.current_tick ==> (#[trigger] self.snapshots@[t]).state.characters@
                == spec_step_chars(
                self.snapshots@[t - 1].state.characters@,
                self.used()[t - 1],
                self.geom.rects@,
                self.world.gravity,
                false,
                self.config.tick_rate as int,
            )
        &&& self.current_tick >= 1 ==> self.world.characters@ == spec_step_chars(
            self.snapshots@[self.current_tick - 1].state.characters@,
            self.used()[self.current_tick - 1],
            self.geom.rects@,
            self.world.gravity,
            false,
            self.config.tick_rate as int,
        )
    }

    /// Every simulated tick used exactly the frames the buffers
    /// prescribe for it today.  Rollback restores this after every
    /// confirmation: a tick simulated from a prediction that was later
    /// contradicted has been re-simulated with the confirmed frame.
    pub open spec fn inputs_ok(&self) -> bool {
        forall|t: int|
            0 <= t < self.current_tick ==> #[trigger] self.used()[t] == spec_frames_at(
                self.bufs(),
                t,
            )
    }

    /// Full coherence.
    pub open spec fn coherent(&self) -> bool {
        self.chain_ok() && self.inputs_ok()
    }

    /// Whether the session must stall: it has simulated a full
    /// prediction window beyond the last fully-settled tick.
    pub open spec fn stalled(&self) -> bool {
        self.current_tick >= self.config.prediction_window + spec_horizon(
            self.bufs(),
            self.current_tick as int,
        )
    }

    /// Start a session: exactly `config.num_players` characters, a
    /// fresh buffer per peer, nothing simulated yet.  A mismatched
    /// player count is a fatal configuration error.
    ///
    /// The input delay forces the first `input_delay` ticks of every
    /// peer: no input submitted after session start can reach them, so
    /// they are confirmed all-zero from the outset and the session
    /// never waits on them.
    pub fn new(config: SessionConfig, world: WorldState, geom: StaticGeometry) -> (r: Result<
        SessionManager,
        ConfigError,
    >)
        requires
            spec_config_wf(config),
            spec_world_wf(world@),
            !world.paused,
            spec_geom_wf(geom.rects@),
        ensures
            world.characters@.len() != config.num_players ==> r == Result::<
                SessionManager,
                ConfigError,
            >::Err(ConfigError::PlayerCountMismatch),
            world.characters@.len() == config.num_players ==> (r matches Result::Ok(s) && s.wf()
                && s.coherent() && s.current_tick == 0 && s.config == config
                && s.world.characters@ == world.characters@ && s.world.gravity == world.gravity
                && s.geom.rects@ == geom.rects@ && s.bufs().len() == config.num_players && forall|
                p: int,
            |
                0 <= p < s.bufs().len() ==> (#[trigger] s.bufs()[p]).confirmed.len()
                    == config.input_delay && (forall|t: int|
                    0 <= t < config.input_delay ==> s.bufs()[p].confirmed[t] == Option::Some(0u8))
                    && s.bufs()[p].disconnected_at is None),
    {
        if world.characters.len() != config.num_players {
            return Result::Err(ConfigError::PlayerCountMismatch);
        }
        let mut buffers: Vec<PeerBuffer> = Vec::new();
        let mut p: usize = 0;
        while p < config.num_players
            invariant
                0 <= p <= config.num_players,
                buffers@.len() == p,
                forall|q: int|
                    0 <= q < p ==> (#[trigger] buffers@[q])@.confirmed.len()
                        == config.input_delay && (forall|t: int|
                        0 <= t < config.input_delay ==> buffers@[q]@.confirmed[t] == Option::Some(
                            0u8,
                        )) && buffers@[q]@.disconnected_at is None,
            decreases config.num_players - p,
        {
            let mut buf = PeerBuffer::new();
            let mut t: usize = 0;
            while t < config.input_delay
                invariant
                    0 <= t <= config.input_delay,
                    buf@.confirmed.len() == t,
                    forall|u: int| 0 <= u < t ==> buf@.confirmed[u] == Option::Some(0u8),
                    buf@.disconnected_at is None,
                decreases config.input_delay - t,
            {
                buf.confirmed.push(Option::Some(0));
                t += 1;
            }
            buffers.push(buf);
            p += 1;
        }
        Result::Ok(
            SessionManager {
                config,
                world,
                geom,
                current_tick: 0,
                buffers,
                snapshots: Vec::new(),
                used_inputs: Vec::new(),
            },
        )
    }

    /// The frames all peers contribute at a tick, in handle order.
    pub fn compute_frames(&self, tick: usize) -> (r: Vec<InputFrame>)
        ensures
            r@ == spec_frames_at(self.bufs(), tick as int),
    {
        let mut r: Vec<InputFrame> = Vec::new();
        let mut p: usize = 0;
        let n = self.buffers.len();
        while p < n
            invariant
                0 <= p <= n,
                n == self.buffers@.len(),
                r@.len() == p,
                forall|q: int|
                    0 <= q < p ==> #[trigger] r@[q] == spec_frame_for(
                        self.bufs()[q],
                        tick as int,
                    ),
            decreases n - p,
        {
            let f = self.buffers[p].frame_for(tick);
            proof {
                assert(self.buffers@[p as int]@ == self.bufs()[p as int]);
            }
            r.push(f);
            p += 1;
        }
        proof {
            assert(r@ =~= spec_frames_at(self.bufs(), tick as int));
        }
        r
    }

    /// Advance unconditionally by one tick: snapshot the world, record
    /// the frames the buffers prescribe, and step the simulation with
    /// them.
    fn step_once(&mut self)
        requires
            old(self).wf(),
            old(self).coherent(),
            old(self).current_tick < MAX_SESSION_TICKS,
        ensures
            spec_advanced(*old(self), *final(self)),
    {
        let tick = self.current_tick;
        let frames = self.compute_frames(tick);
        let snap = self.world.snapshot(tick);
        let rate = self.config.tick_rate;
        step_world(&mut self.world, &frames, &self.geom, rate);
        self.snapshots.push(snap);
        self.used_inputs.push(frames);
        self.current_tick = tick + 1;
        proof {
            assert(self.used() =~= old(self).used().push(
                spec_frames_at(old(self).bufs(), tick as int),
            ));
            crate::registry::lemma_step_preserves_len(
                old(self).world.characters@,
                spec_frames_at(old(self).bufs(), tick as int),
                old(self).geom.rects@,
                old(self).world.gravity,
                false,
                old(self).config.tick_rate as int,
            );
            assert forall|t: int, i: int|
                0 <= t < self.current_tick && 0 <= i
                    < self.snapshots@[t].state.characters@.len() implies spec_char_wf(
                self.snapshots@[t].state.characters@[i],
            ) by {
                if t < old(self).current_tick {
                    assert(self.snapshots@[t] == old(self).snapshots@[t]);
                    assert(spec_char_wf(old(self).snapshots@[t].state.characters@[i]));
                } else {
                    assert(self.snapshots@[t].state.characters@ == old(self).world.characters@);
                    assert(old(self).world@.characters[i] == old(self).world.characters@[i]);
                    assert(spec_char_wf(old(self).world@.characters[i]));
                }
            }
        }
    }

    /// Whether every peer's frame at a tick is settled.
    fn tick_settled(&self, tick: usize) -> (r: bool)
        ensures
            r == spec_tick_settled(self.bufs(), tick as int),
    {
        let n = self.buffers.len();
        let mut p: usize = 0;
        while p < n
            invariant
                0 <= p <= n,
                n == self.buffers@.len(),
                forall|q: int| 0 <= q < p ==> spec_frame_settled(#[trigger] self.bufs()[q], tick as int),
            decreases n - p,
        {
            let s = self.buffers[p].settled(tick);
            proof {
                assert(self.buffers@[p as int]@ == self.bufs()[p as int]);
            }
            if !s {
                return false;
            }
            p += 1;
        }
        true
    }

    /// The confirmed horizon: how many leading ticks are fully
    /// settled, capped at the current tick.
    pub fn horizon(&self) -> (r: usize)
        ensures
            r == spec_horizon(self.bufs(), self.current_tick as int),
            r <= self.current_tick,
    {
        let mut t: usize = 0;
        while t < self.current_tick
            invariant
                0 <= t <= self.current_tick,
                forall|u: int| 0 <= u < t ==> spec_tick_settled(self.bufs(), u),
            decreases self.current_tick - t,
        {
            if !self.tick_settled(t) {
                proof {
                    lemma_horizon_stops(self.bufs(), t as int, self.current_tick as int);
                }
                return t;
            }
            t += 1;
        }
        proof {
            lemma_horizon_full(self.bufs(), self.current_tick as int);
        }
        t
    }

    /// Try to advance by one tick.  If the session has already
    /// simulated a full prediction window beyond the last settled
    /// tick it stalls — a flow-control signal, not an error — and
    /// changes nothing; otherwise it snapshots, records the frames
    /// the buffers prescribe, and steps the simulation.
    pub fn advance(&mut self) -> (r: AdvanceOutcome)
        requires
            old(self).wf(),
            old(self).coherent(),
            old(self).current_tick < MAX_SESSION_TICKS,
        ensures
            old(self).stalled() ==> r == AdvanceOutcome::Stalled && *final(self) == *old(self),
            !old(self).stalled() ==> r == AdvanceOutcome::Advanced && spec_advanced(
                *old(self),
                *final(self),
            ),
    {
        let h = self.horizon();
        if self.current_tick >= self.config.prediction_window + h {
            return AdvanceOutcome::Stalled;
        }
        self.step_once();
        AdvanceOutcome::Advanced
    }

    /// Re-establish coherence after the buffers changed: find the
    /// first simulated tick whose recorded frames no longer match
    /// what the buffers prescribe, restore the snapshot taken before
    /// it, and replay every tick from there to the present with the
    /// corrected frames.  If nothing diverged, nothing changes.
    #[verifier::rlimit(80)]
    fn repair(&mut self)
        requires
            old(self).wf(),
            old(self).chain_ok(),
        ensures
            final(self).wf(),
            final(self).coherent(),
            final(self).current_tick == old(self).current_tick,
            final(self).config == old(self).config,
            final(self).bufs() == old(self).bufs(),
            final(self).geom.rects@ == old(self).geom.rects@,
            final(self).world.gravity == old(self).world.gravity,
            old(self).current_tick >= 1 ==> final(self).snapshots@[0].state.characters@ == old(
                self,
            ).snapshots@[0].state.characters@,
    {
        let target = self.current_tick;
        let mut d: usize = 0;
        let mut diverged: bool = false;
        while d < target && !diverged
            invariant
                0 <= d <= target,
                target == self.current_tick,
                *self == *old(self),
                self.wf(),
                self.chain_ok(),
                forall|t: int|
                    0 <= t < d ==> #[trigger] self.used()[t] == spec_frames_at(self.bufs(), t),
                diverged ==> d < target && self.used()[d as int] != spec_frames_at(
                    self.bufs(),
                    d as int,
                ),
            decreases target - d, (if diverged { 0int } else { 1int }),
        {
            let frames = self.compute_frames(d);
            proof {
                assert(self.used_inputs@[d as int]@ == self.used()[d as int]);
            }
            if !frames_equal(&frames, &self.used_inputs[d]) {
                diverged = true;
            } else {
                d += 1;
            }
        }
        if !diverged {
            return ;
        }
        let snap_tick = d;
        self.world.restore(&self.snapshots[snap_tick]);
        self.snapshots.truncate(snap_tick);
        self.used_inputs.truncate(snap_tick);
        self.current_tick = snap_tick;
        proof {
            assert(self.snapshots@ =~= old(self).snapshots@.take(snap_tick as int));
            assert(self.used() =~= old(self).used().take(snap_tick as int));
            assert forall|i: int|
                0 <= i < self.world.characters@.len() implies spec_char_wf(
                self.world.characters@[i],
            ) by {
                assert(self.world.characters@ == old(self).snapshots@[snap_tick as int
                ].state.characters@);
            }
            assert(spec_world_wf(self.world@));
        }
        while self.current_tick < target
            invariant
                self.wf(),
                self.coherent(),
                snap_tick <= self.current_tick <= target,
                target <= MAX_SESSION_TICKS,
                self.config == old(self).config,
                self.bufs() == old(self).bufs(),
                self.geom.rects@ == old(self).geom.rects@,
                self.world.gravity == old(self).world.gravity,
                old(self).current_tick >= 1 && self.current_tick >= 1
                    ==> self.snapshots@[0].state.characters@ == old(
                    self,
                ).snapshots@[0].state.characters@,
                old(self).current_tick >= 1 && self.current_tick == 0
                    ==> self.world.characters@ == old(self).snapshots@[0].state.characters@,
            decreases target - self.current_tick,
        {
            self.step_once();
        }
    }

    /// Take delivery of a peer's confirmed input for a tick.  If the
    /// confirmation contradicts a frame that was already simulated,
    /// the session rolls back to the first diverging tick and replays
    /// to the present; afterwards every simulated tick once more used
    /// exactly the frames the buffers prescribe.
    pub fn receive_remote_input(&mut self, peer: usize, tick: usize, mask: u8)
        requires
            old(self).wf(),
            old(self).coherent(),
            peer < old(self).config.num_players,
            tick <= MAX_SESSION_TICKS,
            spec_confirmed_mask(old(self).bufs()[peer as int].confirmed, tick as int) is None,
        ensures
            final(self).wf(),
            final(self).coherent(),
            final(self).current_tick == old(self).current_tick,
            final(self).config == old(self).config,
            final(self).geom.rects@ == old(self).geom.rects@,
            final(self).world.gravity == old(self).world.gravity,
            spec_buffer_updated(
                old(self).bufs(),
                final(self).bufs(),
                peer as int,
                tick as int,
                mask,
            ),
            old(self).current_tick >= 1 ==> final(self).snapshots@[0].state.characters@ == old(
                self,
            ).snapshots@[0].state.characters@,
    {
        proof {
            assert(old(self).buffers@[peer as int]@ == old(self).bufs()[peer as int]);
        }
        let b = vstd::std_specs::vec::vec_index_mut(&mut self.buffers, peer);
        b.store_confirmed(tick, mask);
        proof {
            assert(self.bufs() =~= old(self).bufs().update(
                peer as int,
                self.buffers@[peer as int]@,
            ));
        }
        self.repair();
    }

    /// Submit the local player's input for the current tick.  It is
    /// scheduled `input_delay` ticks ahead — trading input latency for
    /// fewer rollbacks — and treated as confirmed from there on.
    pub fn submit_local_input(&mut self, peer: usize, mask: u8)
        requires
            old(self).wf(),
            old(self).coherent(),
            peer < old(self).config.num_players,
            old(self).current_tick + old(self).config.input_delay <= MAX_SESSION_TICKS,
            spec_confirmed_mask(
                old(self).bufs()[peer as int].confirmed,
                old(self).current_tick + old(self).config.input_delay,
            ) is None,
        ensures
            final(self).wf(),
            final(self).coherent(),
            final(self).current_tick == old(self).current_tick,
            final(self).config == old(self).config,
            final(self).geom.rects@ == old(self).geom.rects@,
            final(self).world.gravity == old(self).world.gravity,
            spec_buffer_updated(
                old(self).bufs(),
                final(self).bufs(),
                peer as int,
                old(self).current_tick + old(self).config.input_delay,
                mask,
            ),
    {
        let tick = self.current_tick + self.config.input_delay;
        self.receive_remote_input(peer, tick, mask);
    }

    /// Mark a peer disconnected as of a tick: every later tick gets
    /// the all-zero disconnected frame for it.  Ticks already
    /// simulated with a different assumption are rolled back and
    /// replayed.
    pub fn disconnect_peer(&mut self, peer: usize, tick: usize)
        requires
            old(self).wf(),
            old(self).coherent(),
            peer < old(self).config.num_players,
            tick <= MAX_SESSION_TICKS,
            old(self).bufs()[peer as int].disconnected_at is None,
        ensures
            final(self).wf(),
            final(self).coherent(),
            final(self).current_tick == old(self).current_tick,
            final(self).config == old(self).config,
            final(self).geom.rects@ == old(self).geom.rects@,
            final(self).world.gravity == old(self).world.gravity,
            final(self).bufs().len() == old(self).bufs().len(),
            forall|q: int|
                0 <= q < final(self).bufs().len() && q != peer
                    ==> #[trigger] final(self).bufs()[q] == old(self).bufs()[q],
            final(self).bufs()[peer as int].confirmed == old(self).bufs()[peer as int].confirmed,
            final(self).bufs()[peer as int].disconnected_at == Option::Some(tick),
    {
        proof {
            assert(old(self).buffers@[peer as int]@ == old(self).bufs()[peer as int]);
        }
        let b = vstd::std_specs::vec::vec_index_mut(&mut self.buffers, peer);
        b.disconnected_at = Option::Some(tick);
        proof {
            assert(self.bufs() =~= old(self).bufs().update(
                peer as int,
                self.buffers@[peer as int]@,
            ));
        }
        self.repair();
    }

    /// The desync checksum of the current canonical state.
    pub fn current_checksum(&self) -> (r: u16)
        requires
            self.wf(),
        ensures
            r == crate::checksum::spec_state_checksum(self.world.characters@),
    {
        proof {
            assert forall|i: int|
                0 <= i < self.world.characters@.len() implies spec_char_wf(
                self.world.characters@[i],
            ) by {
                assert(spec_char_wf(self.world@.characters[i]));
            }
        }
        crate::checksum::state_checksum(&self.world.characters)
    }
}

/// The replay of the first `t` recorded ticks from the initial
/// snapshot reproduces the session's own history: tick `t`'s snapshot
/// while `t` is in the past, the live world at the present.
proof fn lemma_replay_prefix(s: &SessionManager, t: int)
    requires
        s.wf(),
        s.coherent(),
        1 <= t <= s.current_tick,
    ensures
        crate::registry::spec_run(
            s.snapshots@[0].state.characters@,
            s.used().take(t),
            s.geom.rects@,
            s.world.gravity,
            false,
            s.config.tick_rate as int,
        ) == if t < s.current_tick {
            s.snapshots@[t].state.characters@
        } else {
            s.world.characters@
        },
    decreases t,
{
    let snap0 = s.snapshots@[0].state.characters@;
    let rects = s.geom.rects@;
    let g = s.world.gravity;
    let rate = s.config.tick_rate as int;
    if t == 1 {
        assert(s.used().take(1) =~= seq![s.used()[0]]);
        crate::laws::lemma_run_single(snap0, s.used()[0], rects, g, false, rate);
    } else {
        lemma_replay_prefix(s, t - 1);
        assert(s.used().take(t) =~= s.used().take(t - 1) + seq![s.used()[t - 1]]);
        crate::laws::lemma_run_append(
            snap0,
            s.used().take(t - 1),
            seq![s.used()[t - 1]],
            rects,
            g,
            false,
            rate,
        );
        crate::laws::lemma_run_single(
            s.snapshots@[t - 1].state.characters@,
            s.used()[t - 1],
            rects,
            g,
            false,
            rate,
        );
    }
}

/// The session-level face of the determinism laws: a coherent
/// session's live world is exactly the pure run of its recorded input
/// history from its initial state.  Nothing outside the input buffers
/// — no clock, no iteration order, no transport artefact — has ever
/// influenced it, so any two peers holding the same history hold the
/// same world.
pub proof fn lemma_world_is_replay(s: &SessionManager)
    requires
        s.wf(),
        s.coherent(),
        s.current_tick >= 1,
    ensures
        s.world.characters@ == crate::registry::spec_run(
            s.snapshots@[0].state.characters@,
            s.used(),
            s.geom.rects@,
            s.world.gravity,
            false,
            s.config.tick_rate as int,
        ),
{
    lemma_replay_prefix(s, s.current_tick as int);
    assert(s.used().take(s.current_tick as int) =~= s.used());
}

} // verus!
