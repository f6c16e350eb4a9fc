//! The rollback synchronization engine.
//!
//! The session owns the frame cursor, both players' confirmed-input
//! buffers, and one snapshot of the world per simulated frame.  Each driver
//! tick it resolves, per player, the best currently known input — the
//! confirmed value if one has arrived, else a repetition of the newest
//! confirmed value below it, else the zero symbol — and simulates one
//! frame.  When a remote confirmation lands on an already simulated frame,
//! it restores the snapshot taken just before that frame and replays up to
//! the cursor with the corrected history, atomically within the call.
//!
//! The engine's invariant pins every snapshot to `engine_run`, the direct
//! fully-informed replay of the current input knowledge, so after any
//! sequence of operations the current world is exactly the state a forward
//! simulation with the corrected inputs would have produced — no residual
//! divergence.

use vstd::prelude::*;

use crate::sim::{clone_world, spec_step, step, TickEvents, World, WorldM};

verus! {

/// Best currently known input of one player for frame `f`, given the
/// player's confirmation buffer: the confirmed value at `f` when present,
/// else the newest confirmed value below `f`, else the zero symbol.
pub open spec fn best_input(c: Seq<Option<u8>>, f: int) -> u8
    decreases f,
{
    if f < 0 {
        0u8
    } else {
        let cur = if f < c.len() {
            c[f]
        } else {
            Option::<u8>::None
        };
        match cur {
            Some(v) => v,
            None => if f == 0 {
                0u8
            } else {
                best_input(c, f - 1)
            },
        }
    }
}

/// The confirmation buffer entry for frame `i`; frames beyond the buffer
/// are unconfirmed.
pub open spec fn opt_at(c: Seq<Option<u8>>, i: int) -> Option<u8> {
    if 0 <= i < c.len() {
        c[i]
    } else {
        Option::<u8>::None
    }
}

/// Recording a confirmation: grow the buffer to reach frame `f` if needed,
/// then set the entry — unless one is already present (first value wins).
pub open spec fn confirm_at(c: Seq<Option<u8>>, f: int, v: u8) -> Seq<Option<u8>> {
    let grown = if f < c.len() {
        c
    } else {
        c + Seq::new((f + 1 - c.len()) as nat, |j: int| Option::<u8>::None)
    };
    if grown[f] is None {
        grown.update(f, Some(v))
    } else {
        grown
    }
}

/// The state a fully informed direct replay produces after `n` frames,
/// resolving each player's input per frame via `best_input`.
pub open spec fn engine_run(
    init: WorldM,
    c0: Seq<Option<u8>>,
    c1: Seq<Option<u8>>,
    n: int,
) -> WorldM
    decreases n,
{
    if n <= 0 {
        init
    } else {
        spec_step(
            engine_run(init, c0, c1, n - 1),
            best_input(c0, n - 1),
            best_input(c1, n - 1),
        )
    }
}

/// Replay of frames `from..to` on top of a mid-run state.
pub open spec fn engine_run_from(
    m: WorldM,
    c0: Seq<Option<u8>>,
    c1: Seq<Option<u8>>,
    from: int,
    to: int,
) -> WorldM
    decreases to - from,
{
    if to <= from {
        m
    } else {
        spec_step(
            engine_run_from(m, c0, c1, from, to - 1),
            best_input(c0, to - 1),
            best_input(c1, to - 1),
        )
    }
}

/// `best_input` reads the buffer only at frames at or below `f`.
pub proof fn lemma_best_input_agree(a: Seq<Option<u8>>, b: Seq<Option<u8>>, f: int)
    requires
        forall|i: int| 0 <= i <= f ==> opt_at(a, i) == opt_at(b, i),
    ensures
        best_input(a, f) == best_input(b, f),
    decreases f,
{
    if f > 0 {
        assert(opt_at(a, f) == opt_at(b, f));
        if opt_at(a, f) is None {
            lemma_best_input_agree(a, b, f - 1);
        }
    } else if f == 0 {
        assert(opt_at(a, 0) == opt_at(b, 0));
    }
}

/// `engine_run` reads the buffers only at frames strictly below `n`.
pub proof fn lemma_engine_run_agree(
    init: WorldM,
    a0: Seq<Option<u8>>,
    a1: Seq<Option<u8>>,
    b0: Seq<Option<u8>>,
    b1: Seq<Option<u8>>,
    n: int,
)
    requires
        forall|i: int| 0 <= i < n ==> opt_at(a0, i) == opt_at(b0, i),
        forall|i: int| 0 <= i < n ==> opt_at(a1, i) == opt_at(b1, i),
    ensures
        engine_run(init, a0, a1, n) == engine_run(init, b0, b1, n),
    decreases n,
{
    if n > 0 {
        lemma_engine_run_agree(init, a0, a1, b0, b1, n - 1);
        lemma_best_input_agree(a0, b0, n - 1);
        lemma_best_input_agree(a1, b1, n - 1);
    }
}

/// `confirm_at` changes no entry below the confirmed frame.
pub proof fn lemma_confirm_at_below(c: Seq<Option<u8>>, f: int, v: u8)
    requires
        0 <= f,
    ensures
        forall|i: int| 0 <= i < f ==> opt_at(confirm_at(c, f, v), i) == opt_at(c, i),
        confirm_at(c, f, v).len() >= c.len(),
{
    let r = confirm_at(c, f, v);
    assert forall|i: int| 0 <= i < f implies opt_at(r, i) == opt_at(c, i) by {
        if f < c.len() {
        } else {
            if i < c.len() {
            } else {
                assert((c + Seq::new((f + 1 - c.len()) as nat, |j: int| Option::<u8>::None))[i]
                    is None);
            }
        }
    }
}

/// Law (replay determinism): the replay outcome is a function of the
/// initial snapshot and the input history alone — equal snapshots under
/// equal histories give bit-identical states at every frame.
pub proof fn lemma_run_deterministic(
    a: WorldM,
    b: WorldM,
    c0: Seq<Option<u8>>,
    c1: Seq<Option<u8>>,
    n: int,
)
    requires
        a == b,
    ensures
        engine_run(a, c0, c1, n) == engine_run(b, c0, c1, n),
{
}

/// Splitting a direct replay at any frame `k` and resuming from the
/// intermediate state changes nothing.
pub proof fn lemma_run_compose(
    init: WorldM,
    c0: Seq<Option<u8>>,
    c1: Seq<Option<u8>>,
    k: int,
    n: int,
)
    requires
        0 <= k <= n,
    ensures
        engine_run_from(engine_run(init, c0, c1, k), c0, c1, k, n) == engine_run(init, c0, c1, n),
    decreases n - k,
{
    if n > k {
        lemma_run_compose(init, c0, c1, k, n - 1);
    }
}

/// Law (rollback equivalence): let `p0, p1` be the partly predicted
/// histories a speculative run used for frames `0..k`, and `c0, c1` the
/// corrected histories.  If they agree below `k`, then restoring the
/// snapshot the speculative run took just before frame `k` and replaying
/// frames `k..n` with the corrected histories yields exactly the state the
/// corrected histories produce by direct forward simulation of `0..n` —
/// for any `0 <= k <= n`.
pub proof fn lemma_rollback_equivalence(
    init: WorldM,
    p0: Seq<Option<u8>>,
    p1: Seq<Option<u8>>,
    c0: Seq<Option<u8>>,
    c1: Seq<Option<u8>>,
    k: int,
    n: int,
)
    requires
        0 <= k <= n,
        forall|i: int| 0 <= i < k ==> opt_at(p0, i) == opt_at(c0, i),
        forall|i: int| 0 <= i < k ==> opt_at(p1, i) == opt_at(c1, i),
    ensures
        engine_run_from(engine_run(init, p0, p1, k), c0, c1, k, n) == engine_run(init, c0, c1, n),
{
    lemma_engine_run_agree(init, p0, p1, c0, c1, k);
    lemma_run_compose(init, c0, c1, k, n);
}

/// Law (elimination idempotence over a replay): a player eliminated by
/// frame `k` stays eliminated and frozen at every later frame, so no
/// further elimination event can fire for it.
pub proof fn lemma_elimination_idempotent(
    init: WorldM,
    c0: Seq<Option<u8>>,
    c1: Seq<Option<u8>>,
    k: int,
    n: int,
)
    requires
        0 <= k <= n,
    ensures
        !engine_run(init, c0, c1, k).p0.alive ==> engine_run(init, c0, c1, n).p0 == engine_run(
            init,
            c0,
            c1,
            k,
        ).p0,
        !engine_run(init, c0, c1, k).p1.alive ==> engine_run(init, c0, c1, n).p1 == engine_run(
            init,
            c0,
            c1,
            k,
        ).p1,
    decreases n - k,
{
    if n > k {
        lemma_elimination_idempotent(init, c0, c1, k, n - 1);
        crate::sim::lemma_eliminated_frozen(
            engine_run(init, c0, c1, n - 1),
            best_input(c0, n - 1),
            best_input(c1, n - 1),
        );
    }
}

// ---- the executable session ----

fn set_conf(c: &mut Vec<Option<u8>>, f: usize, v: u8)
    requires
        f < usize::MAX,
    ensures
        final(c)@ == confirm_at(old(c)@, f as int, v),
{
    let ghost c0 = c@;
    proof {
        assert(c@ =~= c0 + Seq::new(0, |j: int| Option::<u8>::None));
    }
    while c.len() <= f
        invariant
            f < usize::MAX,
            c@.len() >= c0.len(),
            c@.len() == c0.len() || (c0.len() <= f && c@.len() <= f + 1),
            c@ == c0 + Seq::new((c@.len() - c0.len()) as nat, |j: int| Option::<u8>::None),
        decreases f + 1 - c@.len(),
    {
        c.push(None);
        proof {
            assert(c@ =~= c0 + Seq::new((c@.len() - c0.len()) as nat, |j: int| Option::<u8>::None));
        }
    }
    proof {
        let grown = if (f as int) < c0.len() {
            c0
        } else {
            c0 + Seq::new((f + 1 - c0.len()) as nat, |j: int| Option::<u8>::None)
        };
        assert(c@ =~= grown);
    }
    let cur: Option<u8> = c[f];
    if cur.is_none() {
        c[f] = Some(v);
    }
    proof {
        assert(c@ =~= confirm_at(c0, f as int, v));
    }
}

fn best_exec(c: &Vec<Option<u8>>, f: usize) -> (r: u8)
    ensures
        r == best_input(c@, f as int),
{
    let mut i: usize = f;
    loop
        invariant
            i <= f,
            best_input(c@, f as int) == best_input(c@, i as int),
        decreases i,
    {
        if i < c.len() {
            let cur: Option<u8> = c[i];
            if let Some(v) = cur {
                return v;
            }
        }
        if i == 0 {
            return 0;
        }
        i = i - 1;
    }
}

/// What one `advance` produced: the (frame, input symbol) message to hand
/// to the peer channel, and the tick's elimination events.
#[derive(Clone, Copy, PartialEq, Eq, Debug)]
pub struct AdvanceOutcome {
    pub send_frame: usize,
    pub send_input: u8,
    pub events: TickEvents,
}

/// A two-player rollback session.
pub struct RollbackSession {
    pub snapshots: Vec<World>,
    pub confirmed0: Vec<Option<u8>>,
    pub confirmed1: Vec<Option<u8>>,
    pub local_handle: u8,
    pub delay: usize,
}

impl RollbackSession {
    /// The snapshot taken before frame 0.
    pub open spec fn initial(self) -> WorldM {
        self.snapshots@[0]@
    }

    /// The next frame to simulate; snapshots exist for every frame up to it.
    pub open spec fn frame(self) -> int {
        self.snapshots@.len() - 1
    }

    pub open spec fn confirmed(self, player: int) -> Seq<Option<u8>> {
        if player == 0 {
            self.confirmed0@
        } else {
            self.confirmed1@
        }
    }

    pub open spec fn local(self) -> int {
        self.local_handle as int
    }

    pub open spec fn remote(self) -> int {
        1 - self.local_handle as int
    }

    pub open spec fn input_delay(self) -> int {
        self.delay as int
    }

    /// The current world: the snapshot at the frame cursor.
    pub open spec fn world(self) -> WorldM {
        self.snapshots@[self.frame()]@
    }

    /// The session invariant: every stored snapshot — the current world
    /// included — equals the direct fully-informed replay of the current
    /// input knowledge up to its frame.
    pub open spec fn inv(self) -> bool {
        &&& self.snapshots@.len() >= 1
        &&& self.local_handle <= 1
        &&& self.initial().wf()
        &&& forall|f: int|
            0 <= f < self.snapshots@.len() ==> (#[trigger] self.snapshots@[f])@ == engine_run(
                self.initial(),
                self.confirmed0@,
                self.confirmed1@,
                f,
            )
        &&& forall|f: int|
            0 <= f < self.snapshots@.len() ==> (#[trigger] self.snapshots@[f])@.wf()
    }

    /// Open a session on an initial snapshot.  `local_handle` names the
    /// local player, `delay` is the fixed input delay in ticks.
    pub fn new(initial: World, local_handle: u8, delay: usize) -> (s: RollbackSession)
        requires
            initial@.wf(),
            local_handle <= 1,
        ensures
            s.inv(),
            s.frame() == 0,
            s.initial() == initial@,
            s.world() == initial@,
            s.local() == local_handle as int,
            s.input_delay() == delay as int,
            s.confirmed(0).len() == 0,
            s.confirmed(1).len() == 0,
    {
        let mut snaps: Vec<World> = Vec::new();
        snaps.push(initial);
        RollbackSession {
            snapshots: snaps,
            confirmed0: Vec::new(),
            confirmed1: Vec::new(),
            local_handle,
            delay,
        }
    }

    pub fn current_frame(&self) -> (f: usize)
        requires
            self.inv(),
        ensures
            f as int == self.frame(),
    {
        self.snapshots.len() - 1
    }

    /// Read-only view of the current world, for rendering.
    pub fn current_world(&self) -> (w: &World)
        requires
            self.inv(),
        ensures
            w@ == self.world(),
    {
        let i: usize = self.snapshots.len() - 1;
        &self.snapshots[i]
    }

    /// One driver tick: record the local input symbol (scheduled
    /// `input_delay` frames ahead, so the first `input_delay` frames run on
    /// the zero symbol), resolve both players' best inputs for the current
    /// frame, simulate it, snapshot the result, and report the message to
    /// send to the peer together with the tick's elimination events.
    pub fn advance(&mut self, local_input: u8) -> (out: AdvanceOutcome)
        requires
            old(self).inv(),
            old(self).frame() + old(self).input_delay() + 1 < usize::MAX,
        ensures
            final(self).inv(),
            final(self).frame() == old(self).frame() + 1,
            final(self).initial() == old(self).initial(),
            final(self).local() == old(self).local(),
            final(self).input_delay() == old(self).input_delay(),
            final(self).confirmed(old(self).local()) == confirm_at(
                old(self).confirmed(old(self).local()),
                old(self).frame() + old(self).input_delay(),
                local_input,
            ),
            final(self).confirmed(old(self).remote()) == old(self).confirmed(old(self).remote()),
            out.send_frame == old(self).frame() + old(self).input_delay(),
            out.send_input == local_input,
            out.events.eliminated0 == (old(self).world().p0.alive && !final(self).world().p0.alive),
            out.events.eliminated1 == (old(self).world().p1.alive && !final(self).world().p1.alive),
    {
        let cur: usize = self.snapshots.len() - 1;
        let target: usize = cur + self.delay;
        let ghost old_c0 = self.confirmed0@;
        let ghost old_c1 = self.confirmed1@;
        if self.local_handle == 0 {
            set_conf(&mut self.confirmed0, target, local_input);
        } else {
            set_conf(&mut self.confirmed1, target, local_input);
        }
        proof {
            lemma_confirm_at_below(
                if self.local_handle == 0 {
                    old_c0
                } else {
                    old_c1
                },
                target as int,
                local_input,
            );
            assert forall|f: int|
                0 <= f < self.snapshots@.len() implies (#[trigger] self.snapshots@[f])@
                == engine_run(self.initial(), self.confirmed0@, self.confirmed1@, f) by {
                lemma_engine_run_agree(
                    self.initial(),
                    old_c0,
                    old_c1,
                    self.confirmed0@,
                    self.confirmed1@,
                    f,
                );
            }
        }
        let b0: u8 = best_exec(&self.confirmed0, cur);
        let b1: u8 = best_exec(&self.confirmed1, cur);
        let mut w: World = clone_world(&self.snapshots[cur]);
        let ev: TickEvents = step(&mut w, b0, b1);
        self.snapshots.push(w);
        proof {
            assert(self.snapshots@[cur as int + 1]@ == engine_run(
                self.initial(),
                self.confirmed0@,
                self.confirmed1@,
                cur as int + 1,
            ));
        }
        AdvanceOutcome { send_frame: target, send_input: local_input, events: ev }
    }

    /// Record a (frame, input symbol) message from the remote peer.
    /// Out-of-order and duplicate deliveries are tolerated: the first
    /// confirmed value for a frame wins, and a frame nothing has arrived
    /// for simply stays predicted.  If the confirmation lands on an already
    /// simulated frame, the snapshots past it are rebuilt by replaying with
    /// the corrected history before the call returns — the rollback.
    pub fn confirm_remote(&mut self, frame: usize, input: u8)
        requires
            old(self).inv(),
            frame < usize::MAX,
        ensures
            final(self).inv(),
            final(self).frame() == old(self).frame(),
            final(self).initial() == old(self).initial(),
            final(self).local() == old(self).local(),
            final(self).input_delay() == old(self).input_delay(),
            final(self).confirmed(old(self).remote()) == confirm_at(
                old(self).confirmed(old(self).remote()),
                frame as int,
                input,
            ),
            final(self).confirmed(old(self).local()) == old(self).confirmed(old(self).local()),
    {
        let cur: usize = self.snapshots.len() - 1;
        let ghost old_c0 = self.confirmed0@;
        let ghost old_c1 = self.confirmed1@;
        if self.local_handle == 0 {
            set_conf(&mut self.confirmed1, frame, input);
        } else {
            set_conf(&mut self.confirmed0, frame, input);
        }
        let ghost new_c0 = self.confirmed0@;
        let ghost new_c1 = self.confirmed1@;
        proof {
            lemma_confirm_at_below(
                if self.local_handle == 0 {
                    old_c1
                } else {
                    old_c0
                },
                frame as int,
                input,
            );
            assert forall|f: int|
                0 <= f < self.snapshots@.len() && f <= frame implies (#[trigger] self.snapshots@[f])@
                == engine_run(self.initial(), new_c0, new_c1, f) by {
                lemma_engine_run_agree(self.initial(), old_c0, old_c1, new_c0, new_c1, f);
            }
        }
        if frame < cur {
            self.snapshots.truncate(frame + 1);
            while self.snapshots.len() <= cur
                invariant
                    1 <= self.snapshots@.len() <= cur + 1,
                    self.confirmed0@ == new_c0,
                    self.confirmed1@ == new_c1,
                    self.local_handle == old(self).local_handle,
                    self.delay == old(self).delay,
                    self.initial() == old(self).initial(),
                    self.initial().wf(),
                    forall|f: int|
                        0 <= f < self.snapshots@.len() ==> (#[trigger] self.snapshots@[f])@
                            == engine_run(self.initial(), new_c0, new_c1, f),
                    forall|f: int|
                        0 <= f < self.snapshots@.len() ==> (#[trigger] self.snapshots@[f])@.wf(),
                decreases cur + 1 - self.snapshots@.len(),
            {
                let j: usize = self.snapshots.len() - 1;
                let b0: u8 = best_exec(&self.confirmed0, j);
                let b1: u8 = best_exec(&self.confirmed1, j);
                let mut w: World = clone_world(&self.snapshots[j]);
                step(&mut w, b0, b1);
                self.snapshots.push(w);
            }
        } else {
            proof {
                assert forall|f: int|
                    0 <= f < self.snapshots@.len() implies (#[trigger] self.snapshots@[f])@
                    == engine_run(self.initial(), new_c0, new_c1, f) by {
                    lemma_engine_run_agree(self.initial(), old_c0, old_c1, new_c0, new_c1, f);
                }
            }
        }
    }
}

} // verus!
