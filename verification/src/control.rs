//! Per-tick decisions of the control loop: the observation vector, the
//! action history, pause handling, and the head-axis override.
//!
//! The loop itself lives outside the library, where the transport, the
//! inference engine, and the clock are; every decision it takes is a
//! function here with an exact contract.

use vstd::prelude::*;

verus! {

use crate::imu::ImuData;
use crate::rl_utils::div_trunc;

/// The scale applied to joint velocities in the observation,
/// thousandths.
pub const VELOCITY_OBS_SCALE_MILLI: i64 = 50;

/// How long after startup the low-pass stage stays bypassed,
/// milliseconds: startup transients must not be filtered into a
/// persistent bias.
pub const FILTER_WARMUP_MS: i64 = 1000;

/// The observation vector handed to the policy, as a function of the
/// tick's inputs: inertial sample, command axes, joint positions
/// relative to the standing pose, scaled joint velocities, the three
/// most recent actions, the previous motor targets, foot contacts, and
/// the gait-phase encoding.
pub open spec fn observation_spec(
    gyro: Seq<i64>,
    accel: Seq<i64>,
    commands: Seq<i64>,
    dof_pos: Seq<i64>,
    init_pos: Seq<i64>,
    dof_vel: Seq<i64>,
    last_action: Seq<i64>,
    last_last_action: Seq<i64>,
    last_last_last_action: Seq<i64>,
    motor_targets: Seq<i64>,
    feet: Seq<i64>,
    phase: Seq<i64>,
) -> Seq<i64> {
    gyro + accel + commands + Seq::new(dof_pos.len(), |i: int| (dof_pos[i] - init_pos[i]) as i64)
        + Seq::new(
        dof_vel.len(),
        |i: int| div_trunc(dof_vel[i] * VELOCITY_OBS_SCALE_MILLI, 1000) as i64,
    ) + last_action + last_last_action + last_last_last_action + motor_targets + feet + phase
}

/// Append all of `v` to `out`.
fn extend_i64(out: &mut Vec<i64>, v: &Vec<i64>)
    ensures
        final(out)@ == old(out)@ + v@,
{
    let mut i: usize = 0;
    while i < v.len()
        invariant
            0 <= i <= v@.len(),
            out@ == old(out)@ + v@.take(i as int),
        decreases v@.len() - i,
    {
        out.push(v[i]);
        proof {
            assert(old(out)@ + v@.take(i + 1) =~= (old(out)@ + v@.take(i as int)).push(
                v@[i as int],
            ));
        }
        i = i + 1;
    }
    proof {
        assert(v@.take(v@.len() as int) =~= v@);
    }
}

/// Mutable state the control loop carries across ticks: the rolling
/// action history, the last commanded motor targets, and whether the
/// loop is paused.
pub struct ControlState {
    /// The most recent action vector.
    pub last_action: Vec<i64>,
    /// The action before that.
    pub last_last_action: Vec<i64>,
    /// The action before that again.
    pub last_last_last_action: Vec<i64>,
    /// The last motor targets handed to the bus, microradians.
    pub motor_targets: Vec<i64>,
    /// Whether the loop is paused: no sensor, inference, or motor work.
    pub paused: bool,
}

impl ControlState {
    /// The state's invariant: every per-joint vector has one entry per
    /// joint.
    pub open spec fn well_formed(&self, dofs: int) -> bool {
        &&& self.last_action@.len() == dofs
        &&& self.last_last_action@.len() == dofs
        &&& self.last_last_last_action@.len() == dofs
        &&& self.motor_targets@.len() == dofs
    }

    /// The startup state: an all-zero action history and the standing
    /// pose as the previous targets.
    pub fn new(init_pos: &Vec<i64>, start_paused: bool) -> (r: Self)
        ensures
            r.well_formed(init_pos@.len() as int),
            forall|i: int| 0 <= i < r.last_action@.len() ==> #[trigger] r.last_action@[i] == 0i64,
            forall|i: int|
                0 <= i < r.last_last_action@.len() ==> #[trigger] r.last_last_action@[i] == 0i64,
            forall|i: int|
                0 <= i < r.last_last_last_action@.len() ==> #[trigger] r.last_last_last_action@[i]
                    == 0i64,
            r.motor_targets@ == init_pos@,
            r.paused == start_paused,
    {
        let n = init_pos.len();
        let mut zeros: Vec<i64> = Vec::new();
        let mut i: usize = 0;
        while i < n
            invariant
                0 <= i <= n,
                zeros@.len() == i,
                forall|k: int| 0 <= k < i ==> #[trigger] zeros@[k] == 0i64,
            decreases n - i,
        {
            zeros.push(0);
            i = i + 1;
        }
        let mut targets: Vec<i64> = Vec::new();
        extend_i64(&mut targets, init_pos);
        ControlState {
            last_action: vstd::slice::slice_to_vec(zeros.as_slice()),
            last_last_action: vstd::slice::slice_to_vec(zeros.as_slice()),
            last_last_last_action: zeros,
            motor_targets: targets,
            paused: start_paused,
        }
    }

    /// Flip the paused flag on the designated button's trigger edge.
    pub fn apply_pause_trigger(&mut self, triggered: bool)
        ensures
            final(self).paused == (if triggered {
                !old(self).paused
            } else {
                old(self).paused
            }),
            final(self).last_action@ == old(self).last_action@,
            final(self).last_last_action@ == old(self).last_last_action@,
            final(self).last_last_last_action@ == old(self).last_last_last_action@,
            final(self).motor_targets@ == old(self).motor_targets@,
    {
        if triggered {
            self.paused = !self.paused;
        }
    }

    /// Shift the rolling action history one tick: the oldest action is
    /// discarded and the new one enters.
    pub fn update_action_history(&mut self, action: &Vec<i64>)
        ensures
            final(self).last_action@ == action@,
            final(self).last_last_action@ == old(self).last_action@,
            final(self).last_last_last_action@ == old(self).last_last_action@,
            final(self).motor_targets@ == old(self).motor_targets@,
            final(self).paused == old(self).paused,
    {
        let mut newest: Vec<i64> = Vec::new();
        extend_i64(&mut newest, action);
        let mut second: Vec<i64> = Vec::new();
        extend_i64(&mut second, &self.last_action);
        let mut third: Vec<i64> = Vec::new();
        extend_i64(&mut third, &self.last_last_action);
        self.last_last_last_action = third;
        self.last_last_action = second;
        self.last_action = newest;
    }

    /// Record the targets that are about to be written to the bus.
    pub fn set_motor_targets(&mut self, targets: &Vec<i64>)
        ensures
            final(self).motor_targets@ == targets@,
            final(self).last_action@ == old(self).last_action@,
            final(self).last_last_action@ == old(self).last_last_action@,
            final(self).last_last_last_action@ == old(self).last_last_last_action@,
            final(self).paused == old(self).paused,
    {
        let mut t: Vec<i64> = Vec::new();
        extend_i64(&mut t, targets);
        self.motor_targets = t;
    }
}

/// Add the live head-axis commands (microradians) onto the four
/// head-joint targets, so gamepad head motion is not smoothed away by
/// the action filter.  With fewer than nine joints the targets are
/// returned unchanged.
pub fn apply_head_commands(targets: &Vec<i64>, commands: &[i64; 7]) -> (r: Vec<i64>)
    requires
        forall|i: int|
            0 <= i < targets@.len() ==> -1_000_000_000_000 <= #[trigger] targets@[i]
                <= 1_000_000_000_000,
        forall|i: int|
            0 <= i < 7 ==> -1_000_000_000 <= #[trigger] commands@[i] <= 1_000_000_000,
    ensures
        r@.len() == targets@.len(),
        targets@.len() > 8 ==> forall|i: int|
            0 <= i < r@.len() ==> r@[i] == targets@[i] + (if i == 5 {
                commands@[3] as int
            } else if i == 6 {
                commands@[4] as int
            } else if i == 7 {
                commands@[5] as int
            } else if i == 8 {
                commands@[6] as int
            } else {
                0int
            }),
        targets@.len() <= 8 ==> r@ == targets@,
{
    let mut out: Vec<i64> = Vec::new();
    extend_i64(&mut out, targets);
    if out.len() > 8 {
        let t5 = out[5] + commands[3];
        out.set(5, t5);
        let t6 = out[6] + commands[4];
        out.set(6, t6);
        let t7 = out[7] + commands[5];
        out.set(7, t7);
        let t8 = out[8] + commands[6];
        out.set(8, t8);
    }
    out
}

/// Whether the low-pass stage is active: it is bypassed during the
/// warm-up second after startup.
pub fn filter_active(elapsed_ms: i64) -> (r: bool)
    ensures
        r == (elapsed_ms > FILTER_WARMUP_MS),
{
    elapsed_ms > FILTER_WARMUP_MS
}

/// Assemble the observation vector for one tick.
pub fn build_observation(
    imu: &ImuData,
    commands: &[i64; 7],
    dof_pos: &Vec<i64>,
    init_pos: &Vec<i64>,
    dof_vel: &Vec<i64>,
    state: &ControlState,
    feet: &[i64; 2],
    phase: &[i64; 2],
) -> (r: Vec<i64>)
    requires
        dof_pos@.len() == init_pos@.len(),
        forall|i: int|
            0 <= i < dof_pos@.len() ==> -1_000_000_000 <= #[trigger] dof_pos@[i]
                <= 1_000_000_000,
        forall|i: int|
            0 <= i < init_pos@.len() ==> -1_000_000_000 <= #[trigger] init_pos@[i]
                <= 1_000_000_000,
        forall|i: int|
            0 <= i < dof_vel@.len() ==> -1_000_000_000_000 <= #[trigger] dof_vel@[i]
                <= 1_000_000_000_000,
    ensures
        r@ == observation_spec(
            imu.gyro@,
            imu.accel@,
            commands@,
            dof_pos@,
            init_pos@,
            dof_vel@,
            state.last_action@,
            state.last_last_action@,
            state.last_last_last_action@,
            state.motor_targets@,
            feet@,
            phase@,
        ),
{
    let mut obs: Vec<i64> = Vec::new();
    obs.push(imu.gyro[0]);
    obs.push(imu.gyro[1]);
    obs.push(imu.gyro[2]);
    obs.push(imu.accel[0]);
    obs.push(imu.accel[1]);
    obs.push(imu.accel[2]);
    let mut c: usize = 0;
    while c < 7
        invariant
            0 <= c <= 7,
            obs@ == imu.gyro@ + imu.accel@ + commands@.take(c as int),
        decreases 7 - c,
    {
        obs.push(commands[c]);
        proof {
            assert(imu.gyro@ + imu.accel@ + commands@.take(c + 1) =~= (imu.gyro@ + imu.accel@
                + commands@.take(c as int)).push(commands@[c as int]));
        }
        c = c + 1;
    }
    let ghost prefix1: Seq<i64> = imu.gyro@ + imu.accel@ + commands@;
    proof {
        assert(commands@.take(7) =~= commands@);
        assert(obs@ =~= prefix1);
    }
    let ghost rel_pos: Seq<i64> = Seq::new(
        dof_pos@.len(),
        |i: int| (dof_pos@[i] - init_pos@[i]) as i64,
    );
    let n = dof_pos.len();
    let mut i: usize = 0;
    while i < n
        invariant
            0 <= i <= n,
            n == dof_pos@.len() == init_pos@.len(),
            forall|k: int|
                0 <= k < dof_pos@.len() ==> -1_000_000_000 <= #[trigger] dof_pos@[k]
                    <= 1_000_000_000,
            forall|k: int|
                0 <= k < init_pos@.len() ==> -1_000_000_000 <= #[trigger] init_pos@[k]
                    <= 1_000_000_000,
            rel_pos == Seq::new(dof_pos@.len(), |k: int| (dof_pos@[k] - init_pos@[k]) as i64),
            obs@ == prefix1 + rel_pos.take(i as int),
        decreases n - i,
    {
        obs.push(dof_pos[i] - init_pos[i]);
        proof {
            assert(prefix1 + rel_pos.take(i + 1) =~= (prefix1 + rel_pos.take(i as int)).push(
                rel_pos[i as int],
            ));
        }
        i = i + 1;
    }
    let ghost prefix2: Seq<i64> = prefix1 + rel_pos;
    proof {
        assert(rel_pos.take(rel_pos.len() as int) =~= rel_pos);
        assert(obs@ =~= prefix2);
    }
    let ghost scaled_vel: Seq<i64> = Seq::new(
        dof_vel@.len(),
        |i: int| div_trunc(dof_vel@[i] * VELOCITY_OBS_SCALE_MILLI, 1000) as i64,
    );
    let nv = dof_vel.len();
    let mut j: usize = 0;
    while j < nv
        invariant
            0 <= j <= nv,
            nv == dof_vel@.len(),
            forall|k: int|
                0 <= k < dof_vel@.len() ==> -1_000_000_000_000 <= #[trigger] dof_vel@[k]
                    <= 1_000_000_000_000,
            scaled_vel == Seq::new(
                dof_vel@.len(),
                |k: int| div_trunc(dof_vel@[k] * VELOCITY_OBS_SCALE_MILLI, 1000) as i64,
            ),
            obs@ == prefix2 + scaled_vel.take(j as int),
        decreases nv - j,
    {
        proof {
            assert(-50_000_000_000_000 <= dof_vel@[j as int] * VELOCITY_OBS_SCALE_MILLI
                <= 50_000_000_000_000) by (nonlinear_arith)
                requires
                    -1_000_000_000_000 <= dof_vel@[j as int] <= 1_000_000_000_000,
                    VELOCITY_OBS_SCALE_MILLI == 50,
            ;
            crate::rl_utils::lemma_div_trunc_bound(
                dof_vel@[j as int] * VELOCITY_OBS_SCALE_MILLI,
                1000,
                50_000_000_000_000,
            );
        }
        let sv = crate::rl_utils::i64_div_trunc(dof_vel[j] * VELOCITY_OBS_SCALE_MILLI, 1000);
        obs.push(sv);
        proof {
            assert(prefix2 + scaled_vel.take(j + 1) =~= (prefix2 + scaled_vel.take(
                j as int,
            )).push(scaled_vel[j as int]));
        }
        j = j + 1;
    }
    proof {
        assert(scaled_vel.take(scaled_vel.len() as int) =~= scaled_vel);
    }
    extend_i64(&mut obs, &state.last_action);
    extend_i64(&mut obs, &state.last_last_action);
    extend_i64(&mut obs, &state.last_last_last_action);
    extend_i64(&mut obs, &state.motor_targets);
    obs.push(feet[0]);
    obs.push(feet[1]);
    obs.push(phase[0]);
    obs.push(phase[1]);
    proof {
        assert(obs@ =~= observation_spec(
            imu.gyro@,
            imu.accel@,
            commands@,
            dof_pos@,
            init_pos@,
            dof_vel@,
            state.last_action@,
            state.last_last_action@,
            state.last_last_last_action@,
            state.motor_targets@,
            feet@,
            phase@,
        ));
    }
    obs
}

} // verus!
