//! Bus-servo controller: joint tables, calibration, and the exact frames
//! of every transaction.
//!
//! The controller owns the joint list and per-joint calibration and
//! computes the bytes of each protocol transaction; moving bytes over
//! the serial transport is the caller's concern.  Angles are
//! microradians.

use vstd::prelude::*;

verus! {

use crate::protocol::frame_spec;
use crate::protocol::i16_from_le;
use crate::protocol::parse_sync_read_response;
use crate::protocol::sync_read_core;
use crate::protocol::sync_read_frame;
use crate::protocol::sync_read_value;
use crate::protocol::sync_write_core;
use crate::protocol::sync_write_frame;
use crate::protocol::write_register_core;
use crate::protocol::write_register_frame;
use crate::units::rad_to_raw;
use crate::units::rad_to_raw_spec;
use crate::units::raw_to_rad;
use crate::units::raw_to_rad_spec;
use crate::units::raw_to_rad_per_sec;
use crate::units::raw_to_vel_spec;

/// Register: torque on/off.
pub const ADDR_TORQUE_ENABLE: u8 = 40;
/// Register: goal position (2 bytes).
pub const ADDR_GOAL_POSITION: u8 = 42;
/// Register: present position (2 bytes).
pub const ADDR_PRESENT_POSITION: u8 = 56;
/// Register: present speed (2 bytes).
pub const ADDR_PRESENT_SPEED: u8 = 58;
/// Register: proportional gain.
pub const ADDR_P_GAIN: u8 = 21;
/// Register: derivative gain.
pub const ADDR_D_GAIN: u8 = 22;

/// Number of controlled degrees of freedom.
pub const NUM_DOFS: usize = 14;

/// Device addresses of the joints, in canonical joint order.
pub open spec fn joint_ids_spec() -> Seq<u8> {
    seq![20u8, 21u8, 22u8, 23u8, 24u8, 30u8, 31u8, 32u8, 33u8, 10u8, 11u8, 12u8, 13u8, 14u8]
}

/// Device addresses of the joints, in canonical joint order.
pub fn joint_ids_default() -> (r: Vec<u8>)
    ensures
        r@ == joint_ids_spec(),
{
    let mut v: Vec<u8> = Vec::new();
    v.push(20);
    v.push(21);
    v.push(22);
    v.push(23);
    v.push(24);
    v.push(30);
    v.push(31);
    v.push(32);
    v.push(33);
    v.push(10);
    v.push(11);
    v.push(12);
    v.push(13);
    v.push(14);
    proof {
        assert(v@ =~= joint_ids_spec());
    }
    v
}

/// Joint names in canonical order: the index of a name here is the
/// index used by every per-joint array in the loop.
pub fn joint_names_default() -> (r: Vec<String>)
    ensures
        r@.len() == NUM_DOFS,
        r@[0]@ == "left_hip_yaw"@,
        r@[1]@ == "left_hip_roll"@,
        r@[2]@ == "left_hip_pitch"@,
        r@[3]@ == "left_knee"@,
        r@[4]@ == "left_ankle"@,
        r@[5]@ == "neck_pitch"@,
        r@[6]@ == "head_pitch"@,
        r@[7]@ == "head_yaw"@,
        r@[8]@ == "head_roll"@,
        r@[9]@ == "right_hip_yaw"@,
        r@[10]@ == "right_hip_roll"@,
        r@[11]@ == "right_hip_pitch"@,
        r@[12]@ == "right_knee"@,
        r@[13]@ == "right_ankle"@,
{
    let mut v: Vec<String> = Vec::new();
    v.push("left_hip_yaw".to_owned());
    v.push("left_hip_roll".to_owned());
    v.push("left_hip_pitch".to_owned());
    v.push("left_knee".to_owned());
    v.push("left_ankle".to_owned());
    v.push("neck_pitch".to_owned());
    v.push("head_pitch".to_owned());
    v.push("head_yaw".to_owned());
    v.push("head_roll".to_owned());
    v.push("right_hip_yaw".to_owned());
    v.push("right_hip_roll".to_owned());
    v.push("right_hip_pitch".to_owned());
    v.push("right_knee".to_owned());
    v.push("right_ankle".to_owned());
    v
}

/// The default standing pose, microradians, in canonical joint order.
pub open spec fn init_positions_spec() -> Seq<i64> {
    seq![
        2000i64,
        53000i64,
        -630000i64,
        1368000i64,
        -784000i64,
        0i64,
        0i64,
        0i64,
        0i64,
        -3000i64,
        -65000i64,
        635000i64,
        1379000i64,
        -796000i64,
    ]
}

/// Default initial standing pose (microradians), in canonical joint
/// order.
pub fn default_init_positions() -> (r: Vec<i64>)
    ensures
        r@ == init_positions_spec(),
{
    let mut v: Vec<i64> = Vec::new();
    v.push(2000);
    v.push(53000);
    v.push(-630000);
    v.push(1368000);
    v.push(-784000);
    v.push(0);
    v.push(0);
    v.push(0);
    v.push(0);
    v.push(-3000);
    v.push(-65000);
    v.push(635000);
    v.push(1379000);
    v.push(-796000);
    proof {
        assert(v@ =~= init_positions_spec());
    }
    v
}

/// The register-write frames that set one register of every joint to a
/// one-byte value, one frame per joint in order.
pub open spec fn register_frames_spec(ids: Seq<u8>, addr: u8, vals: Seq<u8>) -> Seq<Seq<u8>> {
    Seq::new(ids.len(), |i: int| frame_spec(write_register_core(ids[i], addr, seq![vals[i]])))
}

/// The raw goal positions for a full ordered target array: calibration
/// offset added, then converted to the device unit.
pub open spec fn target_raws_spec(positions: Seq<i64>, offsets: Seq<i64>) -> Seq<i16> {
    Seq::new(positions.len(), |i: int| rad_to_raw_spec(positions[i] + offsets[i]) as i16)
}

/// Hardware interface for the bus servos: joint tables, calibration,
/// and the frames of every transaction.
pub struct MotorController {
    /// Device address per joint.
    pub joint_ids: Vec<u8>,
    /// Joint names, canonical order.
    pub joint_names: Vec<String>,
    /// Calibration offset per joint, microradians.
    pub offsets: Vec<i64>,
    /// Nominal standing position per joint, microradians.
    pub init_pos: Vec<i64>,
    /// Proportional gain per joint (device register value).
    pub kps: Vec<u8>,
    /// Derivative gain per joint (device register value).
    pub kds: Vec<u8>,
}

impl MotorController {
    /// The controller's invariant: one entry of every table per joint,
    /// few enough joints for one group frame, and bounded calibration.
    pub open spec fn well_formed(&self) -> bool {
        &&& 1 <= self.joint_ids@.len() <= 83
        &&& self.joint_names@.len() == self.joint_ids@.len()
        &&& self.offsets@.len() == self.joint_ids@.len()
        &&& self.init_pos@.len() == self.joint_ids@.len()
        &&& self.kps@.len() == self.joint_ids@.len()
        &&& self.kds@.len() == self.joint_ids@.len()
        &&& forall|i: int|
            0 <= i < self.offsets@.len() ==> -100_000_000 <= #[trigger] self.offsets@[i]
                <= 100_000_000
        &&& forall|i: int|
            0 <= i < self.init_pos@.len() ==> -100_000_000 <= #[trigger] self.init_pos@[i]
                <= 100_000_000
    }

    /// Number of joints.
    pub open spec fn dofs(&self) -> int {
        self.joint_ids@.len() as int
    }

    /// Build the controller for the default joint set with the given
    /// per-joint calibration offsets (microradians, canonical order).
    pub fn new(offsets: Vec<i64>) -> (r: Self)
        requires
            offsets@.len() == NUM_DOFS,
            forall|i: int|
                0 <= i < offsets@.len() ==> -100_000_000 <= #[trigger] offsets@[i]
                    <= 100_000_000,
        ensures
            r.well_formed(),
            r.joint_ids@ == joint_ids_spec(),
            r.offsets@ == offsets@,
            r.init_pos@ == init_positions_spec(),
            r.joint_names@.len() == NUM_DOFS,
            forall|i: int| 0 <= i < r.kps@.len() ==> #[trigger] r.kps@[i] == 32u8,
            forall|i: int| 0 <= i < r.kds@.len() ==> #[trigger] r.kds@[i] == 0u8,
    {
        let joint_ids = joint_ids_default();
        let joint_names = joint_names_default();
        let init_pos = default_init_positions();
        let mut kps: Vec<u8> = Vec::new();
        let mut kds: Vec<u8> = Vec::new();
        let mut i: usize = 0;
        while i < NUM_DOFS
            invariant
                0 <= i <= NUM_DOFS,
                kps@.len() == i,
                kds@.len() == i,
                forall|k: int| 0 <= k < i ==> #[trigger] kps@[k] == 32u8,
                forall|k: int| 0 <= k < i ==> #[trigger] kds@[k] == 0u8,
            decreases NUM_DOFS - i,
        {
            kps.push(32);
            kds.push(0);
            i = i + 1;
        }
        MotorController { joint_ids, joint_names, offsets, init_pos, kps, kds }
    }

    /// The initial standing positions as an ordered array
    /// (microradians).
    pub fn init_positions_array(&self) -> (r: Vec<i64>)
        ensures
            r@ == self.init_pos@,
    {
        let mut v: Vec<i64> = Vec::new();
        let mut i: usize = 0;
        while i < self.init_pos.len()
            invariant
                0 <= i <= self.init_pos@.len(),
                v@ == self.init_pos@.take(i as int),
            decreases self.init_pos@.len() - i,
        {
            v.push(self.init_pos[i]);
            proof {
                assert(self.init_pos@.take(i + 1) =~= self.init_pos@.take(i as int).push(
                    self.init_pos@[i as int],
                ));
            }
            i = i + 1;
        }
        proof {
            assert(self.init_pos@.take(self.init_pos@.len() as int) =~= self.init_pos@);
        }
        v
    }

    /// Joint names in canonical order.
    pub fn joint_names(&self) -> (r: &Vec<String>)
        ensures
            r@ == self.joint_names@,
    {
        &self.joint_names
    }

    /// One register-write frame per joint setting a one-byte register.
    fn per_joint_register_frames(&self, addr: u8, vals: &Vec<u8>) -> (r: Vec<Vec<u8>>)
        requires
            self.well_formed(),
            vals@.len() == self.joint_ids@.len(),
        ensures
            r@.len() == self.joint_ids@.len(),
            forall|i: int|
                0 <= i < r@.len() ==> (#[trigger] r@[i])@ == register_frames_spec(
                    self.joint_ids@,
                    addr,
                    vals@,
                )[i],
    {
        let mut out: Vec<Vec<u8>> = Vec::new();
        let mut i: usize = 0;
        while i < self.joint_ids.len()
            invariant
                self.well_formed(),
                vals@.len() == self.joint_ids@.len(),
                0 <= i <= self.joint_ids@.len(),
                out@.len() == i,
                forall|k: int|
                    0 <= k < i ==> (#[trigger] out@[k])@ == register_frames_spec(
                        self.joint_ids@,
                        addr,
                        vals@,
                    )[k],
            decreases self.joint_ids@.len() - i,
        {
            let mut data: Vec<u8> = Vec::new();
            data.push(vals[i]);
            proof {
                assert(data@ =~= seq![vals@[i as int]]);
            }
            let frame = write_register_frame(self.joint_ids[i], addr, data.as_slice());
            out.push(frame);
            i = i + 1;
        }
        out
    }

    /// Set the proportional gains and return the frames that carry them
    /// to the devices, one per joint.
    pub fn set_kps(&mut self, kps: &Vec<u8>) -> (r: Vec<Vec<u8>>)
        requires
            old(self).well_formed(),
            kps@.len() == old(self).joint_ids@.len(),
        ensures
            final(self).well_formed(),
            final(self).kps@ == kps@,
            final(self).joint_ids@ == old(self).joint_ids@,
            final(self).joint_names@ == old(self).joint_names@,
            final(self).offsets@ == old(self).offsets@,
            final(self).init_pos@ == old(self).init_pos@,
            final(self).kds@ == old(self).kds@,
            r@.len() == old(self).joint_ids@.len(),
            forall|i: int|
                0 <= i < r@.len() ==> (#[trigger] r@[i])@ == register_frames_spec(
                    old(self).joint_ids@,
                    ADDR_P_GAIN,
                    kps@,
                )[i],
    {
        let frames = self.per_joint_register_frames(ADDR_P_GAIN, kps);
        self.kps = vstd::slice::slice_to_vec(kps.as_slice());
        frames
    }

    /// Set the derivative gains and return the frames that carry them
    /// to the devices, one per joint.
    pub fn set_kds(&mut self, kds: &Vec<u8>) -> (r: Vec<Vec<u8>>)
        requires
            old(self).well_formed(),
            kds@.len() == old(self).joint_ids@.len(),
        ensures
            final(self).well_formed(),
            final(self).kds@ == kds@,
            final(self).joint_ids@ == old(self).joint_ids@,
            final(self).joint_names@ == old(self).joint_names@,
            final(self).offsets@ == old(self).offsets@,
            final(self).init_pos@ == old(self).init_pos@,
            final(self).kps@ == old(self).kps@,
            r@.len() == old(self).joint_ids@.len(),
            forall|i: int|
                0 <= i < r@.len() ==> (#[trigger] r@[i])@ == register_frames_spec(
                    old(self).joint_ids@,
                    ADDR_D_GAIN,
                    kds@,
                )[i],
    {
        let frames = self.per_joint_register_frames(ADDR_D_GAIN, kds);
        self.kds = vstd::slice::slice_to_vec(kds.as_slice());
        frames
    }

    /// The frames that enable torque on every joint, one per joint.
    pub fn torque_enable_frames(&self) -> (r: Vec<Vec<u8>>)
        requires
            self.well_formed(),
        ensures
            r@.len() == self.joint_ids@.len(),
            forall|i: int|
                0 <= i < r@.len() ==> (#[trigger] r@[i])@ == frame_spec(
                    write_register_core(self.joint_ids@[i], ADDR_TORQUE_ENABLE, seq![1u8]),
                ),
    {
        let ones = self.uniform_vals(1);
        let frames = self.per_joint_register_frames(ADDR_TORQUE_ENABLE, &ones);
        frames
    }

    /// Disable torque on every joint: the returned frames command zero
    /// torque, one frame per joint.  The controller state is untouched,
    /// so repeating the call yields the same frames again.
    pub fn turn_off(&self) -> (r: Vec<Vec<u8>>)
        requires
            self.well_formed(),
        ensures
            r@.len() == self.joint_ids@.len(),
            forall|i: int|
                0 <= i < r@.len() ==> (#[trigger] r@[i])@ == frame_spec(
                    write_register_core(self.joint_ids@[i], ADDR_TORQUE_ENABLE, seq![0u8]),
                ),
    {
        let zeros = self.uniform_vals(0);
        let frames = self.per_joint_register_frames(ADDR_TORQUE_ENABLE, &zeros);
        frames
    }

    /// A vector with one copy of `val` per joint.
    fn uniform_vals(&self, val: u8) -> (r: Vec<u8>)
        requires
            self.well_formed(),
        ensures
            r@.len() == self.joint_ids@.len(),
            forall|i: int| 0 <= i < r@.len() ==> #[trigger] r@[i] == val,
    {
        let mut v: Vec<u8> = Vec::new();
        let mut i: usize = 0;
        while i < self.joint_ids.len()
            invariant
                0 <= i <= self.joint_ids@.len(),
                v@.len() == i,
                forall|k: int| 0 <= k < i ==> #[trigger] v@[k] == val,
            decreases self.joint_ids@.len() - i,
        {
            v.push(val);
            i = i + 1;
        }
        v
    }

    /// The single group-write frame that commands goal positions for
    /// all joints from an ordered array (microradians).  Calibration
    /// offsets are added before unit conversion.
    pub fn set_position_all_array(&self, positions: &[i64]) -> (r: Vec<u8>)
        requires
            self.well_formed(),
            positions@.len() == self.joint_ids@.len(),
            forall|i: int|
                0 <= i < positions@.len() ==> -100_000_000 <= #[trigger] positions@[i]
                    <= 100_000_000,
        ensures
            r@ == frame_spec(
                sync_write_core(
                    ADDR_GOAL_POSITION,
                    self.joint_ids@,
                    target_raws_spec(positions@, self.offsets@),
                ),
            ),
    {
        let mut raws: Vec<i16> = Vec::new();
        let mut i: usize = 0;
        while i < positions.len()
            invariant
                self.well_formed(),
                positions@.len() == self.joint_ids@.len(),
                forall|k: int|
                    0 <= k < positions@.len() ==> -100_000_000 <= #[trigger] positions@[k]
                        <= 100_000_000,
                0 <= i <= positions@.len(),
                raws@ == target_raws_spec(positions@, self.offsets@).take(i as int),
            decreases positions@.len() - i,
        {
            let raw = rad_to_raw(positions[i] + self.offsets[i]);
            raws.push(raw);
            proof {
                assert(target_raws_spec(positions@, self.offsets@).take(i + 1)
                    =~= target_raws_spec(positions@, self.offsets@).take(i as int).push(
                    target_raws_spec(positions@, self.offsets@)[i as int],
                ));
            }
            i = i + 1;
        }
        proof {
            assert(target_raws_spec(positions@, self.offsets@).take(positions@.len() as int)
                =~= target_raws_spec(positions@, self.offsets@));
        }
        sync_write_frame(ADDR_GOAL_POSITION, self.joint_ids.as_slice(), raws.as_slice())
    }

    /// The group-read frame asking every joint for its present
    /// position.
    pub fn position_read_frame(&self) -> (r: Vec<u8>)
        requires
            self.well_formed(),
        ensures
            r@ == frame_spec(sync_read_core(ADDR_PRESENT_POSITION, 2, self.joint_ids@)),
    {
        sync_read_frame(ADDR_PRESENT_POSITION, 2, self.joint_ids.as_slice())
    }

    /// The group-read frame asking every joint for its present speed.
    pub fn velocity_read_frame(&self) -> (r: Vec<u8>)
        requires
            self.well_formed(),
        ensures
            r@ == frame_spec(sync_read_core(ADDR_PRESENT_SPEED, 2, self.joint_ids@)),
    {
        sync_read_frame(ADDR_PRESENT_SPEED, 2, self.joint_ids.as_slice())
    }

    /// Present positions parsed from a group-read response
    /// (microradians, calibration offsets subtracted).  An empty
    /// response means the devices did not answer and yields `None`; a
    /// response short of some device yields zero readings for the
    /// devices past the truncation, never a failure.
    pub fn get_present_positions(&self, buf: &[u8], bytes_read: usize) -> (r: Option<Vec<i64>>)
        requires
            self.well_formed(),
            bytes_read <= buf@.len(),
        ensures
            r is None <==> bytes_read == 0,
            r is Some ==> {
                let v = r->Some_0;
                &&& v@.len() == self.joint_ids@.len()
                &&& forall|i: int|
                    0 <= i < v@.len() ==> v@[i] == raw_to_rad_spec(
                        sync_read_value(buf@, bytes_read as int, i) as int,
                    ) - self.offsets@[i]
            },
    {
        if bytes_read == 0 {
            return None;
        }
        let n = self.joint_ids.len();
        let raws = parse_sync_read_response(buf, bytes_read, n);
        let mut out: Vec<i64> = Vec::new();
        let mut i: usize = 0;
        while i < n
            invariant
                self.well_formed(),
                bytes_read <= buf@.len(),
                n == self.joint_ids@.len(),
                raws@.len() == n,
                forall|k: int|
                    0 <= k < n ==> raws@[k] == sync_read_value(buf@, bytes_read as int, k),
                0 <= i <= n,
                out@.len() == i,
                forall|k: int|
                    0 <= k < i ==> out@[k] == raw_to_rad_spec(
                        sync_read_value(buf@, bytes_read as int, k) as int,
                    ) - self.offsets@[k],
            decreases n - i,
        {
            let urad = raw_to_rad(raws[i]);
            out.push(urad - self.offsets[i]);
            i = i + 1;
        }
        Some(out)
    }

    /// Present velocities parsed from a group-read response
    /// (microradians per second).  `None` exactly when the response is
    /// empty; devices past a truncation read zero.
    pub fn get_present_velocities(&self, buf: &[u8], bytes_read: usize) -> (r: Option<Vec<i64>>)
        requires
            self.well_formed(),
            bytes_read <= buf@.len(),
        ensures
            r is None <==> bytes_read == 0,
            r is Some ==> {
                let v = r->Some_0;
                &&& v@.len() == self.joint_ids@.len()
                &&& forall|i: int|
                    0 <= i < v@.len() ==> v@[i] == raw_to_vel_spec(
                        sync_read_value(buf@, bytes_read as int, i) as int,
                    )
            },
    {
        if bytes_read == 0 {
            return None;
        }
        let n = self.joint_ids.len();
        let raws = parse_sync_read_response(buf, bytes_read, n);
        let mut out: Vec<i64> = Vec::new();
        let mut i: usize = 0;
        while i < n
            invariant
                self.well_formed(),
                bytes_read <= buf@.len(),
                n == self.joint_ids@.len(),
                raws@.len() == n,
                forall|k: int|
                    0 <= k < n ==> raws@[k] == sync_read_value(buf@, bytes_read as int, k),
                0 <= i <= n,
                out@.len() == i,
                forall|k: int|
                    0 <= k < i ==> out@[k] == raw_to_vel_spec(
                        sync_read_value(buf@, bytes_read as int, k) as int,
                    ),
            decreases n - i,
        {
            let urad_s = raw_to_rad_per_sec(raws[i]);
            out.push(urad_s);
            i = i + 1;
        }
        Some(out)
    }
}

/// The value paired with the first occurrence of `name`, if any.
pub open spec fn find_pos_spec(pairs: Seq<(String, i64)>, name: Seq<char>) -> Option<i64>
    decreases pairs.len(),
{
    if pairs.len() == 0 {
        None
    } else if pairs[0].0@ == name {
        Some(pairs[0].1)
    } else {
        find_pos_spec(pairs.drop_first(), name)
    }
}

pub proof fn lemma_find_pos_bounded(pairs: Seq<(String, i64)>, name: Seq<char>, bound: int)
    requires
        forall|j: int| 0 <= j < pairs.len() ==> -bound <= (#[trigger] pairs[j]).1 <= bound,
        find_pos_spec(pairs, name) is Some,
    ensures
        -bound <= find_pos_spec(pairs, name)->Some_0 <= bound,
    decreases pairs.len(),
{
    if pairs.len() > 0 && !(pairs[0].0@ == name) {
        lemma_find_pos_bounded(pairs.drop_first(), name, bound);
    }
}

/// Look a joint's commanded position up by name; the first matching
/// pair wins.
pub fn find_position(pairs: &Vec<(String, i64)>, name: &String) -> (r: Option<i64>)
    ensures
        r == find_pos_spec(pairs@, name@),
{
    let mut j: usize = 0;
    proof {
        assert(pairs@.skip(0) =~= pairs@);
    }
    while j < pairs.len()
        invariant
            0 <= j <= pairs@.len(),
            find_pos_spec(pairs@, name@) == find_pos_spec(pairs@.skip(j as int), name@),
        decreases pairs@.len() - j,
    {
        if pairs[j].0 == *name {
            proof {
                assert(pairs@.skip(j as int)[0] == pairs@[j as int]);
            }
            return Some(pairs[j].1);
        }
        proof {
            assert(pairs@.skip(j as int).drop_first() =~= pairs@.skip(j + 1));
            assert(pairs@.skip(j as int)[0] == pairs@[j as int]);
        }
        j = j + 1;
    }
    proof {
        assert(pairs@.skip(pairs@.len() as int) =~= Seq::<(String, i64)>::empty());
    }
    None
}

/// Device addresses of the first `k` joints whose name is commanded.
pub open spec fn selected_ids_upto(
    ids: Seq<u8>,
    names: Seq<String>,
    pairs: Seq<(String, i64)>,
    k: int,
) -> Seq<u8>
    decreases k,
{
    if k <= 0 {
        Seq::empty()
    } else {
        selected_ids_upto(ids, names, pairs, k - 1) + (if find_pos_spec(
            pairs,
            names[k - 1]@,
        ) is Some {
            seq![ids[k - 1]]
        } else {
            Seq::empty()
        })
    }
}

/// Raw goal positions of the first `k` joints whose name is commanded,
/// calibration offsets added.
pub open spec fn selected_raws_upto(
    offsets: Seq<i64>,
    names: Seq<String>,
    pairs: Seq<(String, i64)>,
    k: int,
) -> Seq<i16>
    decreases k,
{
    if k <= 0 {
        Seq::empty()
    } else {
        selected_raws_upto(offsets, names, pairs, k - 1) + (match find_pos_spec(
            pairs,
            names[k - 1]@,
        ) {
            Some(p) => seq![rad_to_raw_spec(p + offsets[k - 1]) as i16],
            None => Seq::empty(),
        })
    }
}

impl MotorController {
    /// The single group-write frame commanding goal positions for the
    /// joints named in `positions` (microradians), in canonical joint
    /// order; joints not named are left out of the frame.
    pub fn set_position_all(&self, positions: &Vec<(String, i64)>) -> (r: Vec<u8>)
        requires
            self.well_formed(),
            forall|j: int|
                0 <= j < positions@.len() ==> -100_000_000 <= (#[trigger] positions@[j]).1
                    <= 100_000_000,
        ensures
            r@ == frame_spec(
                sync_write_core(
                    ADDR_GOAL_POSITION,
                    selected_ids_upto(
                        self.joint_ids@,
                        self.joint_names@,
                        positions@,
                        self.dofs(),
                    ),
                    selected_raws_upto(
                        self.offsets@,
                        self.joint_names@,
                        positions@,
                        self.dofs(),
                    ),
                ),
            ),
    {
        let n = self.joint_ids.len();
        let mut ids: Vec<u8> = Vec::new();
        let mut raws: Vec<i16> = Vec::new();
        let mut i: usize = 0;
        while i < n
            invariant
                self.well_formed(),
                n == self.joint_ids@.len(),
                forall|j: int|
                    0 <= j < positions@.len() ==> -100_000_000 <= (#[trigger] positions@[j]).1
                        <= 100_000_000,
                0 <= i <= n,
                ids@ == selected_ids_upto(
                    self.joint_ids@,
                    self.joint_names@,
                    positions@,
                    i as int,
                ),
                raws@ == selected_raws_upto(
                    self.offsets@,
                    self.joint_names@,
                    positions@,
                    i as int,
                ),
                ids@.len() == raws@.len() <= i,
            decreases n - i,
        {
            match find_position(positions, &self.joint_names[i]) {
                Some(p) => {
                    proof {
                        lemma_find_pos_bounded(positions@, self.joint_names@[i as int]@,
                            100_000_000);
                    }
                    ids.push(self.joint_ids[i]);
                    let raw = rad_to_raw(p + self.offsets[i]);
                    raws.push(raw);
                },
                None => {},
            }
            proof {
                assert(ids@ =~= selected_ids_upto(
                    self.joint_ids@,
                    self.joint_names@,
                    positions@,
                    i + 1,
                ));
                assert(raws@ =~= selected_raws_upto(
                    self.offsets@,
                    self.joint_names@,
                    positions@,
                    i + 1,
                ));
            }
            i = i + 1;
        }
        sync_write_frame(ADDR_GOAL_POSITION, ids.as_slice(), raws.as_slice())
    }
}

/// The startup sequence of frames: torque on, gentle gains, move to the
/// standing pose, then the configured gains.  The caller sends each
/// batch in order and holds between the steps; the sequencing avoids a
/// hard jump to the standing pose at full stiffness.
pub struct StartupSequence {
    /// First: enable torque on every joint.
    pub torque_on: Vec<Vec<u8>>,
    /// Second: low proportional gains for a gentle start; hold after.
    pub low_gain: Vec<Vec<u8>>,
    /// Third: command the standing pose in one group write; hold after.
    pub move_to_init: Vec<u8>,
    /// Last: restore the configured proportional gains.
    pub restore_gain: Vec<Vec<u8>>,
}

impl MotorController {
    /// Compute the startup sequence.  The controller's own gain table
    /// is left exactly as configured: the low gains live only in the
    /// frames of the second step.
    pub fn turn_on(&mut self) -> (r: StartupSequence)
        requires
            old(self).well_formed(),
        ensures
            *final(self) == *old(self),
            final(self).well_formed(),
            r.torque_on@.len() == old(self).joint_ids@.len(),
            forall|i: int|
                0 <= i < r.torque_on@.len() ==> (#[trigger] r.torque_on@[i])@ == frame_spec(
                    write_register_core(old(self).joint_ids@[i], ADDR_TORQUE_ENABLE, seq![1u8]),
                ),
            r.low_gain@.len() == old(self).joint_ids@.len(),
            forall|i: int|
                0 <= i < r.low_gain@.len() ==> (#[trigger] r.low_gain@[i])@ == frame_spec(
                    write_register_core(old(self).joint_ids@[i], ADDR_P_GAIN, seq![2u8]),
                ),
            r.move_to_init@ == frame_spec(
                sync_write_core(
                    ADDR_GOAL_POSITION,
                    old(self).joint_ids@,
                    target_raws_spec(old(self).init_pos@, old(self).offsets@),
                ),
            ),
            r.restore_gain@.len() == old(self).joint_ids@.len(),
            forall|i: int|
                0 <= i < r.restore_gain@.len() ==> (#[trigger] r.restore_gain@[i])@
                    == frame_spec(
                    write_register_core(
                        old(self).joint_ids@[i],
                        ADDR_P_GAIN,
                        seq![old(self).kps@[i]],
                    ),
                ),
    {
        let torque_on = self.torque_enable_frames();
        let low = self.uniform_vals(2);
        let low_gain = self.per_joint_register_frames(ADDR_P_GAIN, &low);
        let init = self.init_positions_array();
        let move_to_init = self.set_position_all_array(init.as_slice());
        let restore_gain = self.per_joint_register_frames(ADDR_P_GAIN, &self.kps);
        StartupSequence { torque_on, low_gain, move_to_init, restore_gain }
    }
}

/// Idempotent disable: the zero-torque command depends on the joint
/// list alone, so disabling twice sends byte-identical frames, each of
/// which commands zero torque for its device.
pub proof fn lemma_disable_idempotent(m: &MotorController, first: Seq<Seq<u8>>, second: Seq<
    Seq<u8>,
>)
    requires
        m.well_formed(),
        first.len() == m.joint_ids@.len(),
        second.len() == m.joint_ids@.len(),
        forall|i: int|
            0 <= i < first.len() ==> #[trigger] first[i] == frame_spec(
                write_register_core(m.joint_ids@[i], ADDR_TORQUE_ENABLE, seq![0u8]),
            ),
        forall|i: int|
            0 <= i < second.len() ==> #[trigger] second[i] == frame_spec(
                write_register_core(m.joint_ids@[i], ADDR_TORQUE_ENABLE, seq![0u8]),
            ),
    ensures
        first == second,
        forall|i: int|
            0 <= i < first.len() ==> (#[trigger] first[i])[5] == ADDR_TORQUE_ENABLE && first[i][6]
                == 0u8,
{
    assert(first =~= second);
    assert forall|i: int| 0 <= i < first.len() implies (#[trigger] first[i])[5]
        == ADDR_TORQUE_ENABLE && first[i][6] == 0u8 by {
        let core = write_register_core(m.joint_ids@[i], ADDR_TORQUE_ENABLE, seq![0u8]);
        assert(frame_spec(core)[5] == core[3]);
        assert(frame_spec(core)[6] == core[4]);
        assert(core[3] == ADDR_TORQUE_ENABLE);
        assert(core[4] == 0u8);
    }
}

} // verus!
