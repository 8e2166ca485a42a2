//! Inertial sensor: raw-count conversion and the consumer handle fed by
//! the sampling thread.
//!
//! Angular rates are microradians per second and accelerations
//! micro-units of metres per second squared.  The device hands back
//! signed 16-bit counts; a fixed count of raw units makes one physical
//! unit on each channel.

use vstd::prelude::*;

verus! {

use crate::rl_utils::div_trunc;
use crate::sensor_channel::LatestReceiver;
use crate::sensor_channel::send_stop;

/// Raw gyroscope counts per radian per second.
pub const GYRO_RAW_PER_UNIT: i64 = 900;

/// Raw accelerometer counts per metre per second squared.
pub const ACCEL_RAW_PER_UNIT: i64 = 100;

/// One inertial sample: gyroscope and accelerometer readings.
#[derive(Clone, Copy)]
pub struct ImuData {
    /// Angular rates `[x, y, z]`, microradians per second.
    pub gyro: [i64; 3],
    /// Accelerations `[x, y, z]`, micro-units of metres per second
    /// squared.
    pub accel: [i64; 3],
}

/// The reading handed out before the first sample arrives: all zero.
pub open spec fn initial_imu_data(d: ImuData) -> bool {
    forall|i: int| 0 <= i < 3 ==> d.gyro@[i] == 0i64 && d.accel@[i] == 0i64
}

impl ImuData {
    /// The all-zero startup reading.
    pub fn zero() -> (r: Self)
        ensures
            initial_imu_data(r),
    {
        ImuData { gyro: [0, 0, 0], accel: [0, 0, 0] }
    }
}

impl Default for ImuData {
    /// Same as [`ImuData::zero`].
    fn default() -> (r: Self)
        ensures
            initial_imu_data(r),
    {
        ImuData::zero()
    }
}

/// Physical gyroscope value of one raw count triple component.
pub open spec fn gyro_value_spec(raw: int) -> int {
    div_trunc(raw * 1_000_000, GYRO_RAW_PER_UNIT as int)
}

/// Physical accelerometer value of one raw count triple component.
pub open spec fn accel_value_spec(raw: int) -> int {
    div_trunc(raw * 1_000_000, ACCEL_RAW_PER_UNIT as int)
}

/// Convert one raw sample, three gyroscope and three accelerometer
/// counts, into physical fixed-point units.
pub fn imu_sample_from_raw(gyro_raw: [i16; 3], accel_raw: [i16; 3]) -> (r: ImuData)
    ensures
        forall|i: int| 0 <= i < 3 ==> r.gyro@[i] == gyro_value_spec(gyro_raw@[i] as int),
        forall|i: int| 0 <= i < 3 ==> r.accel@[i] == accel_value_spec(accel_raw@[i] as int),
{
    let r = ImuData {
        gyro: [
            raw_component(gyro_raw[0], GYRO_RAW_PER_UNIT),
            raw_component(gyro_raw[1], GYRO_RAW_PER_UNIT),
            raw_component(gyro_raw[2], GYRO_RAW_PER_UNIT),
        ],
        accel: [
            raw_component(accel_raw[0], ACCEL_RAW_PER_UNIT),
            raw_component(accel_raw[1], ACCEL_RAW_PER_UNIT),
            raw_component(accel_raw[2], ACCEL_RAW_PER_UNIT),
        ],
    };
    r
}

/// Scale one raw count to micro-units of its channel.
fn raw_component(raw: i16, raw_per_unit: i64) -> (r: i64)
    requires
        raw_per_unit > 0,
    ensures
        r == div_trunc(raw * 1_000_000, raw_per_unit as int),
{
    crate::rl_utils::i64_div_trunc((raw as i64) * 1_000_000, raw_per_unit)
}

/// Common capability of inertial-sensor handles: a non-blocking read of
/// the freshest sample, and a stop signal for the sampling thread.  The
/// hardware-backed handle and the mock both provide it, so the loop is
/// selected once at startup over either.
pub trait ImuReader {
    /// The sample a read returns: the model each handle keeps.
    spec fn current_sample(&self) -> ImuData;

    /// The freshest sample; never blocks.
    fn get_data(&mut self) -> (r: ImuData)
        ensures
            r == final(self).current_sample(),
    ;

    /// Ask the sampling thread, if any, to stop.
    fn stop(&self);
}

/// Consumer handle for the inertial sensor: the sampling thread
/// publishes through a single-slot channel and the control loop polls
/// it without blocking.
pub struct Imu {
    /// Latest-value view of the sample slot.
    pub inner: LatestReceiver<ImuData>,
    /// One-shot stop signal to the sampling thread.
    pub stop_tx: crossbeam_channel::Sender<()>,
}

impl Imu {
    /// Wrap the consumer ends of the channels the sampling thread
    /// feeds.  Until the first sample arrives, reads return zero.
    pub fn new(
        receiver: crossbeam_channel::Receiver<ImuData>,
        stop_tx: crossbeam_channel::Sender<()>,
    ) -> (r: Self)
        ensures
            initial_imu_data(r.inner.last),
    {
        Imu { inner: LatestReceiver::new(receiver, ImuData::zero()), stop_tx }
    }

    /// The freshest sample without blocking: a newly published one if
    /// the thread has produced one, else the last seen.
    pub fn get_data(&mut self) -> (r: ImuData)
        ensures
            r == final(self).inner.last,
    {
        *self.inner.get_latest()
    }

    /// Signal the sampling thread to stop; safe to repeat.
    pub fn stop(&self) {
        let _ = send_stop(&self.stop_tx);
    }
}

impl ImuReader for Imu {
    /// The retained latest sample.
    open spec fn current_sample(&self) -> ImuData {
        self.inner.last
    }

    fn get_data(&mut self) -> ImuData {
        Imu::get_data(self)
    }

    fn stop(&self) {
        Imu::stop(self)
    }
}

/// Mock inertial sensor for runs without hardware: a fixed reading of
/// no rotation and one standard gravity on the vertical axis.
pub struct MockImu {
    /// The fixed reading.
    pub data: ImuData,
}

impl MockImu {
    /// The fixed mock reading: gravity only.
    pub fn new() -> (r: Self)
        ensures
            forall|i: int| 0 <= i < 3 ==> r.data.gyro@[i] == 0i64,
            r.data.accel@[0] == 0,
            r.data.accel@[1] == 0,
            r.data.accel@[2] == 9_810_000,
    {
        MockImu { data: ImuData { gyro: [0, 0, 0], accel: [0, 0, 9_810_000] } }
    }

    /// The fixed reading, unchanged on every call.
    pub fn fixed_reading(&self) -> (r: ImuData)
        ensures
            r == self.data,
    {
        self.data
    }
}

impl ImuReader for MockImu {
    /// The fixed reading.
    open spec fn current_sample(&self) -> ImuData {
        self.data
    }

    fn get_data(&mut self) -> ImuData {
        self.fixed_reading()
    }

    fn stop(&self) {
    }
}

} // verus!
