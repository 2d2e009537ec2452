//! The raw-sensor side of the quaternion extended Kalman filter: filling a
//! nine-axis measurement and reporting a filter that could not be built.
use vstd::prelude::*;
use crate::bus::BusOp;
use crate::uart::{print_ops, uart2_print};

verus! {

/// The raw nine-axis readings that the filter's measurement carries.
#[derive(Clone, Copy, Debug, Default, PartialEq, Eq, Structural)]
pub struct Imu9DofMeasure {
    pub raw_accel_x: i16,
    pub raw_accel_y: i16,
    pub raw_accel_z: i16,
    pub raw_gyro_x: i16,
    pub raw_gyro_y: i16,
    pub raw_gyro_z: i16,
    pub raw_mag_x: i16,
    pub raw_mag_y: i16,
    pub raw_mag_z: i16,
}

/// Store a fresh set of raw readings in `measure`.
pub fn read_data_into(
    measure: &mut Imu9DofMeasure,
    raw_accel_x: i16,
    raw_accel_y: i16,
    raw_accel_z: i16,
    raw_gyro_x: i16,
    raw_gyro_y: i16,
    raw_gyro_z: i16,
    raw_mag_x: i16,
    raw_mag_y: i16,
    raw_mag_z: i16,
)
    ensures
        *final(measure) == (Imu9DofMeasure {
            raw_accel_x,
            raw_accel_y,
            raw_accel_z,
            raw_gyro_x,
            raw_gyro_y,
            raw_gyro_z,
            raw_mag_x,
            raw_mag_y,
            raw_mag_z,
        }),
{
    measure.raw_accel_x = raw_accel_x;
    measure.raw_accel_y = raw_accel_y;
    measure.raw_accel_z = raw_accel_z;

    measure.raw_gyro_x = raw_gyro_x;
    measure.raw_gyro_y = raw_gyro_y;
    measure.raw_gyro_z = raw_gyro_z;

    measure.raw_mag_x = raw_mag_x;
    measure.raw_mag_y = raw_mag_y;
    measure.raw_mag_z = raw_mag_z;
}

/// Why the filter builder refused to build a filter.
#[derive(Clone, Copy, Debug, PartialEq, Eq, Structural)]
pub enum EkfBuilderError {
    MissingStateX,
    MissingControlU,
    MissingGyroNoise,
    MissingMeasurementNoise,
    MissingTiming,
}

pub open spec fn spec_build_error_message(e: EkfBuilderError) -> &'static str {
    match e {
        EkfBuilderError::MissingStateX => "missing state x\n",
        EkfBuilderError::MissingControlU => "missing control u\n",
        EkfBuilderError::MissingGyroNoise => "missing gyro noise\n",
        EkfBuilderError::MissingMeasurementNoise => "missing measurement noise\n",
        EkfBuilderError::MissingTiming => "missing timing\n",
    }
}

/// The line reported for a builder error.
#[verifier::when_used_as_spec(spec_build_error_message)]
pub fn build_error_message(e: EkfBuilderError) -> (m: &'static str)
    ensures
        m == spec_build_error_message(e),
{
    match e {
        EkfBuilderError::MissingStateX => "missing state x\n",
        EkfBuilderError::MissingControlU => "missing control u\n",
        EkfBuilderError::MissingGyroNoise => "missing gyro noise\n",
        EkfBuilderError::MissingMeasurementNoise => "missing measurement noise\n",
        EkfBuilderError::MissingTiming => "missing timing\n",
    }
}

/// Take the built filter, or, for a builder error, the operations that
/// report it on USART2 (after which the board halts).
#[allow(non_snake_case)]
pub fn unwrap_EKF_result<T>(ekf_build: Result<T, EkfBuilderError>) -> (r: Result<T, Vec<BusOp>>)
    ensures
        match ekf_build {
            Ok(f) => r == Ok::<T, Vec<BusOp>>(f),
            Err(e) => r matches Err(ops) && ops@ == print_ops(build_error_message(e)),
        },
{
    match ekf_build {
        Ok(ekf_filter) => Ok(ekf_filter),
        Err(build_error) => Err(uart2_print(build_error_message(build_error))),
    }
}

/// Why the measurement builder refused to build a measurement model.
#[derive(Clone, Copy, Debug, PartialEq, Eq, Structural)]
pub enum ImuBuildError {
    MissingSoftIron,
    MissingHardIron,
    MissingAccelScale,
    MissingAccelOffset,
    MissingGyroOffset,
}

pub open spec fn spec_imu_build_error_message(e: ImuBuildError) -> &'static str {
    match e {
        ImuBuildError::MissingSoftIron => "missing soft iron!\n",
        ImuBuildError::MissingHardIron => "missing hard_iron!\n",
        ImuBuildError::MissingAccelScale => "missing accel scale!\n",
        ImuBuildError::MissingAccelOffset => "missing accel offset!\n",
        ImuBuildError::MissingGyroOffset => "missing gyro offset!\n",
    }
}

/// The line reported for a measurement builder error.
#[verifier::when_used_as_spec(spec_imu_build_error_message)]
pub fn imu_build_error_message(e: ImuBuildError) -> (m: &'static str)
    ensures
        m == spec_imu_build_error_message(e),
{
    match e {
        ImuBuildError::MissingSoftIron => "missing soft iron!\n",
        ImuBuildError::MissingHardIron => "missing hard_iron!\n",
        ImuBuildError::MissingAccelScale => "missing accel scale!\n",
        ImuBuildError::MissingAccelOffset => "missing accel offset!\n",
        ImuBuildError::MissingGyroOffset => "missing gyro offset!\n",
    }
}

} // verus!
