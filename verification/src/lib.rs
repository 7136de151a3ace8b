//! Verified core of a Universal Robots daemon: the names of robot, safety and runtime
//! modes, monitoring output decisions, the sliding window of the roll/pitch/yaw
//! analysis, and the controller's initialization, preparation, emergency-abort and
//! shutdown decisions. Sockets, clocks, floating-point data and JSON stay with the
//! caller, which hands the decisions plain values.

use vstd::prelude::*;

pub mod controller;
pub mod decimal;
pub mod monitoring;
pub mod rpy_analysis;
pub mod text;

pub use controller::{RobotController, RobotState as ControllerRobotState};
pub use monitoring::{MonitorOutput, get_robot_mode_name, get_safety_mode_name, get_runtime_state_name};
pub use rpy_analysis::{RPYAnalysisConfig, RPYAnalyzer};

verus! {

/// The RTDE (Real-Time Data Exchange) port of UR robots.
pub const RTDE_PORT: u16 = 30004;

/// Where an RTDE client connects.
#[derive(Debug, Clone, PartialEq)]
pub struct RtdeEndpoint {
    pub host: String,
    pub port: u16,
}

fn rtde_endpoint(robot_ip: &str) -> (e: RtdeEndpoint)
    ensures
        e.host@ == robot_ip@,
        e.port == RTDE_PORT,
{
    RtdeEndpoint { host: String::from_str(robot_ip), port: RTDE_PORT }
}

/// High-level robot control interface: an RTDE client connected to the robot.
pub struct ControlInterface<C> {
    endpoint: RtdeEndpoint,
    client: C,
}

impl<C> ControlInterface<C> {
    /// The RTDE endpoint this interface controls the robot through.
    pub closed spec fn target(&self) -> RtdeEndpoint {
        self.endpoint
    }

    /// The RTDE client connected to the robot.
    pub closed spec fn rtde_client(&self) -> C {
        self.client
    }

    /// Connect to the robot at `robot_ip` over its RTDE port: `connect` opens the RTDE
    /// client for a host and port. Fails with the error of `connect`.
    pub fn new<E, F: FnOnce(&str, u16) -> Result<C, E>>(robot_ip: &str, connect: F) -> (r: Result<Self, E>)
        requires
            connect.requires((robot_ip, RTDE_PORT)),
        ensures
            r matches Ok(c) ==> {
                &&& c.target().host@ == robot_ip@
                &&& c.target().port == RTDE_PORT
                &&& connect.ensures((robot_ip, RTDE_PORT), Ok(c.rtde_client()))
            },
            r matches Err(e) ==> connect.ensures((robot_ip, RTDE_PORT), Err(e)),
    {
        match connect(robot_ip, RTDE_PORT) {
            Ok(client) => Ok(ControlInterface { endpoint: rtde_endpoint(robot_ip), client }),
            Err(e) => Err(e),
        }
    }

    /// The RTDE endpoint this interface controls the robot through.
    pub fn endpoint(&self) -> (e: &RtdeEndpoint)
        ensures
            *e == self.target(),
    {
        &self.endpoint
    }

    /// The RTDE client connected to the robot.
    pub fn client(&self) -> (c: &C)
        ensures
            *c == self.rtde_client(),
    {
        &self.client
    }
}

/// High-level robot state receiving interface: an RTDE client connected to the robot.
pub struct ReceiveInterface<C> {
    endpoint: RtdeEndpoint,
    client: C,
}

impl<C> ReceiveInterface<C> {
    /// The RTDE endpoint this interface receives robot state from.
    pub closed spec fn target(&self) -> RtdeEndpoint {
        self.endpoint
    }

    /// The RTDE client connected to the robot.
    pub closed spec fn rtde_client(&self) -> C {
        self.client
    }

    /// Connect to the robot at `robot_ip` over its RTDE port: `connect` opens the RTDE
    /// client for a host and port. Fails with the error of `connect`.
    pub fn new<E, F: FnOnce(&str, u16) -> Result<C, E>>(robot_ip: &str, connect: F) -> (r: Result<Self, E>)
        requires
            connect.requires((robot_ip, RTDE_PORT)),
        ensures
            r matches Ok(c) ==> {
                &&& c.target().host@ == robot_ip@
                &&& c.target().port == RTDE_PORT
                &&& connect.ensures((robot_ip, RTDE_PORT), Ok(c.rtde_client()))
            },
            r matches Err(e) ==> connect.ensures((robot_ip, RTDE_PORT), Err(e)),
    {
        match connect(robot_ip, RTDE_PORT) {
            Ok(client) => Ok(ReceiveInterface { endpoint: rtde_endpoint(robot_ip), client }),
            Err(e) => Err(e),
        }
    }

    /// The RTDE endpoint this interface receives robot state from.
    pub fn endpoint(&self) -> (e: &RtdeEndpoint)
        ensures
            *e == self.target(),
    {
        &self.endpoint
    }

    /// The RTDE client connected to the robot.
    pub fn client(&self) -> (c: &C)
        ensures
            *c == self.rtde_client(),
    {
        &self.client
    }

    /// The RTDE client connected to the robot, for starting a subscription.
    pub fn client_mut(&mut self) -> (c: &mut C)
        ensures
            *c == old(self).rtde_client(),
            final(self).target() == old(self).target(),
            final(self).rtde_client() == *final(c),
    {
        &mut self.client
    }
}

} // verus!
