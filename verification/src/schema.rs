//! The normalized inventory record and its parts, as they go over the wire.

use vstd::prelude::*;

verus! {

/// One full inventory record, built fresh on every collection cycle.
#[derive(Debug, Clone)]
pub struct MachineInfo {
    pub hostname: String,
    pub serial_number: String,
    pub cloud: Option<String>,
    pub os: OS,
    pub devices: Devices,
    pub networks: Vec<Network>,
}

/// Reserved cloud-provider descriptor.
#[derive(Debug, Clone)]
pub struct Cloud {}

/// Operating-system descriptor.
#[derive(Debug, Clone)]
pub struct OS {
    pub platform: String,
    pub os: String,
    pub version: String,
    pub arch: String,
    pub kernel: String,
}

/// Hardware device descriptors: processors and one memory summary.
#[derive(Debug, Clone)]
pub struct Devices {
    pub processor: Vec<Processor>,
    pub memory: Memory,
}

/// One processor socket.
#[derive(Debug, Clone)]
pub struct Processor {
    pub version: String,
    pub max_speed: u16,
    pub current_speed: u16,
    pub core_count: u16,
    pub cores_enabled: u16,
    pub thread_count: u16,
    pub thread_enabled: u16,
}

/// Aggregate memory summary in a fixed unit.
#[derive(Debug, Clone)]
pub struct Memory {
    pub total_memory: u64,
    pub unit: String,
}

/// One reported network interface.
#[derive(Debug, Clone)]
pub struct Network {
    pub name: String,
    pub address: Vec<String>,
    pub mac_address: String,
}

/// The views of a sequence of strings.
pub open spec fn string_views(ss: Seq<String>) -> Seq<Seq<char>> {
    Seq::new(ss.len(), |i: int| ss[i]@)
}

/// The mathematical value of an [`OS`].
pub ghost struct OsModel {
    pub platform: Seq<char>,
    pub os: Seq<char>,
    pub version: Seq<char>,
    pub arch: Seq<char>,
    pub kernel: Seq<char>,
}

/// The mathematical value of a [`Processor`].
pub ghost struct ProcessorModel {
    pub version: Seq<char>,
    pub max_speed: u16,
    pub current_speed: u16,
    pub core_count: u16,
    pub cores_enabled: u16,
    pub thread_count: u16,
    pub thread_enabled: u16,
}

/// The mathematical value of a [`Memory`].
pub ghost struct MemoryModel {
    pub total_memory: u64,
    pub unit: Seq<char>,
}

/// The mathematical value of a [`Devices`].
pub ghost struct DevicesModel {
    pub processor: Seq<ProcessorModel>,
    pub memory: MemoryModel,
}

/// The mathematical value of a [`Network`].
pub ghost struct NetworkModel {
    pub name: Seq<char>,
    pub address: Seq<Seq<char>>,
    pub mac_address: Seq<char>,
}

/// The mathematical value of a [`MachineInfo`].
pub ghost struct MachineInfoModel {
    pub hostname: Seq<char>,
    pub serial_number: Seq<char>,
    pub cloud: Option<Seq<char>>,
    pub os: OsModel,
    pub devices: DevicesModel,
    pub networks: Seq<NetworkModel>,
}

impl View for OS {
    type V = OsModel;

    open spec fn view(&self) -> OsModel {
        OsModel {
            platform: self.platform@,
            os: self.os@,
            version: self.version@,
            arch: self.arch@,
            kernel: self.kernel@,
        }
    }
}

impl View for Processor {
    type V = ProcessorModel;

    open spec fn view(&self) -> ProcessorModel {
        ProcessorModel {
            version: self.version@,
            max_speed: self.max_speed,
            current_speed: self.current_speed,
            core_count: self.core_count,
            cores_enabled: self.cores_enabled,
            thread_count: self.thread_count,
            thread_enabled: self.thread_enabled,
        }
    }
}

impl View for Memory {
    type V = MemoryModel;

    open spec fn view(&self) -> MemoryModel {
        MemoryModel { total_memory: self.total_memory, unit: self.unit@ }
    }
}

/// The views of a sequence of processors.
pub open spec fn processor_views(ps: Seq<Processor>) -> Seq<ProcessorModel> {
    Seq::new(ps.len(), |i: int| ps[i]@)
}

/// The views of a sequence of networks.
pub open spec fn network_views(ns: Seq<Network>) -> Seq<NetworkModel> {
    Seq::new(ns.len(), |i: int| ns[i]@)
}

impl View for Devices {
    type V = DevicesModel;

    open spec fn view(&self) -> DevicesModel {
        DevicesModel { processor: processor_views(self.processor@), memory: self.memory@ }
    }
}

impl View for Network {
    type V = NetworkModel;

    open spec fn view(&self) -> NetworkModel {
        NetworkModel {
            name: self.name@,
            address: string_views(self.address@),
            mac_address: self.mac_address@,
        }
    }
}

impl View for MachineInfo {
    type V = MachineInfoModel;

    open spec fn view(&self) -> MachineInfoModel {
        MachineInfoModel {
            hostname: self.hostname@,
            serial_number: self.serial_number@,
            cloud: match self.cloud {
                Option::Some(ref c) => Option::Some(c@),
                Option::None => Option::None,
            },
            os: self.os@,
            devices: self.devices@,
            networks: network_views(self.networks@),
        }
    }
}

} // verus!
