//! The instance specification and the builder that assembles one piece by
//! piece, refusing a device at an address that is taken and a serial port
//! that is already there.

use crate::components::{
    BackendModel, BackendSpec, DeviceModel, DeviceSpec, P9fs, P9fsModel, QemuPvpanic,
    SerialPortNumber, SoftNpuPort, SoftNpuPortModel,
};
use crate::name_map::NameMap;
use crate::pci::{Bdf, PciPath};
use vstd::prelude::*;
use vstd::string::*;

verus! {

/// The complete description of the virtual hardware of one instance, in
/// version 0 of its format.
#[derive(Debug)]
pub struct InstanceSpecV0 {
    /// The number of virtual CPUs.
    pub cpus: u8,
    /// The size of guest memory, in MiB.
    pub memory_mb: u64,
    /// Whether the chipset offers PCI Express.
    pub enable_pcie: bool,
    /// The panic-notification device, if the instance has one.
    pub pvpanic: Option<QemuPvpanic>,
    /// The devices, by name.
    pub devices: NameMap<DeviceSpec>,
    /// The backends, by name.
    pub backends: NameMap<BackendSpec>,
    /// The serial ports that are enabled.
    pub serial_ports: Vec<SerialPortNumber>,
    /// The address of the network accelerator's PCI port, if there is one.
    pub softnpu_pci_port: Option<PciPath>,
    /// The network accelerator's ports, by name.
    pub softnpu_ports: NameMap<SoftNpuPort>,
    /// The address of the network accelerator's 9P device, if there is one.
    pub softnpu_p9: Option<PciPath>,
    /// The 9P filesystem device, if there is one.
    pub p9fs: Option<P9fs>,
}

/// Something that occupies a PCI address in an instance specification.
pub enum Occupant {
    /// The device of the given name.
    Device(Seq<char>),
    SoftNpuPciPort,
    SoftNpuP9,
    P9fs,
}

/// The mathematical model of an [`InstanceSpecV0`].
pub struct InstanceModel {
    pub cpus: u8,
    pub memory_mb: u64,
    pub enable_pcie: bool,
    pub pvpanic: Option<QemuPvpanic>,
    pub devices: Map<Seq<char>, DeviceModel>,
    pub backends: Map<Seq<char>, BackendModel>,
    pub serial_ports: Set<SerialPortNumber>,
    pub softnpu_pci_port: Option<Bdf>,
    pub softnpu_ports: Map<Seq<char>, SoftNpuPortModel>,
    pub softnpu_p9: Option<Bdf>,
    pub p9fs: Option<P9fsModel>,
}

impl InstanceModel {
    /// The specification of a machine with the given board and nothing attached.
    pub open spec fn bare(cpus: u8, memory_mb: u64, enable_pcie: bool) -> InstanceModel {
        InstanceModel {
            cpus,
            memory_mb,
            enable_pcie,
            pvpanic: None,
            devices: Map::empty(),
            backends: Map::empty(),
            serial_ports: Set::empty(),
            softnpu_pci_port: None,
            softnpu_ports: Map::empty(),
            softnpu_p9: None,
            p9fs: None,
        }
    }

    /// The address that `occupant` has in this specification, if it is there.
    pub open spec fn address_of(self, occupant: Occupant) -> Option<Bdf> {
        match occupant {
            Occupant::Device(name) => if self.devices.contains_key(name) {
                Some(self.devices[name].pci_path())
            } else {
                None
            },
            Occupant::SoftNpuPciPort => self.softnpu_pci_port,
            Occupant::SoftNpuP9 => self.softnpu_p9,
            Occupant::P9fs => match self.p9fs {
                Some(p9fs) => Some(p9fs.pci_path),
                None => None,
            },
        }
    }

    /// Whether no two occupants of this specification share a PCI address.
    pub open spec fn addresses_unique(self) -> bool {
        forall|a: Occupant, b: Occupant|
            a != b && (#[trigger] self.address_of(a)) is Some && (#[trigger] self.address_of(b))
                is Some ==> self.address_of(a) != self.address_of(b)
    }

    /// Whether every device that names a backend names one that is there.
    pub open spec fn backends_present(self) -> bool {
        forall|name: Seq<char>| #[trigger]
            self.devices.contains_key(name) ==> match self.devices[name].backend_name() {
                Some(backend) => self.backends.contains_key(backend),
                None => true,
            }
    }
}

/// The models of the devices in a table.
pub open spec fn device_models(devices: Map<Seq<char>, DeviceSpec>) -> Map<Seq<char>, DeviceModel> {
    devices.map_values(|d: DeviceSpec| d@)
}

/// The models of the backends in a table.
pub open spec fn backend_models(backends: Map<Seq<char>, BackendSpec>) -> Map<
    Seq<char>,
    BackendModel,
> {
    backends.map_values(|b: BackendSpec| b@)
}

/// The models of the accelerator ports in a table.
pub open spec fn port_models(ports: Map<Seq<char>, SoftNpuPort>) -> Map<
    Seq<char>,
    SoftNpuPortModel,
> {
    ports.map_values(|p: SoftNpuPort| p@)
}

/// The addresses that a list of paths holds.
pub open spec fn path_set(paths: Seq<PciPath>) -> Set<Bdf> {
    Set::new(|bdf: Bdf| exists|i: int| 0 <= i < paths.len() && (#[trigger] paths[i])@ == bdf)
}

/// The model of an optional path.
pub open spec fn path_model(path: Option<PciPath>) -> Option<Bdf> {
    match path {
        Some(p) => Some(p@),
        None => None,
    }
}

impl InstanceSpecV0 {
    /// Whether no table of the specification holds a name twice, and no
    /// serial port is listed twice.
    pub open spec fn tables_distinct(&self) -> bool {
        &&& self.devices.distinct()
        &&& self.backends.distinct()
        &&& self.softnpu_ports.distinct()
        &&& self.serial_ports@.no_duplicates()
    }
}

impl View for InstanceSpecV0 {
    type V = InstanceModel;

    open spec fn view(&self) -> InstanceModel {
        InstanceModel {
            cpus: self.cpus,
            memory_mb: self.memory_mb,
            enable_pcie: self.enable_pcie,
            pvpanic: self.pvpanic,
            devices: device_models(self.devices@),
            backends: backend_models(self.backends@),
            serial_ports: self.serial_ports@.to_set(),
            softnpu_pci_port: path_model(self.softnpu_pci_port),
            softnpu_ports: port_models(self.softnpu_ports@),
            softnpu_p9: path_model(self.softnpu_p9),
            p9fs: match self.p9fs {
                Some(p9fs) => Some(p9fs@),
                None => None,
            },
        }
    }
}

/// Why the builder refused a part.
#[derive(Clone, Debug, PartialEq, Eq)]
pub enum SpecBuilderError {
    /// A device is already attached at this address.
    PciPathInUse(PciPath),
    /// The serial port is already there.
    SerialPortInUse(SerialPortNumber),
}

/// The mathematical model of a [`SpecBuilderError`].
pub enum SpecBuilderErrorModel {
    PciPathInUse(Bdf),
    SerialPortInUse(SerialPortNumber),
}

impl View for SpecBuilderError {
    type V = SpecBuilderErrorModel;

    open spec fn view(&self) -> SpecBuilderErrorModel {
        match self {
            SpecBuilderError::PciPathInUse(path) => SpecBuilderErrorModel::PciPathInUse(path@),
            SpecBuilderError::SerialPortInUse(port) => SpecBuilderErrorModel::SerialPortInUse(*port),
        }
    }
}

/// The mathematical model of a [`SpecBuilder`]: the specification so far, and
/// the addresses that were given out.
pub struct BuilderModel {
    pub spec: InstanceModel,
    pub pci_paths: Set<Bdf>,
}

impl BuilderModel {
    /// Whether the builder is consistent: no two occupants of the
    /// specification share an address, and the address of each was given out.
    pub open spec fn wf(self) -> bool {
        &&& self.spec.addresses_unique()
        &&& forall|o: Occupant| (#[trigger] self.spec.address_of(o)) is Some
            ==> self.pci_paths.contains(self.spec.address_of(o)->0)
    }

    /// The builder for a machine with the given board and nothing attached.
    pub open spec fn bare(cpus: u8, memory_mb: u64, enable_pcie: bool) -> BuilderModel {
        BuilderModel { spec: InstanceModel::bare(cpus, memory_mb, enable_pcie), pci_paths: Set::empty() }
    }

    /// The builder with `path` given out.
    pub open spec fn with_path(self, path: Bdf) -> BuilderModel {
        BuilderModel { pci_paths: self.pci_paths.insert(path), ..self }
    }

    /// The builder after a device and its backend were added.
    pub open spec fn with_device(
        self,
        device_name: Seq<char>,
        device: DeviceModel,
        backend_name: Seq<char>,
        backend: BackendModel,
    ) -> BuilderModel {
        BuilderModel {
            spec: InstanceModel {
                devices: self.spec.devices.insert(device_name, device),
                backends: self.spec.backends.insert(backend_name, backend),
                ..self.spec
            },
            pci_paths: self.pci_paths.insert(device.pci_path()),
        }
    }

    /// The builder after a bridge was added.
    pub open spec fn with_bridge(self, name: Seq<char>, bridge: DeviceModel) -> BuilderModel {
        BuilderModel {
            spec: InstanceModel { devices: self.spec.devices.insert(name, bridge), ..self.spec },
            pci_paths: self.pci_paths.insert(bridge.pci_path()),
        }
    }

    /// The builder after a serial port was added.
    pub open spec fn with_serial_port(self, port: SerialPortNumber) -> BuilderModel {
        BuilderModel {
            spec: InstanceModel { serial_ports: self.spec.serial_ports.insert(port), ..self.spec },
            ..self
        }
    }

    /// The builder after the panic-notification device was set.
    pub open spec fn with_pvpanic(self, pvpanic: QemuPvpanic) -> BuilderModel {
        BuilderModel { spec: InstanceModel { pvpanic: Some(pvpanic), ..self.spec }, ..self }
    }

    /// The builder after the accelerator's PCI port was set.
    pub open spec fn with_softnpu_pci_port(self, path: Bdf) -> BuilderModel {
        BuilderModel {
            spec: InstanceModel { softnpu_pci_port: Some(path), ..self.spec },
            pci_paths: self.pci_paths.insert(path),
        }
    }

    /// The builder after an accelerator port was added.
    pub open spec fn with_softnpu_port(self, name: Seq<char>, port: SoftNpuPortModel) -> BuilderModel {
        BuilderModel {
            spec: InstanceModel {
                softnpu_ports: self.spec.softnpu_ports.insert(name, port),
                ..self.spec
            },
            ..self
        }
    }

    /// The builder after the accelerator's 9P device was set.
    pub open spec fn with_softnpu_p9(self, path: Bdf) -> BuilderModel {
        BuilderModel {
            spec: InstanceModel { softnpu_p9: Some(path), ..self.spec },
            pci_paths: self.pci_paths.insert(path),
        }
    }

    /// The builder after the 9P filesystem device was set.
    pub open spec fn with_p9fs(self, p9fs: P9fsModel) -> BuilderModel {
        BuilderModel {
            spec: InstanceModel { p9fs: Some(p9fs), ..self.spec },
            pci_paths: self.pci_paths.insert(p9fs.pci_path),
        }
    }
}

/// Giving a fresh address to one occupant, new or old, keeps a builder consistent.
pub proof fn lemma_occupy_keeps_wf(before: BuilderModel, after: BuilderModel, who: Occupant, path: Bdf)
    requires
        before.wf(),
        !before.pci_paths.contains(path),
        after.pci_paths == before.pci_paths.insert(path),
        after.spec.address_of(who) == Some(path),
        forall|o: Occupant| o != who ==> #[trigger] after.spec.address_of(o) == before.spec.address_of(o),
    ensures
        after.wf(),
{
}

/// Assembles an instance specification from its parts.
///
/// The builder hands out each PCI address once: a part that asks for an
/// address that was given out before is refused, and the builder stays as it
/// was. The same holds of a serial port that is already there.
pub struct SpecBuilder {
    spec: InstanceSpecV0,
    pci_paths: Vec<PciPath>,
}

impl View for SpecBuilder {
    type V = BuilderModel;

    closed spec fn view(&self) -> BuilderModel {
        BuilderModel { spec: self.spec@, pci_paths: path_set(self.pci_paths@) }
    }
}

impl SpecBuilder {
    /// Whether no table of the specification so far holds a name twice, and
    /// no serial port is listed twice.
    pub closed spec fn tables_distinct(&self) -> bool {
        self.spec.tables_distinct()
    }

    /// Whether the builder is consistent.
    pub open spec fn wf(&self) -> bool {
        self@.wf() && self.tables_distinct()
    }

    /// A builder for a machine with the given board and nothing attached.
    pub fn new(cpus: u8, memory_mb: u64, enable_pcie: bool) -> (builder: SpecBuilder)
        ensures
            builder@ == BuilderModel::bare(cpus, memory_mb, enable_pcie),
            builder.wf(),
    {
        let builder = SpecBuilder {
            spec: InstanceSpecV0 {
                cpus,
                memory_mb,
                enable_pcie,
                pvpanic: None,
                devices: NameMap::new(),
                backends: NameMap::new(),
                serial_ports: Vec::new(),
                softnpu_pci_port: None,
                softnpu_ports: NameMap::new(),
                softnpu_p9: None,
                p9fs: None,
            },
            pci_paths: Vec::new(),
        };
        proof {
            let bare = BuilderModel::bare(cpus, memory_mb, enable_pcie);
            assert(builder@.spec.devices =~= bare.spec.devices);
            assert(builder@.spec.backends =~= bare.spec.backends);
            assert(builder@.spec.softnpu_ports =~= bare.spec.softnpu_ports);
            assert(builder@.spec.serial_ports =~= bare.spec.serial_ports);
            assert(builder@.pci_paths =~= bare.pci_paths);
        }
        builder
    }

    /// Whether `path` was given out.
    fn path_in_use(&self, path: PciPath) -> (used: bool)
        ensures
            used == self@.pci_paths.contains(path@),
    {
        let mut i: usize = 0;
        while i < self.pci_paths.len()
            invariant
                i <= self.pci_paths@.len(),
                forall|j: int| 0 <= j < i ==> (#[trigger] self.pci_paths@[j])@ != path@,
            decreases self.pci_paths@.len() - i,
        {
            if self.pci_paths[i].same(&path) {
                return true;
            }
            i += 1;
        }
        false
    }

    /// Gives out `path`, or refuses where it was given out before.
    fn register_pci_device(&mut self, path: PciPath) -> (result: Result<(), SpecBuilderError>)
        ensures
            final(self).spec == old(self).spec,
            match result {
                Ok(()) => {
                    &&& !old(self)@.pci_paths.contains(path@)
                    &&& final(self)@ == old(self)@.with_path(path@)
                },
                Err(e) => {
                    &&& old(self)@.pci_paths.contains(path@)
                    &&& e@ == SpecBuilderErrorModel::PciPathInUse(path@)
                    &&& final(self)@ == old(self)@
                },
            },
    {
        if self.path_in_use(path) {
            Err(SpecBuilderError::PciPathInUse(path))
        } else {
            let ghost before = self.pci_paths@;
            self.pci_paths.push(path);
            proof {
                assert forall|bdf: Bdf| #[trigger]
                    path_set(self.pci_paths@).contains(bdf) == path_set(before).insert(
                        path@,
                    ).contains(bdf) by {
                    if path_set(before).contains(bdf) {
                        let i = choose|i: int| 0 <= i < before.len() && (#[trigger] before[i])@ == bdf;
                        assert(self.pci_paths@[i]@ == bdf);
                    }
                    if bdf == path@ {
                        assert(self.pci_paths@[before.len() as int]@ == bdf);
                    }
                }
                assert(path_set(self.pci_paths@) =~= path_set(before).insert(path@));
            }
            Ok(())
        }
    }

    /// Adds a device and the backend that it is wired to. A device or a
    /// backend that is already there under the same name is replaced.
    pub fn add_device(
        &mut self,
        device_name: String,
        device: DeviceSpec,
        backend_name: String,
        backend: BackendSpec,
    ) -> (result: Result<(), SpecBuilderError>)
        requires
            old(self).wf(),
        ensures
            final(self).wf(),
            match result {
                Ok(()) => {
                    &&& !old(self)@.pci_paths.contains(device@.pci_path())
                    &&& final(self)@ == old(self)@.with_device(
                        device_name@,
                        device@,
                        backend_name@,
                        backend@,
                    )
                },
                Err(e) => {
                    &&& old(self)@.pci_paths.contains(device@.pci_path())
                    &&& e@ == SpecBuilderErrorModel::PciPathInUse(device@.pci_path())
                    &&& final(self)@ == old(self)@
                },
            },
    {
        let ghost before = self@;
        match self.register_pci_device(device.pci_path()) {
            Err(e) => Err(e),
            Ok(()) => {
                self.spec.devices.insert(device_name, device);
                self.spec.backends.insert(backend_name, backend);
                proof {
                    let after = before.with_device(device_name@, device@, backend_name@, backend@);
                    assert(self@.spec.devices =~= after.spec.devices);
                    assert(self@.spec.backends =~= after.spec.backends);
                    lemma_occupy_keeps_wf(
                        before,
                        after,
                        Occupant::Device(device_name@),
                        device@.pci_path(),
                    );
                }
                Ok(())
            },
        }
    }

    /// Adds a PCI-to-PCI bridge. A device that is already there under the
    /// same name is replaced.
    pub fn add_pci_bridge(&mut self, name: String, downstream_bus: u8, pci_path: PciPath) -> (result:
        Result<(), SpecBuilderError>)
        requires
            old(self).wf(),
        ensures
            final(self).wf(),
            match result {
                Ok(()) => {
                    &&& !old(self)@.pci_paths.contains(pci_path@)
                    &&& final(self)@ == old(self)@.with_bridge(
                        name@,
                        DeviceModel::PciPciBridge { pci_path: pci_path@, downstream_bus },
                    )
                },
                Err(e) => {
                    &&& old(self)@.pci_paths.contains(pci_path@)
                    &&& e@ == SpecBuilderErrorModel::PciPathInUse(pci_path@)
                    &&& final(self)@ == old(self)@
                },
            },
    {
        let ghost before = self@;
        match self.register_pci_device(pci_path) {
            Err(e) => Err(e),
            Ok(()) => {
                let bridge = DeviceSpec::PciPciBridge { pci_path, downstream_bus };
                self.spec.devices.insert(name, bridge);
                proof {
                    let after = before.with_bridge(name@, bridge@);
                    assert(self@.spec.devices =~= after.spec.devices);
                    lemma_occupy_keeps_wf(before, after, Occupant::Device(name@), pci_path@);
                }
                Ok(())
            },
        }
    }

    /// Adds a serial port, or refuses where it is already there.
    pub fn add_serial_port(&mut self, port: SerialPortNumber) -> (result: Result<
        (),
        SpecBuilderError,
    >)
        requires
            old(self).wf(),
        ensures
            final(self).wf(),
            match result {
                Ok(()) => {
                    &&& !old(self)@.spec.serial_ports.contains(port)
                    &&& final(self)@ == old(self)@.with_serial_port(port)
                },
                Err(e) => {
                    &&& old(self)@.spec.serial_ports.contains(port)
                    &&& e@ == SpecBuilderErrorModel::SerialPortInUse(port)
                    &&& final(self)@ == old(self)@
                },
            },
    {
        let ghost before = self@;
        let ghost ports = self.spec.serial_ports@;
        let mut i: usize = 0;
        while i < self.spec.serial_ports.len()
            invariant
                i <= self.spec.serial_ports@.len(),
                self@ == before,
                before.wf(),
                self.tables_distinct(),
                ports == self.spec.serial_ports@,
                forall|j: int| 0 <= j < i ==> self.spec.serial_ports@[j] != port,
            decreases self.spec.serial_ports@.len() - i,
        {
            if self.spec.serial_ports[i] == port {
                return Err(SpecBuilderError::SerialPortInUse(port));
            }
            i += 1;
        }
        self.spec.serial_ports.push(port);
        proof {
            let after = before.with_serial_port(port);
            ports.lemma_push_to_set_commute(port);
            assert forall|o: Occupant| #[trigger]
                after.spec.address_of(o) == before.spec.address_of(o) by {}
        }
        Ok(())
    }

    /// Sets the panic-notification device.
    pub fn add_pvpanic_device(&mut self, pvpanic: QemuPvpanic)
        requires
            old(self).wf(),
        ensures
            final(self).wf(),
            final(self)@ == old(self)@.with_pvpanic(pvpanic),
    {
        let ghost before = self@;
        self.spec.pvpanic = Some(pvpanic);
        proof {
            let after = before.with_pvpanic(pvpanic);
            assert forall|o: Occupant| #[trigger]
                after.spec.address_of(o) == before.spec.address_of(o) by {}
        }
    }

    /// Sets the network accelerator's PCI port.
    pub fn set_softnpu_pci_port(&mut self, pci_path: PciPath) -> (result: Result<
        (),
        SpecBuilderError,
    >)
        requires
            old(self).wf(),
        ensures
            final(self).wf(),
            match result {
                Ok(()) => {
                    &&& !old(self)@.pci_paths.contains(pci_path@)
                    &&& final(self)@ == old(self)@.with_softnpu_pci_port(pci_path@)
                },
                Err(e) => {
                    &&& old(self)@.pci_paths.contains(pci_path@)
                    &&& e@ == SpecBuilderErrorModel::PciPathInUse(pci_path@)
                    &&& final(self)@ == old(self)@
                },
            },
    {
        let ghost before = self@;
        match self.register_pci_device(pci_path) {
            Err(e) => Err(e),
            Ok(()) => {
                self.spec.softnpu_pci_port = Some(pci_path);
                proof {
                    let after = before.with_softnpu_pci_port(pci_path@);
                    lemma_occupy_keeps_wf(before, after, Occupant::SoftNpuPciPort, pci_path@);
                }
                Ok(())
            },
        }
    }

    /// Adds a port of the network accelerator. A port that is already there
    /// under the same name is replaced.
    pub fn add_softnpu_port(&mut self, name: String, port: SoftNpuPort)
        requires
            old(self).wf(),
        ensures
            final(self).wf(),
            final(self)@ == old(self)@.with_softnpu_port(name@, port@),
    {
        let ghost before = self@;
        self.spec.softnpu_ports.insert(name, port);
        proof {
            let after = before.with_softnpu_port(name@, port@);
            assert(self@.spec.softnpu_ports =~= after.spec.softnpu_ports);
            assert forall|o: Occupant| #[trigger]
                after.spec.address_of(o) == before.spec.address_of(o) by {}
        }
    }

    /// Sets the network accelerator's 9P device.
    pub fn set_softnpu_p9(&mut self, pci_path: PciPath) -> (result: Result<(), SpecBuilderError>)
        requires
            old(self).wf(),
        ensures
            final(self).wf(),
            match result {
                Ok(()) => {
                    &&& !old(self)@.pci_paths.contains(pci_path@)
                    &&& final(self)@ == old(self)@.with_softnpu_p9(pci_path@)
                },
                Err(e) => {
                    &&& old(self)@.pci_paths.contains(pci_path@)
                    &&& e@ == SpecBuilderErrorModel::PciPathInUse(pci_path@)
                    &&& final(self)@ == old(self)@
                },
            },
    {
        let ghost before = self@;
        match self.register_pci_device(pci_path) {
            Err(e) => Err(e),
            Ok(()) => {
                self.spec.softnpu_p9 = Some(pci_path);
                proof {
                    let after = before.with_softnpu_p9(pci_path@);
                    lemma_occupy_keeps_wf(before, after, Occupant::SoftNpuP9, pci_path@);
                }
                Ok(())
            },
        }
    }

    /// Sets the 9P filesystem device.
    pub fn set_p9fs(&mut self, p9fs: P9fs) -> (result: Result<(), SpecBuilderError>)
        requires
            old(self).wf(),
        ensures
            final(self).wf(),
            match result {
                Ok(()) => {
                    &&& !old(self)@.pci_paths.contains(p9fs@.pci_path)
                    &&& final(self)@ == old(self)@.with_p9fs(p9fs@)
                },
                Err(e) => {
                    &&& old(self)@.pci_paths.contains(p9fs@.pci_path)
                    &&& e@ == SpecBuilderErrorModel::PciPathInUse(p9fs@.pci_path)
                    &&& final(self)@ == old(self)@
                },
            },
    {
        let ghost before = self@;
        match self.register_pci_device(p9fs.pci_path) {
            Err(e) => Err(e),
            Ok(()) => {
                let ghost model = p9fs@;
                self.spec.p9fs = Some(p9fs);
                proof {
                    let after = before.with_p9fs(model);
                    lemma_occupy_keeps_wf(before, after, Occupant::P9fs, model.pci_path);
                }
                Ok(())
            },
        }
    }

    /// Yields the finished specification. The builder is used up.
    pub fn finish(self) -> (spec: InstanceSpecV0)
        ensures
            spec@ == self@.spec,
            self.wf() ==> spec@.addresses_unique() && spec.tables_distinct(),
    {
        self.spec
    }
}

} // verus!
