//! What holds of every use of the builder: how slots map to addresses, which
//! additions collide, and that the same inputs always give the same
//! specification.

use crate::assembly::{
    lemma_occupy_keeps_wf, BuilderModel, InstanceModel, Occupant, SpecBuilderErrorModel,
};
use crate::components::{QemuPvpanic, SerialPortNumber};
use crate::config::{BlockDeviceModel, ConfigModel, DeviceConfigModel, PciBridgeModel};
use crate::error::ServerErrorModel;
use crate::pci::{lemma_text_injective, slot_bdf, slot_valid, Bdf, SlotType};
use crate::outcome::{
    add_elements, add_requested, bridge_outcome, bridges_outcome, config_outcome, device_outcome,
    devices_outcome, done, failed, initial_builder, is_storage_driver, serial_port_outcome,
    state_wf, storage_elements_from_config, Outcome,
};
use crate::synth::{
    bridge_address, bridge_name, cloud_init_elements, disk_elements, network_elements_from_config,
    nic_backend_name, nic_device_name, nic_elements, slot_address, storage_device_from_config,
    Elements,
};
use vstd::prelude::*;

verus! {

/// Network interfaces have the slots 0 to 7 and no others. Slot `a` is at
/// device number 8 + `a` of bus 0, function 0, so the slots occupy the device
/// numbers 0x08 to 0x0F, and two different slots have different addresses.
pub proof fn law_nic_slots(a: u8, b: u8)
    ensures
        slot_address(a, SlotType::Nic) is Ok <==> a <= 7,
        a > 7 ==> slot_address(a, SlotType::Nic) == Err::<Bdf, ServerErrorModel>(
            ServerErrorModel::PciSlotInvalid(a, SlotType::Nic),
        ),
        a <= 7 ==> slot_address(a, SlotType::Nic) == Ok::<Bdf, ServerErrorModel>(
            Bdf { bus: 0, device: (0x08 + a) as u8, function: 0 },
        ),
        a <= 7 ==> 0x08 <= slot_bdf(a, SlotType::Nic).device <= 0x0F,
        a <= 7 && b <= 7 && a != b ==> slot_bdf(a, SlotType::Nic) != slot_bdf(b, SlotType::Nic),
{
}

/// Disks have the slots 0 to 7 and no others. Slot `a` is at device number
/// 0x10 + `a` of bus 0, function 0, so the slots occupy the device numbers
/// 0x10 to 0x17, two different slots have different addresses, and no disk
/// shares an address with a network interface.
pub proof fn law_disk_slots(a: u8, b: u8, nic: u8)
    ensures
        slot_address(a, SlotType::Disk) is Ok <==> a <= 7,
        a > 7 ==> slot_address(a, SlotType::Disk) == Err::<Bdf, ServerErrorModel>(
            ServerErrorModel::PciSlotInvalid(a, SlotType::Disk),
        ),
        a <= 7 ==> slot_address(a, SlotType::Disk) == Ok::<Bdf, ServerErrorModel>(
            Bdf { bus: 0, device: (0x10 + a) as u8, function: 0 },
        ),
        a <= 7 ==> 0x10 <= slot_bdf(a, SlotType::Disk).device <= 0x17,
        a <= 7 && b <= 7 && a != b ==> slot_bdf(a, SlotType::Disk) != slot_bdf(b, SlotType::Disk),
        a <= 7 && nic <= 7 ==> slot_bdf(a, SlotType::Disk) != slot_bdf(nic, SlotType::Nic),
{
}

/// The cloud-init disk has slot 0 and no other, at device number 0x18 of bus
/// 0, function 0, which is no network interface's address and no disk's.
pub proof fn law_cloud_init_slot(slot: u8, other: u8)
    ensures
        slot_address(slot, SlotType::CloudInit) is Ok <==> slot == 0,
        slot != 0 ==> slot_address(slot, SlotType::CloudInit) == Err::<Bdf, ServerErrorModel>(
            ServerErrorModel::PciSlotInvalid(slot, SlotType::CloudInit),
        ),
        slot_address(0, SlotType::CloudInit) == Ok::<Bdf, ServerErrorModel>(
            Bdf { bus: 0, device: 0x18, function: 0 },
        ),
        other <= 7 ==> slot_bdf(0, SlotType::CloudInit) != slot_bdf(other, SlotType::Nic),
        other <= 7 ==> slot_bdf(0, SlotType::CloudInit) != slot_bdf(other, SlotType::Disk),
{
}

/// A second disk in a slot is refused with the address in use, whatever the
/// names, the interfaces and the volumes of the two disks are: the address
/// goes by the slot alone.
pub proof fn law_second_disk_in_slot_refused(
    state: BuilderModel,
    slot: u8,
    first_name: Seq<char>,
    first_read_only: bool,
    first_interface: Seq<char>,
    first_json: Seq<char>,
    second_name: Seq<char>,
    second_read_only: bool,
    second_interface: Seq<char>,
    second_json: Seq<char>,
)
    requires
        disk_elements(first_name, slot, first_read_only, first_interface, Some(first_json)) is Ok,
        disk_elements(second_name, slot, second_read_only, second_interface, Some(second_json))
            is Ok,
    ensures
        ({
            let first = add_requested(
                state,
                disk_elements(first_name, slot, first_read_only, first_interface, Some(first_json)),
            );
            let second = add_requested(
                first.state,
                disk_elements(
                    second_name,
                    slot,
                    second_read_only,
                    second_interface,
                    Some(second_json),
                ),
            );
            second == failed(
                first.state,
                ServerErrorModel::InnerBuilderError(
                    SpecBuilderErrorModel::PciPathInUse(slot_bdf(slot, SlotType::Disk)),
                ),
            )
        }),
{
}

/// A serial port that was added is refused when it is added again, and the
/// builder stays as it was after the first addition.
pub proof fn law_serial_port_once(state: BuilderModel, port: SerialPortNumber)
    ensures
        ({
            let first = serial_port_outcome(state, port);
            serial_port_outcome(first.state, port) == failed(
                first.state,
                ServerErrorModel::InnerBuilderError(SpecBuilderErrorModel::SerialPortInUse(port)),
            )
        }),
        !state.spec.serial_ports.contains(port) ==> serial_port_outcome(state, port).result is Ok,
{
}

/// A disk in a valid slot whose interface is neither `virtio` nor `nvme` is
/// refused with an error that names the interface, and the builder stays as
/// it was.
pub proof fn law_unknown_interface_refused(
    state: BuilderModel,
    name: Seq<char>,
    slot: u8,
    read_only: bool,
    interface: Seq<char>,
    json: Seq<char>,
)
    requires
        slot_valid(slot, SlotType::Disk),
        interface != "virtio"@,
        interface != "nvme"@,
    ensures
        add_requested(state, disk_elements(name, slot, read_only, interface, Some(json))) == failed(
            state,
            ServerErrorModel::UnrecognizedStorageDevice(interface),
        ),
{
}

/// A disk of the device table that refers to a backend which the
/// block-device table does not have is refused with an error that names the
/// device and the backend, and the builder stays as it was.
pub proof fn law_missing_backend_refused(
    state: BuilderModel,
    accelerator_plane: bool,
    name: Seq<char>,
    device: DeviceConfigModel,
    block_devs: Map<Seq<char>, BlockDeviceModel>,
)
    requires
        storage_device_from_config(name, device) is Ok,
        !block_devs.contains_key(storage_device_from_config(name, device)->Ok_0.backend_name()->0),
    ensures
        device_outcome(state, accelerator_plane, name, device, block_devs) == failed(
            state,
            ServerErrorModel::DeviceMissingBackend(
                name,
                storage_device_from_config(name, device)->Ok_0.backend_name()->0,
            ),
        ),
{
}

/// With an empty configuration a builder can be made for any properties,
/// adding the configuration's devices succeeds and changes nothing, and the
/// specification holds the panic-notification device and nothing else.
pub proof fn law_default_build(vcpus: u8, memory: u64, accelerator_plane: bool)
    ensures
        ({
            let made = initial_builder(vcpus, memory, ConfigModel::empty().chipset);
            &&& made is Ok
            &&& state_wf(made->Ok_0)
            &&& config_outcome(made->Ok_0, accelerator_plane, ConfigModel::empty()) == done(
                made->Ok_0,
            )
            &&& made->Ok_0.spec == InstanceModel {
                pvpanic: Some(QemuPvpanic { enable_isa: true }),
                ..InstanceModel::bare(vcpus, memory, false)
            }
            &&& made->Ok_0.pci_paths == Set::<Bdf>::empty()
        }),
{
}

/// Adding a device that is wired to the backend which comes with it keeps a
/// builder consistent, whether the addition succeeds or is refused.
pub proof fn law_addition_keeps_consistency(state: BuilderModel, e: Elements)
    requires
        state_wf(state),
        e.device.backend_name() == Some(e.backend_name),
    ensures
        state_wf(add_elements(state, e).state),
{
    let after = add_elements(state, e).state;
    if !state.pci_paths.contains(e.device.pci_path()) {
        lemma_occupy_keeps_wf(state, after, Occupant::Device(e.device_name), e.device.pci_path());
    }
}

/// Whatever a client requests keeps a builder consistent: a network
/// interface, a disk, the cloud-init disk, a serial port.
pub proof fn law_requests_keep_consistency(
    state: BuilderModel,
    slot: u8,
    name: Seq<char>,
    read_only: bool,
    interface: Seq<char>,
    json: Option<Seq<char>>,
    port: SerialPortNumber,
)
    requires
        state_wf(state),
    ensures
        state_wf(add_requested(state, nic_elements(slot, name)).state),
        state_wf(add_requested(state, disk_elements(name, slot, read_only, interface, json)).state),
        state_wf(add_elements(state, cloud_init_elements(name)).state),
        state_wf(serial_port_outcome(state, port).state),
{
    if let Ok(e) = nic_elements(slot, name) {
        law_addition_keeps_consistency(state, e);
    }
    if let Ok(e) = disk_elements(name, slot, read_only, interface, json) {
        law_addition_keeps_consistency(state, e);
    }
    law_addition_keeps_consistency(state, cloud_init_elements(name));
    let after = serial_port_outcome(state, port).state;
    assert forall|o: Occupant| #[trigger] after.spec.address_of(o) == state.spec.address_of(o) by {}
}

/// Whatever an entry of the device table describes keeps a builder consistent.
pub proof fn law_device_keeps_consistency(
    state: BuilderModel,
    accelerator_plane: bool,
    name: Seq<char>,
    device: DeviceConfigModel,
    block_devs: Map<Seq<char>, BlockDeviceModel>,
)
    requires
        state_wf(state),
    ensures
        state_wf(device_outcome(state, accelerator_plane, name, device, block_devs).state),
{
    let after = device_outcome(state, accelerator_plane, name, device, block_devs).state;
    if after != state {
        if is_storage_driver(device.driver) {
            law_addition_keeps_consistency(
                state,
                storage_elements_from_config(name, device, block_devs)->Ok_0,
            );
        } else if device.driver == "pci-virtio-viona"@ {
            law_addition_keeps_consistency(state, network_elements_from_config(name, device)->Ok_0);
        } else if device.driver == "softnpu-pci-port"@ {
            lemma_occupy_keeps_wf(
                state,
                after,
                Occupant::SoftNpuPciPort,
                after.spec.softnpu_pci_port->0,
            );
        } else if device.driver == "softnpu-port"@ {
            assert forall|o: Occupant| #[trigger]
                after.spec.address_of(o) == state.spec.address_of(o) by {}
        } else if device.driver == "softnpu-p9"@ {
            lemma_occupy_keeps_wf(state, after, Occupant::SoftNpuP9, after.spec.softnpu_p9->0);
        } else {
            lemma_occupy_keeps_wf(state, after, Occupant::P9fs, after.spec.p9fs->0.pci_path);
        }
    }
}

/// Whatever bridge the configuration describes keeps a builder consistent.
pub proof fn law_bridge_keeps_consistency(state: BuilderModel, bridge: PciBridgeModel)
    requires
        state_wf(state),
    ensures
        state_wf(bridge_outcome(state, bridge).state),
{
    let after = bridge_outcome(state, bridge).state;
    if after != state {
        lemma_occupy_keeps_wf(
            state,
            after,
            Occupant::Device(bridge_name(bridge.downstream_bus)),
            bridge_address(bridge)->Ok_0,
        );
    }
}

/// Adding the devices of a table keeps a builder consistent, wherever it stops.
pub proof fn law_devices_keep_consistency(
    state: BuilderModel,
    accelerator_plane: bool,
    devices: Seq<(Seq<char>, DeviceConfigModel)>,
    block_devs: Map<Seq<char>, BlockDeviceModel>,
)
    requires
        state_wf(state),
    ensures
        state_wf(devices_outcome(state, accelerator_plane, devices, block_devs).state),
    decreases devices.len(),
{
    if devices.len() > 0 {
        law_device_keeps_consistency(
            state,
            accelerator_plane,
            devices[0].0,
            devices[0].1,
            block_devs,
        );
        let first = device_outcome(state, accelerator_plane, devices[0].0, devices[0].1, block_devs);
        if first.result is Ok {
            law_devices_keep_consistency(
                first.state,
                accelerator_plane,
                devices.drop_first(),
                block_devs,
            );
        }
    }
}

/// Adding the bridges of a configuration keeps a builder consistent,
/// wherever it stops.
pub proof fn law_bridges_keep_consistency(state: BuilderModel, bridges: Seq<PciBridgeModel>)
    requires
        state_wf(state),
    ensures
        state_wf(bridges_outcome(state, bridges).state),
    decreases bridges.len(),
{
    if bridges.len() > 0 {
        law_bridge_keeps_consistency(state, bridges[0]);
        let first = bridge_outcome(state, bridges[0]);
        if first.result is Ok {
            law_bridges_keep_consistency(first.state, bridges.drop_first());
        }
    }
}

/// In every state that a builder reaches by adding what a configuration
/// describes, no two parts share a PCI address and every device that names a
/// backend names one that is there, whether the configuration is added in
/// full or stops at an entry that fails.
pub proof fn law_config_keeps_consistency(state: BuilderModel, accelerator_plane: bool, config: ConfigModel)
    requires
        state_wf(state),
    ensures
        state_wf(config_outcome(state, accelerator_plane, config).state),
        config_outcome(state, accelerator_plane, config).state.spec.addresses_unique(),
        config_outcome(state, accelerator_plane, config).state.spec.backends_present(),
{
    law_devices_keep_consistency(state, accelerator_plane, config.devices, config.block_devs);
    let devices = devices_outcome(state, accelerator_plane, config.devices, config.block_devs);
    if devices.result is Ok {
        law_bridges_keep_consistency(devices.state, config.pci_bridges);
    }
}

/// Two builders in the same state that are given the same configuration end
/// in the same state with the same result: the specification that comes of a
/// configuration is a function of the configuration, on whichever host it is made.
pub proof fn law_same_config_same_spec(
    state: BuilderModel,
    accelerator_plane: bool,
    config: ConfigModel,
    first: Outcome,
    second: Outcome,
)
    requires
        first == config_outcome(state, accelerator_plane, config),
        second == config_outcome(state, accelerator_plane, config),
    ensures
        first == second,
{
}

/// The names of a network interface's device and backend go by its address
/// alone: neither the entry's name nor the host interface it binds to bears
/// on them, and interfaces at different addresses have different names.
pub proof fn law_nic_names_follow_address(
    first_name: Seq<char>,
    first: DeviceConfigModel,
    second_name: Seq<char>,
    second: DeviceConfigModel,
)
    requires
        network_elements_from_config(first_name, first) is Ok,
        network_elements_from_config(second_name, second) is Ok,
    ensures
        ({
            let a = network_elements_from_config(first_name, first)->Ok_0;
            let b = network_elements_from_config(second_name, second)->Ok_0;
            &&& a.device_name == nic_device_name(a.device.pci_path())
            &&& a.backend_name == nic_backend_name(a.device.pci_path())
            &&& a.device.pci_path() == b.device.pci_path() ==> a.device_name == b.device_name
                && a.backend_name == b.backend_name && a.device == b.device
            &&& a.device.pci_path().in_range() && b.device.pci_path().in_range()
                && a.device.pci_path() != b.device.pci_path() ==> a.device_name != b.device_name
                && a.backend_name != b.backend_name
        }),
{
    let a = network_elements_from_config(first_name, first)->Ok_0;
    let b = network_elements_from_config(second_name, second)->Ok_0;
    let p = a.device.pci_path();
    let q = b.device.pci_path();
    if p.in_range() && q.in_range() && p != q {
        let prefix = "vnic-"@;
        let suffix = "-backend"@;
        if a.device_name == b.device_name {
            assert(p.text() =~= (prefix + p.text()).subrange(
                prefix.len() as int,
                (prefix + p.text()).len() as int,
            ));
            assert(q.text() =~= (prefix + q.text()).subrange(
                prefix.len() as int,
                (prefix + q.text()).len() as int,
            ));
            lemma_text_injective(p, q);
        }
        if a.backend_name == b.backend_name {
            let x = prefix + p.text() + suffix;
            let y = prefix + q.text() + suffix;
            assert(p.text() =~= x.subrange(prefix.len() as int, x.len() - suffix.len()));
            assert(q.text() =~= y.subrange(prefix.len() as int, y.len() - suffix.len()));
            lemma_text_injective(p, q);
        }
    }
}

/// A network interface that a request asks for and one that the
/// configuration describes at the same address get the same names and the
/// same device: once added, nothing tells them apart but the host interface
/// behind them.
pub proof fn law_requested_nic_like_configured(
    slot: u8,
    vnic_name: Seq<char>,
    name: Seq<char>,
    device: DeviceConfigModel,
)
    requires
        nic_elements(slot, vnic_name) is Ok,
        network_elements_from_config(name, device) is Ok,
        network_elements_from_config(name, device)->Ok_0.device.pci_path() == slot_bdf(
            slot,
            SlotType::Nic,
        ),
    ensures
        ({
            let requested = nic_elements(slot, vnic_name)->Ok_0;
            let configured = network_elements_from_config(name, device)->Ok_0;
            &&& requested.device_name == configured.device_name
            &&& requested.backend_name == configured.backend_name
            &&& requested.device == configured.device
        }),
{
}

} // verus!
