//! The device registry: three categories of peripherals, probed once per
//! boot and cached.
//!
//! The hardware handshake itself (status reads, the enable command, the
//! bounded wait for a response byte) is performed by the embedding
//! program; its outcome arrives as a [`ProbeOutcome`] of plain booleans.
//! The registry turns that outcome into immutable records exactly once
//! and afterwards serves copies of the cache.

use vstd::prelude::*;

verus! {

/// Type of device (input, output, storage).
#[derive(Debug, Clone, Copy, PartialEq, Eq, Structural)]
pub enum DeviceType {
    Input,
    Output,
    Storage,
}

/// The mathematical content of one device record.
pub struct DeviceModel {
    pub device_type: DeviceType,
    pub name: Seq<char>,
    pub status: Seq<char>,
    pub active: bool,
    pub driver: Option<Seq<char>>,
    pub info: Option<Seq<char>>,
    pub size: Option<Seq<char>>,
}

/// The content of an optional descriptive string.
pub open spec fn opt_view(o: Option<String>) -> Option<Seq<char>> {
    match o {
        Some(s) => Some(s@),
        None => None,
    }
}

/// Represents a single hardware device. Immutable once constructed.
#[derive(Debug)]
pub struct Device {
    pub device_type: DeviceType,
    name: String,
    status: String,
    active: bool,
    driver: Option<String>,
    info: Option<String>,
    size: Option<String>,
}

impl View for Device {
    type V = DeviceModel;

    closed spec fn view(&self) -> DeviceModel {
        DeviceModel {
            device_type: self.device_type,
            name: self.name@,
            status: self.status@,
            active: self.active,
            driver: opt_view(self.driver),
            info: opt_view(self.info),
            size: opt_view(self.size),
        }
    }
}

fn clone_opt_string(o: &Option<String>) -> (r: Option<String>)
    ensures
        opt_view(r) == opt_view(*o),
{
    match o {
        Some(s) => Some(s.clone()),
        None => None,
    }
}

impl Clone for Device {
    /// A copy carrying exactly the same record.
    fn clone(&self) -> (res: Self)
        ensures
            res@ == self@,
    {
        let res = Device {
            device_type: self.device_type,
            name: self.name.clone(),
            status: self.status.clone(),
            active: self.active,
            driver: clone_opt_string(&self.driver),
            info: clone_opt_string(&self.info),
            size: clone_opt_string(&self.size),
        };
        res
    }
}

fn opt_str_to_owned(o: Option<&str>) -> (r: Option<String>)
    ensures
        opt_view(r) == match o {
            Some(s) => Some(s@),
            None => None::<Seq<char>>,
        },
{
    match o {
        Some(s) => Some(s.to_owned()),
        None => None,
    }
}

impl Device {
    /// Create a new device record from its parts.
    pub fn new(
        device_type: DeviceType,
        name: &str,
        status: &str,
        active: bool,
        driver: Option<&str>,
        info: Option<&str>,
        size: Option<&str>,
    ) -> (d: Device)
        ensures
            d@ == (DeviceModel {
                device_type,
                name: name@,
                status: status@,
                active,
                driver: match driver {
                    Some(s) => Some(s@),
                    None => None::<Seq<char>>,
                },
                info: match info {
                    Some(s) => Some(s@),
                    None => None::<Seq<char>>,
                },
                size: match size {
                    Some(s) => Some(s@),
                    None => None::<Seq<char>>,
                },
            }),
    {
        Device {
            device_type,
            name: name.to_owned(),
            status: status.to_owned(),
            active,
            driver: opt_str_to_owned(driver),
            info: opt_str_to_owned(info),
            size: opt_str_to_owned(size),
        }
    }

    /// Get device name.
    pub fn name(&self) -> (r: &str)
        ensures
            r@ == self@.name,
    {
        self.name.as_str()
    }

    /// Get device status.
    pub fn status(&self) -> (r: &str)
        ensures
            r@ == self@.status,
    {
        self.status.as_str()
    }

    /// Check if device is active.
    pub fn is_active(&self) -> (r: bool)
        ensures
            r == self@.active,
    {
        self.active
    }

    /// Get device driver if available.
    pub fn driver(&self) -> (r: Option<&str>)
        ensures
            match r {
                Some(s) => self@.driver == Some(s@),
                None => self@.driver is None,
            },
    {
        match &self.driver {
            Some(s) => Some(s.as_str()),
            None => None,
        }
    }

    /// Get additional device information if available.
    pub fn additional_info(&self) -> (r: Option<&str>)
        ensures
            match r {
                Some(s) => self@.info == Some(s@),
                None => self@.info is None,
            },
    {
        match &self.info {
            Some(s) => Some(s.as_str()),
            None => None,
        }
    }

    /// Get device size if applicable (for storage devices).
    pub fn size(&self) -> (r: Option<&str>)
        ensures
            match r {
                Some(s) => self@.size == Some(s@),
                None => self@.size is None,
            },
    {
        match &self.size {
            Some(s) => Some(s.as_str()),
            None => None,
        }
    }
}

/// The mathematical content of a collection: the records of each
/// category, in the order they were added.
pub struct CollectionModel {
    pub input: Seq<DeviceModel>,
    pub output: Seq<DeviceModel>,
    pub storage: Seq<DeviceModel>,
}

/// Collection of devices organized by type.
pub struct DeviceCollection {
    input: Vec<Device>,
    output: Vec<Device>,
    storage: Vec<Device>,
}

impl View for DeviceCollection {
    type V = CollectionModel;

    closed spec fn view(&self) -> CollectionModel {
        CollectionModel {
            input: self.input@.map_values(|d: Device| d@),
            output: self.output@.map_values(|d: Device| d@),
            storage: self.storage@.map_values(|d: Device| d@),
        }
    }
}

fn clone_devices(v: &Vec<Device>) -> (r: Vec<Device>)
    ensures
        r@.map_values(|d: Device| d@) == v@.map_values(|d: Device| d@),
{
    let mut r: Vec<Device> = Vec::new();
    let mut i: usize = 0;
    while i < v.len()
        invariant
            i <= v@.len(),
            r@.len() == i,
            forall|j: int| 0 <= j < i ==> #[trigger] r@[j]@ == v@[j]@,
        decreases v@.len() - i,
    {
        r.push(v[i].clone());
        i = i + 1;
    }
    proof {
        assert(r@.map_values(|d: Device| d@) =~= v@.map_values(|d: Device| d@));
    }
    r
}

impl Clone for DeviceCollection {
    /// A copy carrying exactly the same records.
    fn clone(&self) -> (res: Self)
        ensures
            res@ == self@,
    {
        DeviceCollection {
            input: clone_devices(&self.input),
            output: clone_devices(&self.output),
            storage: clone_devices(&self.storage),
        }
    }
}

impl DeviceCollection {
    /// Create a new empty device collection.
    pub fn new() -> (c: DeviceCollection)
        ensures
            c@.input.len() == 0,
            c@.output.len() == 0,
            c@.storage.len() == 0,
    {
        let c = DeviceCollection { input: Vec::new(), output: Vec::new(), storage: Vec::new() };
        proof {
            assert(c@.input =~= Seq::<DeviceModel>::empty());
            assert(c@.output =~= Seq::<DeviceModel>::empty());
            assert(c@.storage =~= Seq::<DeviceModel>::empty());
        }
        c
    }

    /// Add an input device.
    pub fn add_input_device(
        &mut self,
        name: &str,
        status: &str,
        active: bool,
        driver: Option<&str>,
        info: Option<&str>,
    )
        ensures
            final(self)@.input == old(self)@.input.push(
                DeviceModel {
                    device_type: DeviceType::Input,
                    name: name@,
                    status: status@,
                    active,
                    driver: match driver {
                        Some(s) => Some(s@),
                        None => None::<Seq<char>>,
                    },
                    info: match info {
                        Some(s) => Some(s@),
                        None => None::<Seq<char>>,
                    },
                    size: None::<Seq<char>>,
                },
            ),
            final(self)@.output == old(self)@.output,
            final(self)@.storage == old(self)@.storage,
    {
        let d = Device::new(DeviceType::Input, name, status, active, driver, info, None);
        self.input.push(d);
        proof {
            assert(self@.input =~= old(self)@.input.push(d@));
        }
    }

    /// Add an output device.
    pub fn add_output_device(
        &mut self,
        name: &str,
        status: &str,
        active: bool,
        driver: Option<&str>,
        info: Option<&str>,
    )
        ensures
            final(self)@.output == old(self)@.output.push(
                DeviceModel {
                    device_type: DeviceType::Output,
                    name: name@,
                    status: status@,
                    active,
                    driver: match driver {
                        Some(s) => Some(s@),
                        None => None::<Seq<char>>,
                    },
                    info: match info {
                        Some(s) => Some(s@),
                        None => None::<Seq<char>>,
                    },
                    size: None::<Seq<char>>,
                },
            ),
            final(self)@.input == old(self)@.input,
            final(self)@.storage == old(self)@.storage,
    {
        let d = Device::new(DeviceType::Output, name, status, active, driver, info, None);
        self.output.push(d);
        proof {
            assert(self@.output =~= old(self)@.output.push(d@));
        }
    }

    /// Add a storage device. Every storage record carries the generic
    /// descriptive line in its info field.
    pub fn add_storage_device(
        &mut self,
        name: &str,
        status: &str,
        active: bool,
        driver: Option<&str>,
        size: Option<&str>,
    )
        ensures
            final(self)@.storage == old(self)@.storage.push(
                DeviceModel {
                    device_type: DeviceType::Storage,
                    name: name@,
                    status: status@,
                    active,
                    driver: match driver {
                        Some(s) => Some(s@),
                        None => None::<Seq<char>>,
                    },
                    info: Some("Storage device"@),
                    size: match size {
                        Some(s) => Some(s@),
                        None => None::<Seq<char>>,
                    },
                },
            ),
            final(self)@.input == old(self)@.input,
            final(self)@.output == old(self)@.output,
    {
        let d = Device::new(
            DeviceType::Storage,
            name,
            status,
            active,
            driver,
            Some("Storage device"),
            size,
        );
        self.storage.push(d);
        proof {
            assert(self@.storage =~= old(self)@.storage.push(d@));
        }
    }

    /// Get all input devices.
    pub fn input_devices(&self) -> (r: &[Device])
        ensures
            r@.map_values(|d: Device| d@) == self@.input,
    {
        self.input.as_slice()
    }

    /// Get all output devices.
    pub fn output_devices(&self) -> (r: &[Device])
        ensures
            r@.map_values(|d: Device| d@) == self@.output,
    {
        self.output.as_slice()
    }

    /// Get all storage devices.
    pub fn storage_devices(&self) -> (r: &[Device])
        ensures
            r@.map_values(|d: Device| d@) == self@.storage,
    {
        self.storage.as_slice()
    }
}

/// What the hardware handshake reported: whether the controller status
/// showed a controller at all, and whether the keyboard answered the
/// enable command before the bounded wait ran out.
#[derive(Debug, Clone, Copy, PartialEq, Eq, Structural)]
pub struct ProbeOutcome {
    pub controller_present: bool,
    pub keyboard_responded: bool,
}

/// The keyboard record, added when the controller is present and the
/// keyboard answered in time.
pub open spec fn keyboard_model() -> DeviceModel {
    DeviceModel {
        device_type: DeviceType::Input,
        name: "PS/2 Keyboard"@,
        status: "Connected"@,
        active: true,
        driver: Some("Basic PS/2 driver"@),
        info: Some("Supports standard keystrokes"@),
        size: None,
    }
}

/// The mouse record, assumed present whenever the controller is, without
/// a handshake of its own — a known simplification.
pub open spec fn mouse_model() -> DeviceModel {
    DeviceModel {
        device_type: DeviceType::Input,
        name: "PS/2 Mouse"@,
        status: "Connected"@,
        active: true,
        driver: Some("Basic PS/2 mouse driver"@),
        info: Some("Supports relative movement"@),
        size: None,
    }
}

/// The display record, recorded unconditionally: no bus enumeration.
pub open spec fn display_model() -> DeviceModel {
    DeviceModel {
        device_type: DeviceType::Output,
        name: "VGA Text Mode Display"@,
        status: "Active"@,
        active: true,
        driver: Some("VGA text mode driver"@),
        info: Some("Resolution: 80x25 characters"@),
        size: None,
    }
}

/// The boot medium record, recorded unconditionally: no bus enumeration.
pub open spec fn storage_model() -> DeviceModel {
    DeviceModel {
        device_type: DeviceType::Storage,
        name: "Boot Medium (QEMU virtual)"@,
        status: "Read-only"@,
        active: true,
        driver: Some("Basic storage driver"@),
        info: Some("Storage device"@),
        size: Some("Unknown"@),
    }
}

/// The collection a probe with the given outcome yields.
pub open spec fn detected_collection(probe: ProbeOutcome) -> CollectionModel {
    CollectionModel {
        input: if probe.controller_present {
            if probe.keyboard_responded {
                seq![keyboard_model(), mouse_model()]
            } else {
                seq![mouse_model()]
            }
        } else {
            Seq::empty()
        },
        output: seq![display_model()],
        storage: seq![storage_model()],
    }
}

/// What a detection call returns, given the cache it finds.
pub open spec fn detect_result(cache: Option<CollectionModel>, probe: ProbeOutcome)
    -> CollectionModel {
    match cache {
        Some(c) => c,
        None => detected_collection(probe),
    }
}

/// The cache a detection call leaves behind.
pub open spec fn cache_after_detect(cache: Option<CollectionModel>, probe: ProbeOutcome)
    -> Option<CollectionModel> {
    match cache {
        Some(c) => Some(c),
        None => Some(detected_collection(probe)),
    }
}

/// The process-wide device cache: empty until the first detection, then
/// read-only.
pub struct DeviceRegistry {
    cache: Option<DeviceCollection>,
}

impl View for DeviceRegistry {
    type V = Option<CollectionModel>;

    closed spec fn view(&self) -> Option<CollectionModel> {
        match self.cache {
            Some(ref c) => Some(c@),
            None => None,
        }
    }
}

impl DeviceRegistry {
    /// The registry at boot: nothing probed yet.
    pub fn new() -> (r: DeviceRegistry)
        ensures
            r@ is None,
    {
        DeviceRegistry { cache: None }
    }
}

/// Record the PS/2 findings of the probe: when the controller is present,
/// the keyboard (if it answered) and the assumed mouse.
pub fn detect_ps2_devices(devices: &mut DeviceCollection, probe: ProbeOutcome)
    ensures
        final(devices)@.input == old(devices)@.input + detected_collection(probe).input,
        final(devices)@.output == old(devices)@.output,
        final(devices)@.storage == old(devices)@.storage,
{
    if probe.controller_present {
        if probe.keyboard_responded {
            devices.add_input_device(
                "PS/2 Keyboard",
                "Connected",
                true,
                Some("Basic PS/2 driver"),
                Some("Supports standard keystrokes"),
            );
        }
        devices.add_input_device(
            "PS/2 Mouse",
            "Connected",
            true,
            Some("Basic PS/2 mouse driver"),
            Some("Supports relative movement"),
        );
    }
    proof {
        assert(devices@.input =~= old(devices)@.input + detected_collection(probe).input);
    }
}

/// Record the display adapter, unconditionally.
pub fn detect_display_devices(devices: &mut DeviceCollection)
    ensures
        final(devices)@.output == old(devices)@.output.push(display_model()),
        final(devices)@.input == old(devices)@.input,
        final(devices)@.storage == old(devices)@.storage,
{
    devices.add_output_device(
        "VGA Text Mode Display",
        "Active",
        true,
        Some("VGA text mode driver"),
        Some("Resolution: 80x25 characters"),
    );
}

/// Record the boot medium, unconditionally.
pub fn detect_storage_devices(devices: &mut DeviceCollection)
    ensures
        final(devices)@.storage == old(devices)@.storage.push(storage_model()),
        final(devices)@.input == old(devices)@.input,
        final(devices)@.output == old(devices)@.output,
{
    devices.add_storage_device(
        "Boot Medium (QEMU virtual)",
        "Read-only",
        true,
        Some("Basic storage driver"),
        Some("Unknown"),
    );
}

/// Detect all hardware devices: the first call turns the probe outcome
/// into records and caches them; every later call returns a copy of the
/// cache without looking at the hardware again.
pub fn detect_all_devices(registry: &mut DeviceRegistry, probe: ProbeOutcome)
    -> (r: DeviceCollection)
    ensures
        r@ == detect_result(old(registry)@, probe),
        final(registry)@ == cache_after_detect(old(registry)@, probe),
{
    match &registry.cache {
        Some(devices) => {
            return devices.clone();
        },
        None => {},
    }
    let mut devices = DeviceCollection::new();
    detect_ps2_devices(&mut devices, probe);
    detect_display_devices(&mut devices);
    detect_storage_devices(&mut devices);
    registry.cache = Some(devices.clone());
    proof {
        assert(devices@.input =~= detected_collection(probe).input);
        assert(devices@.output =~= detected_collection(probe).output);
        assert(devices@.storage =~= detected_collection(probe).storage);
    }
    devices
}

/// Detection is idempotent: whatever the cache held before the first
/// call, a second call — with any probe outcome at all — returns exactly
/// the collection the first call returned and leaves the cache untouched,
/// so the hardware probe contributes nothing after the first call.
pub proof fn lemma_detect_idempotent(
    cache: Option<CollectionModel>,
    probe1: ProbeOutcome,
    probe2: ProbeOutcome,
)
    ensures
        detect_result(cache_after_detect(cache, probe1), probe2) == detect_result(cache, probe1),
        cache_after_detect(cache_after_detect(cache, probe1), probe2) == cache_after_detect(
            cache,
            probe1,
        ),
{
}

} // verus!
