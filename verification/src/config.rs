//! The server's configuration as the builder reads it: tables of devices and
//! of block devices, each entry with a map of free-form options, and the
//! typed accessors through which every option is read.

use crate::name_map::NameMap;
use crate::pci::{Bdf, PciPath};
use crate::text::{bounded_value, chars_of, parse_unsigned, str_eq};
use vstd::prelude::*;
use vstd::string::*;

verus! {

/// The value of a configuration option.
#[derive(Debug)]
pub enum ConfigValue {
    /// A string.
    String(String),
    /// A boolean.
    Boolean(bool),
    /// A value of any other kind (a number, a date, an array, a table), kept
    /// as its TOML text; the builder reads no option of these kinds.
    Other(String),
}

/// The mathematical model of a [`ConfigValue`].
pub enum ConfigValueModel {
    String(Seq<char>),
    Boolean(bool),
    Other(Seq<char>),
}

impl View for ConfigValue {
    type V = ConfigValueModel;

    open spec fn view(&self) -> ConfigValueModel {
        match self {
            ConfigValue::String(s) => ConfigValueModel::String(s@),
            ConfigValue::Boolean(b) => ConfigValueModel::Boolean(*b),
            ConfigValue::Other(text) => ConfigValueModel::Other(text@),
        }
    }
}

/// The TOML text of a string: the string between quotes, with the
/// characters escaped that TOML wants escaped.
pub uninterp spec fn toml_string_text(s: Seq<char>) -> Seq<char>;

/// Renders a string as TOML, through `toml::Value`'s `Display`. The text is
/// a function of the string alone; the contract gives it a name and claims
/// nothing else of it.
#[verifier::external_body]
fn render_toml_string(s: &str) -> (text: String)
    ensures
        text@ == toml_string_text(s@),
{
    toml::Value::String(s.to_owned()).to_string()
}

/// The truth value that the text of a boolean-like string denotes.
pub open spec fn bool_text_value(s: Seq<char>) -> Option<bool> {
    if s == "true"@ {
        Some(true)
    } else if s == "false"@ {
        Some(false)
    } else {
        None
    }
}

impl ConfigValueModel {
    /// The string that the value is, if it is one.
    pub open spec fn as_str(self) -> Option<Seq<char>> {
        match self {
            ConfigValueModel::String(s) => Some(s),
            _ => None,
        }
    }

    /// The truth value that the value denotes: a boolean denotes itself, and
    /// the strings `true` and `false` denote what they say.
    pub open spec fn as_flag(self) -> Option<bool> {
        match self {
            ConfigValueModel::Boolean(b) => Some(b),
            ConfigValueModel::String(s) => bool_text_value(s),
            ConfigValueModel::Other(_) => None,
        }
    }

    /// The TOML text of the value.
    pub open spec fn text(self) -> Seq<char> {
        match self {
            ConfigValueModel::String(s) => toml_string_text(s),
            ConfigValueModel::Boolean(b) => if b {
                "true"@
            } else {
                "false"@
            },
            ConfigValueModel::Other(text) => text,
        }
    }
}

/// Reads the text of a boolean-like string.
pub fn parse_bool(s: &str) -> (value: Option<bool>)
    ensures
        value == bool_text_value(s@),
{
    if str_eq(s, "true") {
        Some(true)
    } else if str_eq(s, "false") {
        Some(false)
    } else {
        None
    }
}

impl ConfigValue {
    /// The string that the value is, if it is one.
    pub fn as_str(&self) -> (s: Option<&str>)
        ensures
            match s {
                Some(s) => self@.as_str() == Some(s@),
                None => self@.as_str() is None,
            },
    {
        match self {
            ConfigValue::String(s) => Some(s.as_str()),
            _ => None,
        }
    }

    /// The truth value that the value denotes, if it denotes one.
    pub fn as_flag(&self) -> (flag: Option<bool>)
        ensures
            flag == self@.as_flag(),
    {
        match self {
            ConfigValue::Boolean(b) => Some(*b),
            ConfigValue::String(s) => parse_bool(s.as_str()),
            ConfigValue::Other(_) => None,
        }
    }

    /// The TOML text of the value.
    pub fn text(&self) -> (text: String)
        ensures
            text@ == self@.text(),
    {
        match self {
            ConfigValue::String(s) => render_toml_string(s.as_str()),
            ConfigValue::Boolean(b) => if *b {
                String::from_str("true")
            } else {
                String::from_str("false")
            },
            ConfigValue::Other(text) => text.clone(),
        }
    }
}

/// The models of the values in a map of options.
pub open spec fn option_models(options: Map<Seq<char>, ConfigValue>) -> Map<
    Seq<char>,
    ConfigValueModel,
> {
    options.map_values(|v: ConfigValue| v@)
}

/// The string that the option `key` holds, if it is there and is a string.
pub open spec fn string_option(options: Map<Seq<char>, ConfigValueModel>, key: Seq<char>) -> Option<
    Seq<char>,
> {
    if options.contains_key(key) {
        options[key].as_str()
    } else {
        None
    }
}

/// The PCI address that the option `key` holds, if it is there and is a
/// string that denotes one.
pub open spec fn pci_path_option(options: Map<Seq<char>, ConfigValueModel>, key: Seq<char>) -> Option<
    Bdf,
> {
    match string_option(options, key) {
        Some(s) => Bdf::parse(s),
        None => None,
    }
}

/// The number that the option `key` holds, if it is there and is a string
/// that denotes an unsigned decimal of at most 32 bits.
pub open spec fn u32_option(options: Map<Seq<char>, ConfigValueModel>, key: Seq<char>) -> Option<u32> {
    match string_option(options, key) {
        Some(s) => match bounded_value(s, u32::MAX as nat) {
            Some(v) => Some(v as u32),
            None => None,
        },
        None => None,
    }
}

/// The truth value that the option `key` holds, if it is there and denotes one.
pub open spec fn flag_option(options: Map<Seq<char>, ConfigValueModel>, key: Seq<char>) -> Option<
    bool,
> {
    if options.contains_key(key) {
        options[key].as_flag()
    } else {
        None
    }
}

/// Reads the option `key` as a string.
pub fn get_string<'a>(options: &'a NameMap<ConfigValue>, key: &str) -> (value: Option<&'a str>)
    ensures
        match value {
            Some(s) => string_option(option_models(options@), key@) == Some(s@),
            None => string_option(option_models(options@), key@) is None,
        },
{
    match options.get(key) {
        Some(v) => v.as_str(),
        None => None,
    }
}

/// Reads the option `key` as a PCI address.
pub fn get_pci_path(options: &NameMap<ConfigValue>, key: &str) -> (value: Option<PciPath>)
    ensures
        match value {
            Some(path) => pci_path_option(option_models(options@), key@) == Some(path@),
            None => pci_path_option(option_models(options@), key@) is None,
        },
{
    match get_string(options, key) {
        Some(s) => PciPath::from_str(s),
        None => None,
    }
}

/// Reads the option `key` as an unsigned number.
pub fn get_u32(options: &NameMap<ConfigValue>, key: &str) -> (value: Option<u32>)
    ensures
        value == u32_option(option_models(options@), key@),
{
    match get_string(options, key) {
        Some(s) => {
            let chars = chars_of(s);
            assert(chars@.subrange(0, chars@.len() as int) =~= s@);
            parse_unsigned(&chars, 0, chars.len(), u32::MAX)
        },
        None => None,
    }
}

/// Reads the option `key` as a flag.
pub fn get_flag(options: &NameMap<ConfigValue>, key: &str) -> (value: Option<bool>)
    ensures
        value == flag_option(option_models(options@), key@),
{
    match options.get(key) {
        Some(v) => v.as_flag(),
        None => None,
    }
}

/// An entry of the device table: a driver and its options.
#[derive(Debug)]
pub struct Device {
    pub driver: String,
    pub options: NameMap<ConfigValue>,
}

/// The mathematical model of a [`Device`].
pub struct DeviceConfigModel {
    pub driver: Seq<char>,
    pub options: Map<Seq<char>, ConfigValueModel>,
}

impl View for Device {
    type V = DeviceConfigModel;

    open spec fn view(&self) -> DeviceConfigModel {
        DeviceConfigModel { driver: self.driver@, options: option_models(self.options@) }
    }
}

impl Device {
    /// Reads the option `key` as a string.
    pub fn get_string(&self, key: &str) -> (value: Option<&str>)
        ensures
            match value {
                Some(s) => string_option(self@.options, key@) == Some(s@),
                None => string_option(self@.options, key@) is None,
            },
    {
        get_string(&self.options, key)
    }

    /// Reads the option `key` as a PCI address.
    pub fn get_pci_path(&self, key: &str) -> (value: Option<PciPath>)
        ensures
            match value {
                Some(path) => pci_path_option(self@.options, key@) == Some(path@),
                None => pci_path_option(self@.options, key@) is None,
            },
    {
        get_pci_path(&self.options, key)
    }

    /// Reads the option `key` as an unsigned number.
    pub fn get_u32(&self, key: &str) -> (value: Option<u32>)
        ensures
            value == u32_option(self@.options, key@),
    {
        get_u32(&self.options, key)
    }
}

/// An entry of the block-device table: the type of a storage backend and its options.
#[derive(Debug)]
pub struct BlockDevice {
    pub bdtype: String,
    pub options: NameMap<ConfigValue>,
}

/// The mathematical model of a [`BlockDevice`].
pub struct BlockDeviceModel {
    pub bdtype: Seq<char>,
    pub options: Map<Seq<char>, ConfigValueModel>,
}

impl View for BlockDevice {
    type V = BlockDeviceModel;

    open spec fn view(&self) -> BlockDeviceModel {
        BlockDeviceModel { bdtype: self.bdtype@, options: option_models(self.options@) }
    }
}

/// A PCI-to-PCI bridge as the configuration describes it.
#[derive(Debug)]
pub struct PciBridge {
    /// The address of the bridge, as text.
    pub pci_path: String,
    /// The number of the bus behind the bridge.
    pub downstream_bus: u8,
}

/// The mathematical model of a [`PciBridge`].
pub struct PciBridgeModel {
    pub pci_path: Seq<char>,
    pub downstream_bus: u8,
}

impl View for PciBridge {
    type V = PciBridgeModel;

    open spec fn view(&self) -> PciBridgeModel {
        PciBridgeModel { pci_path: self.pci_path@, downstream_bus: self.downstream_bus }
    }
}

/// The options of the chipset.
#[derive(Debug)]
pub struct Chipset {
    pub options: NameMap<ConfigValue>,
}

/// The server's configuration.
#[derive(Debug)]
pub struct Config {
    pub chipset: Chipset,
    /// The device table. Its entries are processed in the table's order.
    pub devices: NameMap<Device>,
    /// The block-device table, to which storage devices refer by name.
    pub block_devs: NameMap<BlockDevice>,
    pub pci_bridges: Vec<PciBridge>,
}

/// The mathematical model of a [`Config`].
pub struct ConfigModel {
    pub chipset: Map<Seq<char>, ConfigValueModel>,
    pub devices: Seq<(Seq<char>, DeviceConfigModel)>,
    pub block_devs: Map<Seq<char>, BlockDeviceModel>,
    pub pci_bridges: Seq<PciBridgeModel>,
}

impl ConfigModel {
    /// The configuration that holds nothing.
    pub open spec fn empty() -> ConfigModel {
        ConfigModel {
            chipset: Map::empty(),
            devices: Seq::empty(),
            block_devs: Map::empty(),
            pci_bridges: Seq::empty(),
        }
    }
}

/// The models of the entries of a device table.
pub open spec fn device_entry_models(entries: Seq<(Seq<char>, Device)>) -> Seq<
    (Seq<char>, DeviceConfigModel),
> {
    entries.map_values(|e: (Seq<char>, Device)| (e.0, e.1@))
}

/// The models of the entries of a block-device table.
pub open spec fn block_device_models(block_devs: Map<Seq<char>, BlockDevice>) -> Map<
    Seq<char>,
    BlockDeviceModel,
> {
    block_devs.map_values(|b: BlockDevice| b@)
}

/// The models of a list of bridges.
pub open spec fn bridge_models(bridges: Seq<PciBridge>) -> Seq<PciBridgeModel> {
    bridges.map_values(|b: PciBridge| b@)
}

impl View for Config {
    type V = ConfigModel;

    open spec fn view(&self) -> ConfigModel {
        ConfigModel {
            chipset: option_models(self.chipset.options@),
            devices: device_entry_models(self.devices.entries()),
            block_devs: block_device_models(self.block_devs@),
            pci_bridges: bridge_models(self.pci_bridges@),
        }
    }
}

impl Default for Config {
    /// The configuration that holds nothing.
    fn default() -> (config: Config)
        ensures
            config@ == ConfigModel::empty(),
    {
        let config = Config {
            chipset: Chipset { options: NameMap::new() },
            devices: NameMap::new(),
            block_devs: NameMap::new(),
            pci_bridges: Vec::new(),
        };
        proof {
            assert(config@.chipset =~= Map::empty());
            assert(config@.devices =~= Seq::empty());
            assert(config@.block_devs =~= Map::empty());
            assert(config@.pci_bridges =~= Seq::empty());
        }
        config
    }
}

} // verus!
