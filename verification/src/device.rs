//! Virtual network devices and their unit files.

use vstd::prelude::*;
use crate::mac::MacAddr;
use crate::unit::{
    key_value_line, lemma_default_priority, push_line, unit_file_name, unit_file_name_text,
};

verus! {

/// A named block of `key=value` entries. The entries keep their order, and a
/// key may occur more than once.
#[derive(Clone, Debug)]
pub struct Section {
    pub name: String,
    pub attributes: Vec<(String, String)>,
}

/// A section as plain text values.
pub struct SectionView {
    pub name: Seq<char>,
    pub attributes: Seq<(Seq<char>, Seq<char>)>,
}

impl View for Section {
    type V = SectionView;

    open spec fn view(&self) -> SectionView {
        SectionView {
            name: self.name@,
            attributes: self.attributes@.map_values(|a: (String, String)| (a.0@, a.1@)),
        }
    }
}

impl SectionView {
    /// The lines of the entries, one per entry, in their order.
    pub open spec fn attribute_lines(self) -> Seq<char> {
        self.attributes.map_values(|a: (Seq<char>, Seq<char>)| key_value_line(a.0, a.1)).flatten()
    }

    /// The section as it stands in a document after other sections: an empty
    /// line, the name in square brackets, then the lines of the entries.
    pub open spec fn text(self) -> Seq<char> {
        "\n["@ + self.name + "]\n"@ + self.attribute_lines()
    }
}

impl Section {
    /// Appends the section: an empty line, its header, its entries.
    pub fn push_to(&self, out: &mut String)
        ensures
            final(out)@ == old(out)@ + self@.text(),
    {
        out.append("\n[");
        out.append(self.name.as_str());
        out.append("]\n");
        let ghost head = out@;
        let ghost lines = self@.attributes.map_values(
            |a: (Seq<char>, Seq<char>)| key_value_line(a.0, a.1),
        );
        assert(lines.take(0).flatten() =~= Seq::<char>::empty());
        let mut i: usize = 0;
        while i < self.attributes.len()
            invariant
                i <= self.attributes.len(),
                lines == self@.attributes.map_values(
                    |a: (Seq<char>, Seq<char>)| key_value_line(a.0, a.1),
                ),
                out@ == head + lines.take(i as int).flatten(),
            decreases self.attributes.len() - i,
        {
            let attribute = &self.attributes[i];
            push_line(out, attribute.0.as_str(), attribute.1.as_str());
            proof {
                assert(lines[i as int] == key_value_line(attribute.0@, attribute.1@));
                assert(lines.take(i + 1) =~= lines.take(i as int).push(lines[i as int]));
                lines.take(i as int).lemma_flatten_push(lines[i as int]);
            }
            i += 1;
        }
        assert(lines.take(i as int) =~= lines);
        assert(out@ =~= old(out)@ + self@.text());
    }
}

/// A virtual network device: its name, its kind, its hardware address, and
/// the sections that configure it.
#[derive(Clone, Debug)]
pub struct Device {
    pub name: String,
    pub kind: String,
    pub mac_address: MacAddr,
    pub priority: Option<u32>,
    pub sections: Vec<Section>,
}

/// A device as plain text values.
pub struct DeviceView {
    pub name: Seq<char>,
    pub kind: Seq<char>,
    pub mac_address: MacAddr,
    pub priority: Option<u32>,
    pub sections: Seq<SectionView>,
}

impl View for Device {
    type V = DeviceView;

    open spec fn view(&self) -> DeviceView {
        DeviceView {
            name: self.name@,
            kind: self.kind@,
            mac_address: self.mac_address,
            priority: self.priority,
            sections: self.sections@.map_values(|s: Section| s@),
        }
    }
}

impl DeviceView {
    /// The name of the device's unit file: the priority, or the default
    /// where it has none, then the device's name, with the suffix `.netdev`.
    pub open spec fn unit_name_text(self) -> Seq<char> {
        unit_file_name_text(self.priority, self.name, ".netdev"@)
    }

    /// The section that every device has: name, kind and hardware address.
    pub open spec fn netdev_section(self) -> Seq<char> {
        "[NetDev]\n"@ + key_value_line("Name"@, self.name) + key_value_line("Kind"@, self.kind)
            + key_value_line("MACAddress"@, self.mac_address.text())
    }

    /// The device's own sections, each after an empty line, in their order.
    pub open spec fn custom_sections(self) -> Seq<char> {
        self.sections.map_values(|s: SectionView| s.text()).flatten()
    }

    /// The whole unit file.
    pub open spec fn config_text(self) -> Seq<char> {
        self.netdev_section() + self.custom_sections()
    }
}

impl Device {
    /// The name of the device's unit file.
    pub fn unit_name(&self) -> (name: String)
        ensures
            name@ == self@.unit_name_text(),
    {
        unit_file_name(self.priority, self.name.as_str(), ".netdev")
    }

    /// The content of the device's unit file.
    pub fn config(&self) -> (config: String)
        ensures
            config@ == self@.config_text(),
    {
        let mut config = String::new();
        config.append("[NetDev]\n");
        push_line(&mut config, "Name", self.name.as_str());
        push_line(&mut config, "Kind", self.kind.as_str());
        let mac = self.mac_address.to_string();
        push_line(&mut config, "MACAddress", mac.as_str());
        assert(config@ =~= self@.netdev_section());

        let ghost sections = self@.sections.map_values(|s: SectionView| s.text());
        assert(sections.take(0).flatten() =~= Seq::<char>::empty());
        let mut i: usize = 0;
        while i < self.sections.len()
            invariant
                i <= self.sections.len(),
                sections == self@.sections.map_values(|s: SectionView| s.text()),
                config@ == self@.netdev_section() + sections.take(i as int).flatten(),
            decreases self.sections.len() - i,
        {
            self.sections[i].push_to(&mut config);
            proof {
                assert(sections[i as int] == self.sections[i as int]@.text());
                assert(sections.take(i + 1) =~= sections.take(i as int).push(sections[i as int]));
                sections.take(i as int).lemma_flatten_push(sections[i as int]);
            }
            i += 1;
        }
        assert(sections.take(i as int) =~= sections);
        config
    }
}

/// A section without entries is its header alone, after the empty line.
pub proof fn lemma_text_of_empty_section(section: Section)
    requires
        section.attributes@.len() == 0,
    ensures
        section@.text() == "\n["@ + section.name@ + "]\n"@,
{
    assert(section@.attribute_lines() =~= Seq::<char>::empty());
}

/// A device without sections of its own has a unit file of one section, with
/// its name, its kind and its hardware address, whatever its priority.
pub proof fn lemma_config_of_plain_device(device: Device)
    requires
        device.sections@.len() == 0,
    ensures
        device@.config_text() == "[NetDev]\n"@ + key_value_line("Name"@, device.name@)
            + key_value_line("Kind"@, device.kind@) + key_value_line(
            "MACAddress"@,
            device.mac_address.text(),
        ),
{
    assert(device@.custom_sections() =~= Seq::<char>::empty());
}

/// A device without a priority is filed as one with the priority ten.
pub proof fn lemma_device_unit_name_default_priority(device: Device)
    requires
        device.priority is None,
    ensures
        device@.unit_name_text() == (DeviceView {
            priority: Some(10u32),
            ..device@
        }).unit_name_text(),
        device@.unit_name_text() == "10-"@ + device.name@ + ".netdev"@,
{
    lemma_default_priority(device.name@, ".netdev"@);
}

/// Rendering a device twice gives the same two texts: whatever `unit_name`
/// and `config` return for a device is fixed by the device's value alone.
pub proof fn lemma_device_rendering_is_deterministic(
    device: Device,
    first_name: String,
    second_name: String,
    first_config: String,
    second_config: String,
)
    requires
        first_name@ == device@.unit_name_text(),
        second_name@ == device@.unit_name_text(),
        first_config@ == device@.config_text(),
        second_config@ == device@.config_text(),
    ensures
        first_name@ == second_name@,
        first_config@ == second_config@,
{
}

} // verus!
