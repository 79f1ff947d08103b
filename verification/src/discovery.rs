//! Finding the mouse among the connected HID devices.

use vstd::prelude::*;

use crate::error::Error;
use crate::text::{
    hex4, is_hex4_of, is_signed_decimal_of, law_hex4_reads_back, law_signed_decimal_reads_back,
    lines_view, push_hex4, push_signed, signed_decimal,
};

verus! {

/// Known Vendor IDs for ATK/VXE devices.
pub const ATK_VENDOR_IDS: [u16; 2] = [0x373b, 0x3554];

/// What is known of a connected HID interface.
#[derive(Debug)]
pub struct DeviceInfo {
    pub vendor_id: u16,
    pub product_id: u16,
    pub usage_page: u16,
    pub usage: u16,
    pub interface_number: i32,
    pub manufacturer: Option<String>,
    pub product: Option<String>,
}

/// The vendor is the wanted one, or any known one where none is named.
pub open spec fn is_vendor(vendor_id: u16, wanted: Option<u16>) -> bool {
    match wanted {
        Some(vid) => vendor_id == vid,
        None => ATK_VENDOR_IDS@.contains(vendor_id),
    }
}

/// The text, or a question mark where there is none.
pub open spec fn text_or_unknown(text: Option<String>) -> Seq<char> {
    match text {
        Some(text) => text@,
        None => "?"@,
    }
}

/// The line that a listing shows of an interface.
pub open spec fn device_line(device: DeviceInfo) -> Seq<char> {
    "VID="@ + hex4(device.vendor_id) + " PID="@ + hex4(device.product_id) + "  usage_page=0x"@
        + hex4(device.usage_page) + " usage=0x"@ + hex4(device.usage) + "  iface="@
        + signed_decimal(device.interface_number as int) + "  "@ + text_or_unknown(
        device.manufacturer,
    ) + " — "@ + text_or_unknown(device.product)
}

/// What a listing shows where there is nothing to list.
pub open spec fn no_devices_text() -> Seq<char> {
    "No ATK/VXE devices found. Check that:\n1) the mouse is connected via cable or 2.4G dongle (Bluetooth often does not allow raw HID access);\n2) on Linux — a udev rule is installed for root-free access\n(see https://gist.github.com/Speyll/b7803161b1ee43f258d484fe9e92c4b4);\n3) the device VID is not in the list ["@
        + hex4(ATK_VENDOR_IDS@[0]) + ", "@ + hex4(ATK_VENDOR_IDS@[1])
        + "] — find it via\n`lsusb` (Linux) or Device Manager (Windows) and pass --vid explicitly."@
}

/// The interfaces of the wanted vendor, in the order in which they are connected.
pub open spec fn listed(devices: Seq<DeviceInfo>, wanted: Option<u16>) -> Seq<DeviceInfo> {
    devices.filter(|device: DeviceInfo| is_vendor(device.vendor_id, wanted))
}

/// A listing of the interfaces of the wanted vendor.
pub open spec fn listing(devices: Seq<DeviceInfo>, wanted: Option<u16>) -> Seq<Seq<char>> {
    if listed(devices, wanted).len() == 0 {
        seq![no_devices_text()]
    } else {
        listed(devices, wanted).map_values(|device: DeviceInfo| device_line(device))
    }
}

/// Whether the vendor is the wanted one, or a known one where none is named.
pub fn matches_vendor(vendor_id: u16, wanted: Option<u16>) -> (found: bool)
    ensures
        found == is_vendor(vendor_id, wanted),
{
    match wanted {
        Some(vid) => vendor_id == vid,
        None => {
            let mut i: usize = 0;
            while i < ATK_VENDOR_IDS.len()
                invariant
                    i <= 2,
                    wanted is None,
                    forall|k: int| 0 <= k < i ==> ATK_VENDOR_IDS@[k] != vendor_id,
                decreases 2 - i,
            {
                if ATK_VENDOR_IDS[i] == vendor_id {
                    return true;
                }
                i = i + 1;
            }
            false
        },
    }
}

fn push_or_unknown(out: &mut String, text: &Option<String>)
    ensures
        final(out)@ == old(out)@ + text_or_unknown(*text),
{
    match text {
        Some(text) => out.append(text.as_str()),
        None => out.append("?"),
    }
}

fn describe(device: &DeviceInfo) -> (line: String)
    ensures
        line@ == device_line(*device),
{
    let mut line = "VID=".to_owned();
    push_hex4(&mut line, device.vendor_id);
    line.append(" PID=");
    push_hex4(&mut line, device.product_id);
    line.append("  usage_page=0x");
    push_hex4(&mut line, device.usage_page);
    line.append(" usage=0x");
    push_hex4(&mut line, device.usage);
    line.append("  iface=");
    push_signed(&mut line, device.interface_number);
    line.append("  ");
    push_or_unknown(&mut line, &device.manufacturer);
    line.append(" — ");
    push_or_unknown(&mut line, &device.product);
    line
}

fn no_devices_message() -> (text: String)
    ensures
        text@ == no_devices_text(),
{
    let mut text = "No ATK/VXE devices found. Check that:\n1) the mouse is connected via cable or 2.4G dongle (Bluetooth often does not allow raw HID access);\n2) on Linux — a udev rule is installed for root-free access\n(see https://gist.github.com/Speyll/b7803161b1ee43f258d484fe9e92c4b4);\n3) the device VID is not in the list [".to_owned();
    push_hex4(&mut text, ATK_VENDOR_IDS[0]);
    text.append(", ");
    push_hex4(&mut text, ATK_VENDOR_IDS[1]);
    text.append(
        "] — find it via\n`lsusb` (Linux) or Device Manager (Windows) and pass --vid explicitly.",
    );
    text
}

/// Lists the interfaces of the wanted vendor, or of all known vendors, one line each. A
/// listing of none says what to check.
pub fn list_devices(devices: &Vec<DeviceInfo>, vid_filter: Option<u16>) -> (lines: Vec<String>)
    ensures
        lines_view(lines@) == listing(devices@, vid_filter),
{
    let mut lines: Vec<String> = Vec::new();
    let mut i: usize = 0;
    let ghost line_of = |device: DeviceInfo| device_line(device);
    assert(devices@.take(0) =~= Seq::empty());
    assert(lines_view(lines@) =~= listed(devices@.take(0), vid_filter).map_values(line_of)) by {
        reveal_with_fuel(Seq::filter, 1);
    }
    while i < devices.len()
        invariant
            i <= devices@.len(),
            line_of == (|device: DeviceInfo| device_line(device)),
            lines_view(lines@) == listed(devices@.take(i as int), vid_filter).map_values(line_of),
        decreases devices@.len() - i,
    {
        let ghost before = devices@.take(i as int);
        let ghost after = devices@.take(i + 1);
        let ghost shown = lines_view(lines@);
        assert(after.drop_last() =~= before);
        assert(after.last() == devices@[i as int]);
        reveal_with_fuel(Seq::filter, 1);
        if matches_vendor(devices[i].vendor_id, vid_filter) {
            lines.push(describe(&devices[i]));
            assert(lines_view(lines@) =~= shown.push(device_line(devices@[i as int])));
            assert(listed(after, vid_filter) =~= listed(before, vid_filter).push(
                devices@[i as int],
            ));
        } else {
            assert(listed(after, vid_filter) =~= listed(before, vid_filter));
        }
        assert(lines_view(lines@) =~= listed(after, vid_filter).map_values(line_of));
        i = i + 1;
    }
    assert(devices@.take(i as int) =~= devices@);
    if lines.len() == 0 {
        assert(listed(devices@, vid_filter).map_values(line_of).len() == lines@.len());
        lines.push(no_devices_message());
        assert(lines_view(lines@) =~= seq![no_devices_text()]);
    }
    lines
}

/// The interface is of the wanted vendor and, where a product is named, of that product.
pub open spec fn is_wanted(device: DeviceInfo, vid: Option<u16>, pid: Option<u16>) -> bool {
    &&& is_vendor(device.vendor_id, vid)
    &&& pid matches Some(p) ==> device.product_id == p
}

/// The wanted interfaces, in the order in which they are connected.
pub open spec fn wanted_devices(
    devices: Seq<DeviceInfo>,
    vid: Option<u16>,
    pid: Option<u16>,
) -> Seq<DeviceInfo> {
    devices.filter(|device: DeviceInfo| is_wanted(device, vid, pid))
}

/// The identifiers of the mouse: those that are given, or those of the first wanted
/// interface where one is left to be detected.
pub open spec fn ids_outcome(
    devices: Seq<DeviceInfo>,
    vid: Option<u16>,
    pid: Option<u16>,
) -> Result<(u16, u16), Error> {
    let wanted = wanted_devices(devices, vid, pid);
    match (vid, pid) {
        (Some(v), Some(p)) => Ok((v, p)),
        _ => if wanted.len() == 0 {
            Err(Error::NoDevice)
        } else {
            Ok((wanted[0].vendor_id, wanted[0].product_id))
        },
    }
}

/// Where no interface is wanted, there is no wanted one.
proof fn lemma_none_wanted(devices: Seq<DeviceInfo>, vid: Option<u16>, pid: Option<u16>)
    requires
        forall|k: int| 0 <= k < devices.len() ==> !is_wanted(#[trigger] devices[k], vid, pid),
    ensures
        wanted_devices(devices, vid, pid) == Seq::<DeviceInfo>::empty(),
    decreases devices.len(),
{
    reveal_with_fuel(Seq::filter, 1);
    if devices.len() > 0 {
        lemma_none_wanted(devices.drop_last(), vid, pid);
        assert(!is_wanted(devices[devices.len() - 1], vid, pid));
    }
}

/// The first interface that is wanted comes first among the wanted ones.
proof fn lemma_first_wanted(devices: Seq<DeviceInfo>, vid: Option<u16>, pid: Option<u16>, i: int)
    requires
        0 <= i < devices.len(),
        is_wanted(devices[i], vid, pid),
        forall|k: int| 0 <= k < i ==> !is_wanted(#[trigger] devices[k], vid, pid),
    ensures
        wanted_devices(devices, vid, pid).len() > 0,
        wanted_devices(devices, vid, pid)[0] == devices[i],
    decreases devices.len(),
{
    reveal_with_fuel(Seq::filter, 1);
    if i == devices.len() - 1 {
        lemma_none_wanted(devices.drop_last(), vid, pid);
    } else {
        lemma_first_wanted(devices.drop_last(), vid, pid, i);
    }
}

/// Resolves the identifiers of the mouse. What is given is kept; what is not given is
/// detected, from the first connected interface that agrees with what is given.
pub fn resolve_ids(devices: &Vec<DeviceInfo>, vid: Option<u16>, pid: Option<u16>) -> (ids: Result<
    (u16, u16),
    Error,
>)
    ensures
        ids == ids_outcome(devices@, vid, pid),
{
    if let (Some(v), Some(p)) = (vid, pid) {
        return Ok((v, p));
    }
    let mut i: usize = 0;
    while i < devices.len()
        invariant
            i <= devices@.len(),
            vid is None || pid is None,
            forall|k: int| 0 <= k < i ==> !is_wanted(#[trigger] devices@[k], vid, pid),
        decreases devices@.len() - i,
    {
        let matches_product: bool = match pid {
            Some(p) => devices[i].product_id == p,
            None => true,
        };
        if matches_vendor(devices[i].vendor_id, vid) && matches_product {
            proof {
                lemma_first_wanted(devices@, vid, pid, i as int);
            }
            return Ok((devices[i].vendor_id, devices[i].product_id));
        }
        i = i + 1;
    }
    proof {
        lemma_none_wanted(devices@, vid, pid);
    }
    Err(Error::NoDevice)
}

/// Identifiers that are given are the ones that are used, and a vendor that is detected is
/// a known one.
pub proof fn law_given_identifiers_are_kept(
    devices: Seq<DeviceInfo>,
    vid: Option<u16>,
    pid: Option<u16>,
)
    ensures
        ids_outcome(devices, vid, pid) matches Ok((v, p)) ==> {
            &&& is_vendor(v, vid)
            &&& pid matches Some(given) ==> p == given
        },
{
    let wanted = wanted_devices(devices, vid, pid);
    if wanted.len() > 0 {
        devices.lemma_filter_pred(|device: DeviceInfo| is_wanted(device, vid, pid), 0);
        assert(is_wanted(wanted[0], vid, pid));
    }
}

/// Where no vendor is named, the known ones are 0x373b and 0x3554 and no other. Where one is
/// named, it is that one and no other.
pub proof fn law_known_vendors(vendor_id: u16, named: u16)
    ensures
        is_vendor(vendor_id, None) <==> vendor_id == 0x373b || vendor_id == 0x3554,
        is_vendor(vendor_id, Some(named)) <==> vendor_id == named,
{
    assert(ATK_VENDOR_IDS@[0] == 0x373b && ATK_VENDOR_IDS@[1] == 0x3554);
}

/// The line of an interface carries what is known of it: the four identifiers in hexadecimal,
/// each in its place, the number of the interface, and the two names or question marks.
pub proof fn law_line_carries_the_interface(device: DeviceInfo)
    ensures
        ({
            let line = device_line(device);
            &&& line.subrange(0, 4) == "VID="@
            &&& is_hex4_of(line.subrange(4, 8), device.vendor_id as int)
            &&& line.subrange(8, 13) == " PID="@
            &&& is_hex4_of(line.subrange(13, 17), device.product_id as int)
            &&& line.subrange(17, 32) == "  usage_page=0x"@
            &&& is_hex4_of(line.subrange(32, 36), device.usage_page as int)
            &&& line.subrange(36, 45) == " usage=0x"@
            &&& is_hex4_of(line.subrange(45, 49), device.usage as int)
            &&& exists|s: Seq<char>| #[trigger]
                is_signed_decimal_of(s, device.interface_number as int) && line.skip(49)
                    == "  iface="@ + s + "  "@ + (match device.manufacturer {
                    Some(name) => name@,
                    None => "?"@,
                }) + " — "@ + (match device.product {
                    Some(name) => name@,
                    None => "?"@,
                })
        }),
{
    law_hex4_reads_back(device.vendor_id);
    law_hex4_reads_back(device.product_id);
    law_hex4_reads_back(device.usage_page);
    law_hex4_reads_back(device.usage);
    law_signed_decimal_reads_back(device.interface_number as int);
    reveal_strlit("VID=");
    reveal_strlit(" PID=");
    reveal_strlit("  usage_page=0x");
    reveal_strlit(" usage=0x");
    let line = device_line(device);
    let s = signed_decimal(device.interface_number as int);
    let (m, p) = (text_or_unknown(device.manufacturer), text_or_unknown(device.product));
    let rest = "  iface="@ + s + "  "@ + m + " — "@ + p;
    let head = "VID="@ + hex4(device.vendor_id) + " PID="@ + hex4(device.product_id)
        + "  usage_page=0x"@ + hex4(device.usage_page) + " usage=0x"@ + hex4(device.usage);
    assert(head.len() == 49);
    assert(line =~= head + rest);
    assert(line.skip(49) =~= rest);
    assert(forall|i: int| 0 <= i < 49 ==> line[i] == head[i]);
    assert(line.subrange(0, 4) =~= "VID="@);
    assert(line.subrange(4, 8) =~= hex4(device.vendor_id));
    assert(line.subrange(8, 13) =~= " PID="@);
    assert(line.subrange(13, 17) =~= hex4(device.product_id));
    assert(line.subrange(17, 32) =~= "  usage_page=0x"@);
    assert(line.subrange(32, 36) =~= hex4(device.usage_page));
    assert(line.subrange(36, 45) =~= " usage=0x"@);
    assert(line.subrange(45, 49) =~= hex4(device.usage));
}

/// Interfaces that differ in an identifier have different lines.
pub proof fn law_different_interfaces_have_different_lines(a: DeviceInfo, b: DeviceInfo)
    requires
        a.vendor_id != b.vendor_id || a.product_id != b.product_id || a.usage_page
            != b.usage_page || a.usage != b.usage,
    ensures
        device_line(a) != device_line(b),
{
    law_line_carries_the_interface(a);
    law_line_carries_the_interface(b);
}

/// A listing goes through the interfaces in the order in which they are connected: each one
/// more is listed after those before it if its vendor is the named one, or 0x373b or 0x3554
/// where none is named, and left out otherwise.
pub proof fn law_listing_goes_through_all_interfaces(
    devices: Seq<DeviceInfo>,
    device: DeviceInfo,
    wanted: Option<u16>,
)
    ensures
        listed(Seq::empty(), wanted).len() == 0,
        listed(devices.push(device), wanted) == if (match wanted {
            Some(vid) => device.vendor_id == vid,
            None => device.vendor_id == 0x373b || device.vendor_id == 0x3554,
        }) {
            listed(devices, wanted).push(device)
        } else {
            listed(devices, wanted)
        },
{
    reveal_with_fuel(Seq::filter, 1);
    law_known_vendors(device.vendor_id, 0);
    assert(devices.push(device).drop_last() =~= devices);
    assert(devices.push(device).last() == device);
}

/// A listing shows one line for each listed interface, in the same order, or one text if there
/// is none.
pub proof fn law_listing_shows_one_line_each(
    devices: Seq<DeviceInfo>,
    wanted: Option<u16>,
    i: int,
)
    requires
        0 <= i < listed(devices, wanted).len(),
    ensures
        listing(devices, wanted).len() == listed(devices, wanted).len(),
        listing(devices, wanted)[i] == device_line(listed(devices, wanted)[i]),
{
}

/// An interface that detection may settle on: its vendor is the named one, or 0x373b or 0x3554
/// where none is named, and its product is the named one, where one is named.
pub open spec fn may_be_the_mouse(device: DeviceInfo, vid: Option<u16>, pid: Option<u16>) -> bool {
    &&& match vid {
        Some(v) => device.vendor_id == v,
        None => device.vendor_id == 0x373b || device.vendor_id == 0x3554,
    }
    &&& match pid {
        Some(p) => device.product_id == p,
        None => true,
    }
}

proof fn lemma_may_be_the_mouse(device: DeviceInfo, vid: Option<u16>, pid: Option<u16>)
    ensures
        is_wanted(device, vid, pid) == may_be_the_mouse(device, vid, pid),
{
    law_known_vendors(device.vendor_id, 0);
}

/// Two identifiers that are given are taken. Otherwise detection settles on the first
/// interface that may be the mouse: the one with the index `i`.
pub proof fn law_first_interface_that_may_be_the_mouse_is_taken(
    devices: Seq<DeviceInfo>,
    vid: Option<u16>,
    pid: Option<u16>,
    i: int,
)
    requires
        0 <= i < devices.len(),
        may_be_the_mouse(devices[i], vid, pid),
        forall|k: int| 0 <= k < i ==> !may_be_the_mouse(#[trigger] devices[k], vid, pid),
    ensures
        ids_outcome(devices, vid, pid) == Ok::<(u16, u16), Error>(
            (devices[i].vendor_id, devices[i].product_id),
        ),
{
    lemma_may_be_the_mouse(devices[i], vid, pid);
    assert forall|k: int| 0 <= k < i implies !is_wanted(#[trigger] devices[k], vid, pid) by {
        lemma_may_be_the_mouse(devices[k], vid, pid);
    }
    lemma_first_wanted(devices, vid, pid, i);
}

/// Where no interface may be the mouse, two identifiers that are given are taken all the same,
/// and anything less finds no device.
pub proof fn law_no_interface_may_be_the_mouse(
    devices: Seq<DeviceInfo>,
    vid: Option<u16>,
    pid: Option<u16>,
)
    requires
        forall|k: int|
            0 <= k < devices.len() ==> !may_be_the_mouse(#[trigger] devices[k], vid, pid),
    ensures
        ids_outcome(devices, vid, pid) == match (vid, pid) {
            (Some(v), Some(p)) => Ok::<(u16, u16), Error>((v, p)),
            _ => Err::<(u16, u16), Error>(Error::NoDevice),
        },
{
    assert forall|k: int| 0 <= k < devices.len() implies !is_wanted(
        #[trigger] devices[k],
        vid,
        pid,
    ) by {
        lemma_may_be_the_mouse(devices[k], vid, pid);
    }
    lemma_none_wanted(devices, vid, pid);
}

/// Where nothing is to be listed, one text says what to check, whichever vendor was wanted;
/// it names the known vendors in hexadecimal.
pub proof fn law_empty_listing_names_the_known_vendors(
    devices: Seq<DeviceInfo>,
    wanted: Option<u16>,
)
    requires
        listed(devices, wanted).len() == 0,
    ensures
        listing(devices, wanted).len() == 1,
        exists|a: Seq<char>, b: Seq<char>|
            #[trigger] is_hex4_of(a, 0x373b) && #[trigger] is_hex4_of(b, 0x3554) && listing(
                devices,
                wanted,
            )[0]
                == "No ATK/VXE devices found. Check that:\n1) the mouse is connected via cable or 2.4G dongle (Bluetooth often does not allow raw HID access);\n2) on Linux — a udev rule is installed for root-free access\n(see https://gist.github.com/Speyll/b7803161b1ee43f258d484fe9e92c4b4);\n3) the device VID is not in the list ["@
                + a + ", "@ + b
                + "] — find it via\n`lsusb` (Linux) or Device Manager (Windows) and pass --vid explicitly."@,
{
    law_hex4_reads_back(0x373b);
    law_hex4_reads_back(0x3554);
    assert(ATK_VENDOR_IDS@[0] == 0x373b && ATK_VENDOR_IDS@[1] == 0x3554);
}

} // verus!
