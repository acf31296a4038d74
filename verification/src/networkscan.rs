//! The network-interface scanner screen: enumerated interfaces, a cyclic
//! interface cursor, and scan options kept in the selection-list
//! primitive.
//!
//! Interface enumeration and packet-level scanning are external
//! collaborators: the front end enumerates the system's interfaces into
//! plain [`NetInfo`] values once at start-up, and a [`ScanAction`]
//! returned by [`NetScanApp::update`] tells it when to fire a scan.

use vstd::prelude::*;
use vstd::string::StringExecFns;
use crate::app::{AppInfo, AppMessage, Key};
use crate::optionlist::OptionListState;
use crate::textbuf::{append_u64_dec, dec_spec};

verus! {

/// An IPv4 address or netmask, by its four octets.
#[derive(Clone, Copy, PartialEq, Eq, Structural, Debug)]
pub struct Ip4Addr {
    pub a: u8,
    pub b: u8,
    pub c: u8,
    pub d: u8,
}

/// What the screen reads of one network interface.  The IPv6 address is
/// kept only for display, already rendered; the IPv4 address and netmask
/// are kept as octets, which the CIDR computation reads.
pub struct NetInfo {
    pub ip4: Option<Ip4Addr>,
    pub ip6: Option<String>,
    pub nmask: Option<Ip4Addr>,
    pub mac: String,
    pub name: String,
}

/// Abstract value of a [`NetInfo`].
#[verifier::ext_equal]
pub ghost struct NetInfoView {
    pub ip4: Option<Ip4Addr>,
    pub ip6: Option<Seq<char>>,
    pub nmask: Option<Ip4Addr>,
    pub mac: Seq<char>,
    pub name: Seq<char>,
}

impl View for NetInfo {
    type V = NetInfoView;

    open spec fn view(&self) -> NetInfoView {
        NetInfoView {
            ip4: self.ip4,
            ip6: match self.ip6 {
                Some(s) => Some(s@),
                None => None,
            },
            nmask: self.nmask,
            mac: self.mac@,
            name: self.name@,
        }
    }
}

/// The enumerated interfaces of the machine, in enumeration order.
pub struct NetInterfaces {
    pub networks: Vec<NetInfo>,
}

/// One toggleable scan option.
pub struct ScanOption {
    pub name: String,
    pub index: usize,
    pub active: bool,
}

/// The scan options the screen offers.
pub struct ScanOptions {
    pub icmp_ping: ScanOption,
    pub port_scan: ScanOption,
    pub names: Vec<String>,
}

/// The messages the scanner screen understands.
pub enum NetScanMsg {
    Scan,
    NextInterface,
    NextScanOption,
    ToggleScanOption,
}

impl AppMessage for NetScanMsg {

}

/// The scan the front end owes after a message, if any.
#[derive(Clone, Copy, PartialEq, Eq, Structural, Debug)]
pub enum ScanAction {
    /// No scan work.
    Pass,
    /// Fire one ICMP host scan on the selected interface.
    IcmpScan,
}

/// The scanner screen's state.
pub struct NetScanApp {
    pub info: AppInfo,
    pub text: String,
    pub interfaces: NetInterfaces,
    pub selected_interface: usize,
    pub current_options: ScanOptions,
    pub options_state: OptionListState,
    pub scan_results: String,
}

impl NetScanApp {
    /// The invariants the screen maintains: at least one interface is
    /// known, the interface cursor points at one of them, and the option
    /// list is well formed.
    pub open spec fn wf(self) -> bool {
        &&& self.interfaces.networks.len() >= 1
        &&& self.selected_interface < self.interfaces.networks.len()
        &&& self.options_state@.wf()
    }

    /// A fresh scanner over the interfaces the front end enumerated.
    /// The cyclic interface cursor has no position without at least one
    /// interface, so the front end guards the (degenerate) machine with
    /// none.
    pub fn new(interfaces: NetInterfaces) -> (r: NetScanApp)
        requires
            interfaces.networks.len() >= 1,
        ensures
            r.wf(),
            r.info@.title == "Netscan"@,
            r.info@.version == "v1.0"@,
            r.interfaces == interfaces,
            r.selected_interface == 0,
            r.options_state@.highlighted == Some(0usize),
            r.options_state@.selected == Set::<usize>::empty(),
            r.options_state@.option_size == 2nat,
            !r.current_options.icmp_ping.active,
            !r.current_options.port_scan.active,
            r.current_options.names@.len() == 2,
            r.current_options.names@[0]@ == "ICMP Ping"@,
            r.current_options.names@[1]@ == "Port Scan"@,
            r.scan_results@ == Seq::<char>::empty(),
    {
        let icmp_option = ScanOption {
            name: String::from_str("ICMP Scan"),
            index: 0,
            active: false,
        };

        let port_option = ScanOption {
            name: String::from_str("Port Scan"),
            index: 1,
            active: false,
        };

        let mut option_names: Vec<String> = Vec::new();
        option_names.push(String::from_str("ICMP Ping"));
        option_names.push(String::from_str("Port Scan"));

        let main_app = NetScanApp {
            info: AppInfo {
                title: String::from_str("Netscan"),
                version: String::from_str("v1.0"),
            },
            text: String::from_str("Network app for scanning network interfaces"),
            interfaces,
            selected_interface: 0,
            options_state: OptionListState::new(2),
            current_options: ScanOptions {
                icmp_ping: icmp_option,
                port_scan: port_option,
                names: option_names,
            },
            scan_results: String::new(),
        };

        return main_app;
    }

    /// Replace the enumerated interfaces wholesale (a re-enumeration by
    /// the front end); the interface cursor is clamped into the new list.
    pub fn read_interfaces(&mut self, interfaces: NetInterfaces)
        requires
            old(self).wf(),
            interfaces.networks.len() >= 1,
        ensures
            final(self).wf(),
            final(self).interfaces == interfaces,
            final(self).selected_interface == if old(self).selected_interface
                < interfaces.networks@.len() {
                old(self).selected_interface as int
            } else {
                interfaces.networks@.len() - 1
            },
            final(self).info == old(self).info,
            final(self).current_options == old(self).current_options,
            final(self).options_state == old(self).options_state,
            final(self).text == old(self).text,
            final(self).scan_results == old(self).scan_results,
    {
        if self.selected_interface >= interfaces.networks.len() {
            self.selected_interface = interfaces.networks.len() - 1;
        }
        self.interfaces = interfaces;
    }

    /// Move the interface cursor one interface forward, wrapping past the
    /// last interface to the first.
    pub fn next_interface(&mut self)
        requires
            old(self).wf(),
        ensures
            final(self).wf(),
            final(self).selected_interface == (old(self).selected_interface + 1) as int % (
            old(self).interfaces.networks@.len() as int),
            final(self).interfaces == old(self).interfaces,
            final(self).info == old(self).info,
            final(self).current_options == old(self).current_options,
            final(self).options_state == old(self).options_state,
            final(self).text == old(self).text,
            final(self).scan_results == old(self).scan_results,
    {
        let count = self.interfaces.networks.len();
        if self.selected_interface != count - 1 {
            proof {
                vstd::arithmetic::div_mod::lemma_small_mod(
                    (self.selected_interface + 1) as nat,
                    count as nat,
                );
            }
            self.selected_interface = self.selected_interface + 1;
        } else {
            proof {
                vstd::arithmetic::div_mod::lemma_mod_self_0(count as int);
            }
            self.selected_interface = 0;
        }
    }

    /// Toggle the highlighted scan option.  Only the ICMP option (index
    /// 0) is wired: toggling it flips its `active` flag and keeps the
    /// selection set of the option list in step with that flag.
    pub fn set_selected_option(&mut self)
        requires
            old(self).wf(),
        ensures
            final(self).wf(),
            old(self).options_state@.highlighted == Some(0usize) ==> {
                &&& final(self).current_options.icmp_ping.active == !old(self).current_options.icmp_ping.active
                &&& final(self).options_state@.selected == if final(self).current_options.icmp_ping.active {
                    old(self).options_state@.selected.insert(0usize)
                } else {
                    old(self).options_state@.selected.remove(0usize)
                }
                &&& final(self).options_state@.highlighted == old(self).options_state@.highlighted
                &&& final(self).options_state@.option_size == old(self).options_state@.option_size
            },
            old(self).options_state@.highlighted != Some(0usize) ==> *final(self) == *old(self),
            final(self).current_options.icmp_ping.name == old(self).current_options.icmp_ping.name,
            final(self).current_options.icmp_ping.index == old(self).current_options.icmp_ping.index,
            final(self).current_options.port_scan == old(self).current_options.port_scan,
            final(self).current_options.names == old(self).current_options.names,
            final(self).interfaces == old(self).interfaces,
            final(self).selected_interface == old(self).selected_interface,
            final(self).info == old(self).info,
            final(self).text == old(self).text,
            final(self).scan_results == old(self).scan_results,
    {
        match self.options_state.highlighted {
            Some(0) => {
                self.current_options.icmp_ping.active = !self.current_options.icmp_ping.active;
                if self.current_options.icmp_ping.active {
                    self.options_state.select()
                } else {
                    self.options_state.unselect()
                }
            },
            _ => {},
        }
    }

    /// Move the option highlight one option forward (cyclic).
    pub fn next_scan_option(&mut self)
        requires
            old(self).wf(),
        ensures
            final(self).wf(),
            final(self).options_state@.highlighted == Some(
                crate::optionlist::rot_next(
                    old(self).options_state@.hl(),
                    old(self).options_state@.option_size as int,
                ) as usize,
            ),
            final(self).options_state@.selected == old(self).options_state@.selected,
            final(self).options_state@.option_size == old(self).options_state@.option_size,
            final(self).interfaces == old(self).interfaces,
            final(self).selected_interface == old(self).selected_interface,
            final(self).current_options == old(self).current_options,
            final(self).info == old(self).info,
            final(self).text == old(self).text,
            final(self).scan_results == old(self).scan_results,
    {
        self.options_state.highlight_next()
    }

    /// Move the option highlight one option backward (cyclic).
    pub fn prev_scan_option(&mut self)
        requires
            old(self).wf(),
        ensures
            final(self).wf(),
            final(self).options_state@.highlighted == Some(
                crate::optionlist::rot_prev(
                    old(self).options_state@.hl(),
                    old(self).options_state@.option_size as int,
                ) as usize,
            ),
            final(self).options_state@.selected == old(self).options_state@.selected,
            final(self).options_state@.option_size == old(self).options_state@.option_size,
            final(self).interfaces == old(self).interfaces,
            final(self).selected_interface == old(self).selected_interface,
            final(self).current_options == old(self).current_options,
            final(self).info == old(self).info,
            final(self).text == old(self).text,
            final(self).scan_results == old(self).scan_results,
    {
        self.options_state.highlight_prev()
    }

    /// The names of the enumerated interfaces, in order.
    pub fn interface_names(&self) -> (r: Vec<String>)
        ensures
            r@.len() == self.interfaces.networks@.len(),
            forall|i: int|
                0 <= i < r@.len() ==> r@[i] == self.interfaces.networks@[i].name,
    {
        let mut interface_names: Vec<String> = Vec::new();
        let mut i: usize = 0;
        while i < self.interfaces.networks.len()
            invariant
                i <= self.interfaces.networks@.len(),
                interface_names@.len() == i,
                forall|j: int|
                    0 <= j < i ==> interface_names@[j] == self.interfaces.networks@[j].name,
            decreases self.interfaces.networks@.len() - i,
        {
            interface_names.push(self.interfaces.networks[i].name.clone());
            i = i + 1;
        }

        return interface_names;
    }

    /// The display block for the selected interface.
    pub fn selected_interface_info(&self) -> (r: String)
        requires
            self.wf(),
        ensures
            r@ == net_info_line(self.interfaces.networks@[self.selected_interface as int]@),
    {
        net_info_string(&self.interfaces.networks[self.selected_interface])
    }

    /// The name of the selected interface.
    pub fn current_interface(&self) -> (r: String)
        requires
            self.wf(),
        ensures
            r == self.interfaces.networks@[self.selected_interface as int].name,
    {
        return self.interfaces.networks[self.selected_interface].name.clone();
    }

    /// Decide whether a scan is owed: one ICMP scan exactly when the ICMP
    /// option is active.  The screen's own state does not change; results
    /// come back through the front end's log.
    pub fn scan_hosts(&mut self) -> (act: ScanAction)
        ensures
            *final(self) == *old(self),
            act == if old(self).current_options.icmp_ping.active {
                ScanAction::IcmpScan
            } else {
                ScanAction::Pass
            },
    {
        if self.current_options.icmp_ping.active {
            ScanAction::IcmpScan
        } else {
            ScanAction::Pass
        }
    }

    /// Apply one message and hand back the scan it asks for.
    pub fn update(&mut self, msg: &NetScanMsg) -> (act: ScanAction)
        requires
            old(self).wf(),
        ensures
            final(self).wf(),
            final(self).info == old(self).info,
            (msg matches NetScanMsg::Scan) ==> *final(self) == *old(self) && act == (
            if old(self).current_options.icmp_ping.active {
                ScanAction::IcmpScan
            } else {
                ScanAction::Pass
            }),
            (msg matches NetScanMsg::NextInterface) ==> act == ScanAction::Pass && final(self).selected_interface == (old(self).selected_interface + 1) as int % (
            old(self).interfaces.networks@.len() as int) && final(self).options_state == old(self).options_state && final(self).current_options == old(self).current_options && final(self).interfaces == old(self).interfaces,
            (msg matches NetScanMsg::NextScanOption) ==> act == ScanAction::Pass && final(self).options_state@.highlighted == Some(
                crate::optionlist::rot_next(
                    old(self).options_state@.hl(),
                    old(self).options_state@.option_size as int,
                ) as usize,
            ) && final(self).options_state@.selected == old(self).options_state@.selected && final(self).selected_interface == old(self).selected_interface && final(self).current_options
                == old(self).current_options && final(self).interfaces == old(self).interfaces,
            (msg matches NetScanMsg::ToggleScanOption) ==> act == ScanAction::Pass && (old(self).options_state@.highlighted == Some(0usize) ==> final(self).current_options.icmp_ping.active == !old(self).current_options.icmp_ping.active) && (
            old(self).options_state@.highlighted != Some(0usize) ==> *final(self) == *old(self)),
    {
        match msg {
            NetScanMsg::Scan => self.scan_hosts(),
            NetScanMsg::NextInterface => {
                self.next_interface();
                ScanAction::Pass
            },
            NetScanMsg::NextScanOption => {
                self.next_scan_option();
                ScanAction::Pass
            },
            NetScanMsg::ToggleScanOption => {
                self.set_selected_option();
                ScanAction::Pass
            },
        }
    }

    /// The menu label of this screen.
    pub fn info(&self) -> (r: AppInfo)
        ensures
            r == self.info,
    {
        self.info.duplicate()
    }

    /// Translate one key press into at most one message.
    pub fn generate_msg(&self, key_event: Key) -> (r: Option<NetScanMsg>)
        ensures
            r == netscan_key_to_msg(key_event),
    {
        match key_event {
            Key::Enter => Some(NetScanMsg::Scan),
            Key::Char('i') => Some(NetScanMsg::NextInterface),
            Key::Char('s') => Some(NetScanMsg::Scan),
            Key::Char('o') => Some(NetScanMsg::NextScanOption),
            Key::Char('O') => Some(NetScanMsg::ToggleScanOption),
            _ => None,
        }
    }
}

/// Key-to-message table of the scanner screen.
pub open spec fn netscan_key_to_msg(key: Key) -> Option<NetScanMsg> {
    match key {
        Key::Enter => Some(NetScanMsg::Scan),
        Key::Char(c) => if c == 'i' {
            Some(NetScanMsg::NextInterface)
        } else if c == 's' {
            Some(NetScanMsg::Scan)
        } else if c == 'o' {
            Some(NetScanMsg::NextScanOption)
        } else if c == 'O' {
            Some(NetScanMsg::ToggleScanOption)
        } else {
            None
        },
        _ => None,
    }
}

/// The count of one bits in one octet, bit by bit.
pub open spec fn ones8(n: u8) -> int {
    ((n & 1) as int) + (((n >> 1) & 1) as int) + (((n >> 2) & 1) as int) + (((n >> 3) & 1) as int)
        + (((n >> 4) & 1) as int) + (((n >> 5) & 1) as int) + (((n >> 6) & 1) as int) + (((n >> 7)
        & 1) as int)
}

fn count_ones_u8(n: u8) -> (r: usize)
    ensures
        r as int == ones8(n),
{
    ((n & 1) as usize) + (((n >> 1) & 1) as usize) + (((n >> 2) & 1) as usize) + (((n >> 3)
        & 1) as usize) + (((n >> 4) & 1) as usize) + (((n >> 5) & 1) as usize) + (((n >> 6)
        & 1) as usize) + (((n >> 7) & 1) as usize)
}

/// The CIDR prefix length of a netmask: the count of one bits over its
/// four octets.
pub fn calculate_cidr(nmask: Ip4Addr) -> (r: usize)
    ensures
        r as int == ones8(nmask.a) + ones8(nmask.b) + ones8(nmask.c) + ones8(nmask.d),
{
    let mut cidr: usize = 0;
    cidr = cidr + count_ones_u8(nmask.a);
    cidr = cidr + count_ones_u8(nmask.b);
    cidr = cidr + count_ones_u8(nmask.c);
    cidr = cidr + count_ones_u8(nmask.d);
    return cidr;
}

/// The dotted decimal rendering of an IPv4 address.
pub open spec fn ip4_chars(ip: Ip4Addr) -> Seq<char> {
    dec_spec(ip.a as int) + seq!['.'] + dec_spec(ip.b as int) + seq!['.'] + dec_spec(ip.c as int)
        + seq!['.'] + dec_spec(ip.d as int)
}

/// An optional IPv4 address, `"N/A"` when absent.
pub open spec fn opt_ip4_chars(o: Option<Ip4Addr>) -> Seq<char> {
    match o {
        Some(ip) => ip4_chars(ip),
        None => "N/A"@,
    }
}

/// An optional pre-rendered text, `"N/A"` when absent.
pub open spec fn opt_text_chars(o: Option<Seq<char>>) -> Seq<char> {
    match o {
        Some(s) => s,
        None => "N/A"@,
    }
}

/// The four-line display block of one interface.
pub open spec fn net_info_line(v: NetInfoView) -> Seq<char> {
    "IP4: "@ + opt_ip4_chars(v.ip4) + "\nIP6: "@ + opt_text_chars(v.ip6) + "\nNetmask: "@
        + opt_ip4_chars(v.nmask) + "\nMAC: "@ + v.mac
}

fn append_ip4(s: &mut String, ip: Ip4Addr)
    ensures
        final(s)@ == old(s)@ + ip4_chars(ip),
{
    proof {
        reveal_strlit(".");
    }
    append_u64_dec(s, ip.a as u64);
    s.append(".");
    append_u64_dec(s, ip.b as u64);
    s.append(".");
    append_u64_dec(s, ip.c as u64);
    s.append(".");
    append_u64_dec(s, ip.d as u64);
    assert(s@ =~= old(s)@ + ip4_chars(ip));
}

fn append_opt_ip4(s: &mut String, o: &Option<Ip4Addr>)
    ensures
        final(s)@ == old(s)@ + opt_ip4_chars(*o),
{
    match o {
        Some(ip) => append_ip4(s, *ip),
        None => s.append("N/A"),
    }
}

/// Render the display block of one interface.
pub fn net_info_string(info: &NetInfo) -> (r: String)
    ensures
        r@ == net_info_line(info@),
{
    let mut r = String::new();
    r.append("IP4: ");
    append_opt_ip4(&mut r, &info.ip4);
    r.append("\nIP6: ");
    match &info.ip6 {
        Some(text) => r.append(text.as_str()),
        None => r.append("N/A"),
    }
    r.append("\nNetmask: ");
    append_opt_ip4(&mut r, &info.nmask);
    r.append("\nMAC: ");
    r.append(info.mac.as_str());
    assert(r@ =~= net_info_line(info@));
    r
}

} // verus!
