//! Plain values exchanged with the wireless driver: what a scan found, the
//! configuration to apply, the status it reports and the result of a batch
//! of reachability probes.

use vstd::prelude::*;

verus! {

/// Channel of the locally hosted access point when the scan did not find
/// the target network.
pub const DEFAULT_AP_CHANNEL: u8 = 1;

/// Name of the locally hosted access point.
pub open spec fn local_ap_name() -> Seq<char> {
    "aptest"@
}

/// One access point seen by a scan.
#[derive(Debug, PartialEq, Eq)]
pub struct AccessPoint {
    pub ssid: String,
    pub channel: u8,
}

/// The role that joins the target network.
#[derive(Debug, PartialEq, Eq)]
pub struct ClientConfig {
    pub ssid: String,
    pub credential: String,
    /// Channel of the target network, where the scan found it.
    pub channel: Option<u8>,
}

/// The role that hosts an access point on the device.
#[derive(Debug, PartialEq, Eq)]
pub struct LocalApConfig {
    pub ssid: String,
    pub channel: u8,
}

/// The dual-role configuration handed to the driver.
#[derive(Debug, PartialEq, Eq)]
pub struct NetworkConfig {
    pub client: ClientConfig,
    pub local_ap: LocalApConfig,
}

pub struct ClientConfigView {
    pub ssid: Seq<char>,
    pub credential: Seq<char>,
    pub channel: Option<u8>,
}

pub struct LocalApConfigView {
    pub ssid: Seq<char>,
    pub channel: u8,
}

pub struct NetworkConfigView {
    pub client: ClientConfigView,
    pub local_ap: LocalApConfigView,
}

impl View for ClientConfig {
    type V = ClientConfigView;

    open spec fn view(&self) -> ClientConfigView {
        ClientConfigView {
            ssid: self.ssid@,
            credential: self.credential@,
            channel: self.channel,
        }
    }
}

impl View for LocalApConfig {
    type V = LocalApConfigView;

    open spec fn view(&self) -> LocalApConfigView {
        LocalApConfigView { ssid: self.ssid@, channel: self.channel }
    }
}

impl View for NetworkConfig {
    type V = NetworkConfigView;

    open spec fn view(&self) -> NetworkConfigView {
        NetworkConfigView { client: self.client@, local_ap: self.local_ap@ }
    }
}

impl Clone for ClientConfig {
    fn clone(&self) -> (copy: Self)
        ensures
            copy == *self,
    {
        ClientConfig {
            ssid: self.ssid.clone(),
            credential: self.credential.clone(),
            channel: self.channel,
        }
    }
}

impl Clone for LocalApConfig {
    fn clone(&self) -> (copy: Self)
        ensures
            copy == *self,
    {
        LocalApConfig { ssid: self.ssid.clone(), channel: self.channel }
    }
}

impl Clone for NetworkConfig {
    fn clone(&self) -> (copy: Self)
        ensures
            copy == *self,
    {
        NetworkConfig { client: self.client.clone(), local_ap: self.local_ap.clone() }
    }
}

/// Whether entry `i` of the scan is the first one named `ssid`.
pub open spec fn is_first_match(aps: Seq<AccessPoint>, ssid: Seq<char>, i: int) -> bool {
    &&& 0 <= i < aps.len()
    &&& aps[i].ssid@ == ssid
    &&& forall|j: int| 0 <= j < i ==> (#[trigger] aps[j]).ssid@ != ssid
}

/// Whether the scan holds an entry named `ssid`.
pub open spec fn is_present(aps: Seq<AccessPoint>, ssid: Seq<char>) -> bool {
    exists|i: int| 0 <= i < aps.len() && (#[trigger] aps[i]).ssid@ == ssid
}

/// The channel of the first scan entry named `ssid`, or nothing when the
/// scan holds no such entry.
pub open spec fn discovered_channel(aps: Seq<AccessPoint>, ssid: Seq<char>) -> Option<u8> {
    if exists|i: int| is_first_match(aps, ssid, i) {
        Some(aps[choose|i: int| is_first_match(aps, ssid, i)].channel)
    } else {
        None
    }
}

/// The channel of the local access point for a discovered client channel.
pub open spec fn local_ap_channel(discovered: Option<u8>) -> u8 {
    match discovered {
        Some(channel) => channel,
        None => DEFAULT_AP_CHANNEL,
    }
}

/// The configuration for joining `ssid` after a scan that returned `aps`.
pub open spec fn planned_config(
    ssid: Seq<char>,
    credential: Seq<char>,
    aps: Seq<AccessPoint>,
) -> NetworkConfigView {
    let channel = discovered_channel(aps, ssid);
    NetworkConfigView {
        client: ClientConfigView { ssid, credential, channel },
        local_ap: LocalApConfigView { ssid: local_ap_name(), channel: local_ap_channel(channel) },
    }
}

/// A scan has at most one first entry of a given name.
pub proof fn lemma_first_match_is_unique(aps: Seq<AccessPoint>, ssid: Seq<char>, i: int, k: int)
    requires
        is_first_match(aps, ssid, i),
        is_first_match(aps, ssid, k),
    ensures
        i == k,
{
    if i < k {
        assert(aps[i].ssid@ != ssid);
    } else if k < i {
        assert(aps[k].ssid@ != ssid);
    }
}

/// Where entry `i` is the first one named `ssid`, its channel is the
/// discovered one.
pub proof fn lemma_first_match_is_discovered(aps: Seq<AccessPoint>, ssid: Seq<char>, i: int)
    requires
        is_first_match(aps, ssid, i),
    ensures
        discovered_channel(aps, ssid) == Some(aps[i].channel),
{
    let k = choose|k: int| is_first_match(aps, ssid, k);
    lemma_first_match_is_unique(aps, ssid, i, k);
}

/// A scan without an entry named `ssid` discovers no channel.
pub proof fn lemma_absent_is_undiscovered(aps: Seq<AccessPoint>, ssid: Seq<char>)
    requires
        !is_present(aps, ssid),
    ensures
        discovered_channel(aps, ssid) is None,
{
    assert forall|i: int| !is_first_match(aps, ssid, i) by {
        if 0 <= i < aps.len() {
            assert(aps[i].ssid@ != ssid);
        }
    }
}

/// Finds the channel of the first scan entry named `ssid`.
pub fn find_channel(aps: &Vec<AccessPoint>, ssid: &String) -> (channel: Option<u8>)
    ensures
        channel == discovered_channel(aps@, ssid@),
{
    let mut i: usize = 0;
    while i < aps.len()
        invariant
            i <= aps.len(),
            forall|j: int| 0 <= j < i ==> (#[trigger] aps@[j]).ssid@ != ssid@,
        decreases aps.len() - i,
    {
        if aps[i].ssid == *ssid {
            proof {
                lemma_first_match_is_discovered(aps@, ssid@, i as int);
            }
            return Some(aps[i].channel);
        }
        i += 1;
    }
    proof {
        lemma_absent_is_undiscovered(aps@, ssid@);
    }
    None
}

impl NetworkConfig {
    /// Builds the dual-role configuration: the client joins `ssid` on the
    /// channel the scan found it on, if it found it, and the local access
    /// point takes that channel too, or [`DEFAULT_AP_CHANNEL`].
    pub fn plan(ssid: &String, credential: &String, aps: &Vec<AccessPoint>) -> (config: Self)
        ensures
            config@ == planned_config(ssid@, credential@, aps@),
    {
        let channel = find_channel(aps, ssid);
        let ap_channel = match channel {
            Some(found) => found,
            None => DEFAULT_AP_CHANNEL,
        };
        NetworkConfig {
            client: ClientConfig { ssid: ssid.clone(), credential: credential.clone(), channel },
            local_ap: LocalApConfig { ssid: "aptest".to_owned(), channel: ap_channel },
        }
    }
}

/// State of the client role, as the driver reports it.
#[derive(Clone, Copy, Debug, PartialEq, Eq, Structural)]
pub enum ClientStatus {
    Stopped,
    Starting,
    Disconnected,
    Connecting,
    /// Linked, with address assignment switched off.
    AddressDisabled,
    /// Linked, waiting for an address.
    AddressPending,
    /// Linked and address-assigned; `gateway` is the IPv4 address of the
    /// gateway as a big-endian integer.
    Ready { gateway: u32 },
}

/// State of the locally hosted access point, as the driver reports it.
#[derive(Clone, Copy, Debug, PartialEq, Eq, Structural)]
pub enum LocalApStatus {
    Stopped,
    Starting,
    /// Started, with address assignment switched off.
    AddressDisabled,
    /// Started, waiting for its address.
    AddressPending,
    Ready,
}

/// The status of both roles.
#[derive(Clone, Copy, Debug, PartialEq, Eq, Structural)]
pub struct CombinedStatus {
    pub client: ClientStatus,
    pub local_ap: LocalApStatus,
}

/// The gateway learned from a status in which the client is linked and
/// address-assigned and the local access point is fully started; nothing
/// for every other status.
pub open spec fn gateway_of(status: CombinedStatus) -> Option<u32> {
    match (status.client, status.local_ap) {
        (ClientStatus::Ready { gateway }, LocalApStatus::Ready) => Some(gateway),
        _ => None,
    }
}

impl CombinedStatus {
    /// Computes [`gateway_of`].
    pub fn gateway(&self) -> (gateway: Option<u32>)
        ensures
            gateway == gateway_of(*self),
    {
        match self.local_ap {
            LocalApStatus::Ready => match self.client {
                ClientStatus::Ready { gateway } => Some(gateway),
                _ => None,
            },
            _ => None,
        }
    }
}

/// Result of one batch of reachability probes.
#[derive(Clone, Copy, Debug, PartialEq, Eq, Structural)]
pub struct ReachabilityReport {
    pub transmitted: u32,
    pub received: u32,
}

impl ReachabilityReport {
    /// No probe was lost.
    pub open spec fn lossless(self) -> bool {
        self.transmitted == self.received
    }

    /// Computes [`ReachabilityReport::lossless`].
    pub fn is_lossless(&self) -> (ok: bool)
        ensures
            ok == self.lossless(),
    {
        self.transmitted == self.received
    }
}

/// The first entry named `ssid` among the entries up to `i`, where entry
/// `i` has that name.
proof fn lemma_named_entry_has_first(aps: Seq<AccessPoint>, ssid: Seq<char>, i: int) -> (k: int)
    requires
        0 <= i < aps.len(),
        aps[i].ssid@ == ssid,
    ensures
        k <= i,
        is_first_match(aps, ssid, k),
    decreases i,
{
    if exists|j: int| 0 <= j < i && (#[trigger] aps[j]).ssid@ == ssid {
        let j = choose|j: int| 0 <= j < i && (#[trigger] aps[j]).ssid@ == ssid;
        lemma_named_entry_has_first(aps, ssid, j)
    } else {
        i
    }
}

/// The channel follows the scan. Where the scan shows the target network
/// on a channel, at entry `i`, and no earlier entry shows it on another
/// channel, the client is configured for that channel and the local access
/// point shares it.
pub proof fn lemma_present_target_fixes_channel(
    ssid: Seq<char>,
    credential: Seq<char>,
    aps: Seq<AccessPoint>,
    i: int,
)
    requires
        0 <= i < aps.len(),
        aps[i].ssid@ == ssid,
        forall|j: int|
            0 <= j < i && (#[trigger] aps[j]).ssid@ == ssid ==> aps[j].channel == aps[i].channel,
    ensures
        planned_config(ssid, credential, aps).client.channel == Some(aps[i].channel),
        planned_config(ssid, credential, aps).local_ap.channel == aps[i].channel,
{
    let k = lemma_named_entry_has_first(aps, ssid, i);
    lemma_first_match_is_discovered(aps, ssid, k);
}

/// An absent target leaves the channel open. Where the scan shows no
/// network of the target's name, the client is configured without a
/// channel and the local access point takes [`DEFAULT_AP_CHANNEL`].
pub proof fn lemma_absent_target_defaults_channel(
    ssid: Seq<char>,
    credential: Seq<char>,
    aps: Seq<AccessPoint>,
)
    requires
        !is_present(aps, ssid),
    ensures
        planned_config(ssid, credential, aps).client.channel is None,
        planned_config(ssid, credential, aps).local_ap.channel == DEFAULT_AP_CHANNEL,
        planned_config(ssid, credential, aps).local_ap.channel == 1,
{
    lemma_absent_is_undiscovered(aps, ssid);
}

/// Whatever the scan shows, the client is configured for the target's name
/// and credential, and the local access point keeps its fixed name.
pub proof fn lemma_identities_ignore_scan(
    ssid: Seq<char>,
    credential: Seq<char>,
    aps: Seq<AccessPoint>,
)
    ensures
        planned_config(ssid, credential, aps).client.ssid == ssid,
        planned_config(ssid, credential, aps).client.credential == credential,
        planned_config(ssid, credential, aps).local_ap.ssid == local_ap_name(),
{
}

} // verus!
