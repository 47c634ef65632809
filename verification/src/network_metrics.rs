//! Selection of the active network interface.
//!
//! The operating system supplies a point-in-time table of interface rows
//! (name strings, a numeric interface type, cumulative byte counters, an
//! optional Wi-Fi signal quality) and, when routing succeeds, the index of
//! the interface a well-known destination would leave through. The verified
//! logic here picks which row to report and how to present it; querying the
//! table itself is left to the unverified platform shell.

use vstd::prelude::*;

verus! {

/// Numeric interface type of wired Ethernet (ethernetCsmacd in the IANA
/// ifType registry, the values Windows reports in its interface table).
pub const IF_TYPE_ETHERNET_CSMACD: u32 = 6;

/// Numeric interface type of Wi-Fi (ieee80211 in the IANA ifType registry).
pub const IF_TYPE_IEEE80211: u32 = 71;

#[derive(Debug, Clone, PartialEq, Eq, Structural)]
pub enum InterfaceKind {
    Ethernet,
    Wifi,
    Other,
}

/// The reported state of one interface. `signal_quality` is populated only
/// for Wi-Fi, in the range 0..=100 when the adapter is connected.
#[derive(Debug, Clone)]
pub struct InterfaceMetrics {
    pub name: String,
    pub kind: InterfaceKind,
    pub rx_bytes: u64,
    pub tx_bytes: u64,
    pub signal_quality: Option<u32>,
}

/// The interface kind a numeric interface type denotes.
pub open spec fn kind_of_if_type(if_type: u32) -> InterfaceKind {
    if if_type == IF_TYPE_ETHERNET_CSMACD {
        InterfaceKind::Ethernet
    } else if if_type == IF_TYPE_IEEE80211 {
        InterfaceKind::Wifi
    } else {
        InterfaceKind::Other
    }
}

pub fn map_if_type_to_kind(if_type: u32) -> (r: InterfaceKind)
    ensures
        r == kind_of_if_type(if_type),
{
    if if_type == IF_TYPE_ETHERNET_CSMACD {
        InterfaceKind::Ethernet
    } else if if_type == IF_TYPE_IEEE80211 {
        InterfaceKind::Wifi
    } else {
        InterfaceKind::Other
    }
}

/// One row of the interface table, as plain values: what the platform shell
/// reads out of the operating system for each interface.
#[derive(Debug)]
pub struct RawInterfaceRow {
    pub interface_index: u32,
    pub if_type: u32,
    pub alias: String,
    pub description: String,
    pub rx_bytes: u64,
    pub tx_bytes: u64,
    pub wifi_signal_quality: Option<u32>,
}

/// How a reported `InterfaceMetrics` presents a row: the alias names the
/// interface unless it is empty, in which case the description does; the
/// signal quality is passed through for Wi-Fi rows only.
pub open spec fn metrics_matches_row(m: InterfaceMetrics, row: RawInterfaceRow) -> bool {
    &&& m.kind == kind_of_if_type(row.if_type)
    &&& m.rx_bytes == row.rx_bytes
    &&& m.tx_bytes == row.tx_bytes
    &&& m.name@ == if row.alias@.len() > 0 {
        row.alias@
    } else {
        row.description@
    }
    &&& m.signal_quality == if kind_of_if_type(row.if_type) is Wifi {
        row.wifi_signal_quality
    } else {
        None::<u32>
    }
}

/// The row is a wired-Ethernet or Wi-Fi interface.
pub open spec fn row_is_eth_or_wifi(row: RawInterfaceRow) -> bool {
    kind_of_if_type(row.if_type) == InterfaceKind::Ethernet || kind_of_if_type(row.if_type)
        == InterfaceKind::Wifi
}

/// Index of the first row that carries the given interface index, if any.
pub open spec fn first_with_index(rows: Seq<RawInterfaceRow>, idx: u32) -> Option<int>
    decreases rows.len(),
{
    if rows.len() == 0 {
        None
    } else if rows[0].interface_index == idx {
        Some(0)
    } else {
        match first_with_index(rows.drop_first(), idx) {
            Some(i) => Some(i + 1),
            None => None,
        }
    }
}

/// Index of the first Ethernet or Wi-Fi row, if any.
pub open spec fn first_eth_or_wifi(rows: Seq<RawInterfaceRow>) -> Option<int>
    decreases rows.len(),
{
    if rows.len() == 0 {
        None
    } else if row_is_eth_or_wifi(rows[0]) {
        Some(0)
    } else {
        match first_eth_or_wifi(rows.drop_first()) {
            Some(i) => Some(i + 1),
            None => None,
        }
    }
}

proof fn lemma_first_with_index_found(rows: Seq<RawInterfaceRow>, idx: u32, j: int)
    requires
        0 <= j < rows.len(),
        rows[j].interface_index == idx,
        forall|k: int| 0 <= k < j ==> (#[trigger] rows[k]).interface_index != idx,
    ensures
        first_with_index(rows, idx) == Some(j),
    decreases rows.len(),
{
    if j > 0 {
        let t = rows.drop_first();
        assert forall|k: int| 0 <= k < j - 1 implies (#[trigger] t[k]).interface_index != idx by {
            assert(t[k] == rows[k + 1]);
        }
        assert(t[j - 1] == rows[j]);
        lemma_first_with_index_found(t, idx, j - 1);
    }
}

proof fn lemma_first_with_index_none(rows: Seq<RawInterfaceRow>, idx: u32)
    requires
        forall|k: int| 0 <= k < rows.len() ==> (#[trigger] rows[k]).interface_index != idx,
    ensures
        first_with_index(rows, idx) is None,
    decreases rows.len(),
{
    if rows.len() > 0 {
        let t = rows.drop_first();
        assert forall|k: int| 0 <= k < t.len() implies (#[trigger] t[k]).interface_index != idx by {
            assert(t[k] == rows[k + 1]);
        }
        lemma_first_with_index_none(t, idx);
    }
}

proof fn lemma_first_eth_or_wifi_found(rows: Seq<RawInterfaceRow>, j: int)
    requires
        0 <= j < rows.len(),
        row_is_eth_or_wifi(rows[j]),
        forall|k: int| 0 <= k < j ==> !row_is_eth_or_wifi(#[trigger] rows[k]),
    ensures
        first_eth_or_wifi(rows) == Some(j),
    decreases rows.len(),
{
    if j > 0 {
        let t = rows.drop_first();
        assert forall|k: int| 0 <= k < j - 1 implies !row_is_eth_or_wifi(#[trigger] t[k]) by {
            assert(t[k] == rows[k + 1]);
        }
        assert(t[j - 1] == rows[j]);
        lemma_first_eth_or_wifi_found(t, j - 1);
    }
}

proof fn lemma_first_eth_or_wifi_none(rows: Seq<RawInterfaceRow>)
    requires
        forall|k: int| 0 <= k < rows.len() ==> !row_is_eth_or_wifi(#[trigger] rows[k]),
    ensures
        first_eth_or_wifi(rows) is None,
    decreases rows.len(),
{
    if rows.len() > 0 {
        let t = rows.drop_first();
        assert forall|k: int| 0 <= k < t.len() implies !row_is_eth_or_wifi(#[trigger] t[k]) by {
            assert(t[k] == rows[k + 1]);
        }
        lemma_first_eth_or_wifi_none(t);
    }
}

/// Which row one query reports: the row the routing decision named when it
/// is present, else the first Ethernet or Wi-Fi row, else the first row of
/// the table, and nothing only when the table is empty.
pub open spec fn chosen_index(rows: Seq<RawInterfaceRow>, best_index: Option<u32>) -> Option<int> {
    let by_best = match best_index {
        Some(b) => first_with_index(rows, b),
        None => None,
    };
    match by_best {
        Some(i) => Some(i),
        None => match first_eth_or_wifi(rows) {
            Some(i) => Some(i),
            None => if rows.len() > 0 {
                Some(0)
            } else {
                None
            },
        },
    }
}

/// Presents one row as the reported metrics.
fn build_metrics(row: &RawInterfaceRow) -> (m: InterfaceMetrics)
    ensures
        metrics_matches_row(m, *row),
{
    let kind = map_if_type_to_kind(row.if_type);
    let name = if !row.alias.as_str().is_empty() {
        row.alias.clone()
    } else {
        row.description.clone()
    };
    let signal_quality = match kind {
        InterfaceKind::Wifi => row.wifi_signal_quality,
        InterfaceKind::Ethernet => None,
        InterfaceKind::Other => None,
    };
    InterfaceMetrics { name, kind, rx_bytes: row.rx_bytes, tx_bytes: row.tx_bytes, signal_quality }
}

/// Picks the active interface out of the table: the row the routing
/// decision named, else the first Ethernet or Wi-Fi row, else the first row;
/// an error only when the table is empty.
#[verifier::loop_isolation(false)]
pub fn select_active_interface(rows: &Vec<RawInterfaceRow>, best_index: Option<u32>) -> (r: Result<
    InterfaceMetrics,
    String,
>)
    ensures
        (r is Ok) <==> rows@.len() > 0,
        (match chosen_index(rows@, best_index) {
            Some(i) => r matches Ok(m) && metrics_matches_row(m, rows@[i]),
            None => r is Err,
        }),
{
    match best_index {
        Some(b) => {
            let mut j: usize = 0;
            while j < rows.len()
                invariant
                    j <= rows@.len(),
                    forall|k: int| 0 <= k < j ==> (#[trigger] rows@[k]).interface_index != b,
                decreases rows@.len() - j,
            {
                if rows[j].interface_index == b {
                    let m = build_metrics(&rows[j]);
                    proof {
                        lemma_first_with_index_found(rows@, b, j as int);
                    }
                    return Ok(m);
                }
                j = j + 1;
            }
            proof {
                lemma_first_with_index_none(rows@, b);
            }
        },
        None => {},
    }
    let mut j: usize = 0;
    while j < rows.len()
        invariant
            j <= rows@.len(),
            forall|k: int| 0 <= k < j ==> !row_is_eth_or_wifi(#[trigger] rows@[k]),
        decreases rows@.len() - j,
    {
        let kind = map_if_type_to_kind(rows[j].if_type);
        let matches_kind = match kind {
            InterfaceKind::Ethernet => true,
            InterfaceKind::Wifi => true,
            InterfaceKind::Other => false,
        };
        if matches_kind {
            proof {
                lemma_first_eth_or_wifi_found(rows@, j as int);
            }
            return Ok(build_metrics(&rows[j]));
        }
        j = j + 1;
    }
    proof {
        lemma_first_eth_or_wifi_none(rows@);
    }
    if rows.len() > 0 {
        return Ok(build_metrics(&rows[0]));
    }
    Err("No network interfaces found".to_owned())
}

} // verus!
