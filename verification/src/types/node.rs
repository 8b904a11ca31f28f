//! Node queries and their results.

use vstd::prelude::*;
use windows_core::HSTRING;
use crate::strings::{hstring_units, raw_units, safe_pwstr_to_hstring};

verus! {

/// A raw wide string as the foreign side holds it: null, or a buffer that a
/// NUL terminates.
pub type RawWideString = Option<Vec<u16>>;

/// The code units that a raw wide string stands for.
pub open spec fn raw_string_units(raw: RawWideString) -> Seq<u16> {
    raw_units(
        match raw {
            Some(buffer) => Some(buffer@),
            None => None,
        },
    )
}

/// Whether a raw wide string is short enough to be copied.
pub open spec fn raw_string_fits(raw: RawWideString) -> bool {
    raw matches Some(buffer) ==> buffer@.len() <= u32::MAX
}

/// Copies a raw wide string.
pub fn copy_raw_string(raw: &RawWideString) -> (h: HSTRING)
    requires
        raw_string_fits(*raw),
    ensures
        hstring_units(h) == raw_string_units(*raw),
{
    match raw {
        Some(buffer) => safe_pwstr_to_hstring(Some(buffer.as_slice())),
        None => safe_pwstr_to_hstring(None),
    }
}

/// Paging status as the foreign side holds it.
pub struct RawPagingStatus {
    pub continuation_token: RawWideString,
}

/// Where a paged query goes on.
pub struct PagingStatus {
    pub continuation_token: HSTRING,
}

impl PagingStatus {
    /// Copies the continuation token.
    pub fn from_raw(value: &RawPagingStatus) -> (status: Self)
        requires
            raw_string_fits(value.continuation_token),
        ensures
            hstring_units(status.continuation_token) == raw_string_units(value.continuation_token),
    {
        PagingStatus { continuation_token: copy_raw_string(&value.continuation_token) }
    }
}

/// Paging part of a query.
#[derive(Default, Debug)]
pub struct PagedQueryDescription {
    pub continuation_token: Option<HSTRING>,
    pub max_results: Option<i32>,
}

/// Bits of the node status filter.
pub const NODE_STATUS_FILTER_DEFAULT: u32 = 0x0000;

pub const NODE_STATUS_FILTER_ALL: u32 = 0xFFFF;

pub const NODE_STATUS_FILTER_UP: u32 = 0x0001;

pub const NODE_STATUS_FILTER_DOWN: u32 = 0x0002;

pub const NODE_STATUS_FILTER_ENABLING: u32 = 0x0004;

pub const NODE_STATUS_FILTER_DISABLING: u32 = 0x0008;

pub const NODE_STATUS_FILTER_DISABLED: u32 = 0x0010;

pub const NODE_STATUS_FILTER_UNKNOWN: u32 = 0x0020;

pub const NODE_STATUS_FILTER_REMOVED: u32 = 0x0040;

/// Set of node states that a query selects.
#[derive(Debug, Clone, Copy, PartialEq, Eq, Structural)]
pub struct NodeStatusFilter {
    bits: u32,
}

impl NodeStatusFilter {
    /// The bits of the filter.
    pub closed spec fn spec_bits(&self) -> u32 {
        self.bits
    }

    /// The filter with exactly the given bits.
    pub fn from_bits_retain(bits: u32) -> (filter: Self)
        ensures
            filter.spec_bits() == bits,
    {
        NodeStatusFilter { bits }
    }

    /// The bits of the filter.
    pub fn bits(&self) -> (bits: u32)
        ensures
            bits == self.spec_bits(),
    {
        self.bits
    }

    /// Whether every bit of `other` is set in this filter.
    pub fn contains(&self, other: NodeStatusFilter) -> (b: bool)
        ensures
            b == (self.spec_bits() & other.spec_bits() == other.spec_bits()),
    {
        self.bits & other.bits == other.bits
    }

    /// The filter with the bits of both.
    pub fn union(self, other: NodeStatusFilter) -> (filter: Self)
        ensures
            filter.spec_bits() == self.spec_bits() | other.spec_bits(),
    {
        NodeStatusFilter { bits: self.bits | other.bits }
    }
}

impl Default for NodeStatusFilter {
    /// The default filter of the runtime, without any bit.
    fn default() -> (filter: Self)
        ensures
            filter.spec_bits() == NODE_STATUS_FILTER_DEFAULT,
    {
        NodeStatusFilter { bits: NODE_STATUS_FILTER_DEFAULT }
    }
}

/// Which nodes a query asks for.
#[derive(Debug)]
pub struct NodeQueryDescription {
    pub node_name_filter: Option<HSTRING>,
    pub node_status_filter: NodeStatusFilter,
    pub paged_query: PagedQueryDescription,
}

impl Default for NodeQueryDescription {
    /// A query for all nodes of the default states, from the first page on.
    fn default() -> (query: Self)
        ensures
            query.node_name_filter is None,
            query.node_status_filter.spec_bits() == NODE_STATUS_FILTER_DEFAULT,
            query.paged_query.continuation_token is None,
            query.paged_query.max_results is None,
    {
        NodeQueryDescription {
            node_name_filter: None,
            node_status_filter: NodeStatusFilter::default(),
            paged_query: PagedQueryDescription { continuation_token: None, max_results: None },
        }
    }
}

/// Second extension of a raw node item.
pub struct RawNodeItemEx2 {
    pub node_instance_id: u64,
}

/// First extension of a raw node item.
pub struct RawNodeItemEx1 {
    pub reserved: Option<RawNodeItemEx2>,
}

/// One node of a query result as the foreign side holds it.
pub struct RawNodeItem {
    pub node_name: RawWideString,
    pub ip_address_or_fqdn: RawWideString,
    pub node_type: RawWideString,
    pub code_version: RawWideString,
    pub config_version: RawWideString,
    pub node_up_time_in_seconds: i64,
    pub is_seed_node: bool,
    pub upgrade_domain: RawWideString,
    pub fault_domain: RawWideString,
    pub reserved: Option<RawNodeItemEx1>,
}

impl RawNodeItem {
    /// Both extensions are there and every string is short enough to be
    /// copied.
    pub open spec fn convertible(&self) -> bool {
        &&& self.reserved matches Some(ex1) && ex1.reserved is Some
        &&& raw_string_fits(self.node_name)
        &&& raw_string_fits(self.ip_address_or_fqdn)
        &&& raw_string_fits(self.node_type)
        &&& raw_string_fits(self.code_version)
        &&& raw_string_fits(self.config_version)
        &&& raw_string_fits(self.upgrade_domain)
        &&& raw_string_fits(self.fault_domain)
    }

    /// Whether the item can be converted.
    pub fn is_convertible(&self) -> (b: bool)
        ensures
            b == self.convertible(),
    {
        let extended = match &self.reserved {
            Some(ex1) => ex1.reserved.is_some(),
            None => false,
        };
        extended && string_fits(&self.node_name) && string_fits(&self.ip_address_or_fqdn)
            && string_fits(&self.node_type) && string_fits(&self.code_version) && string_fits(
            &self.config_version,
        ) && string_fits(&self.upgrade_domain) && string_fits(&self.fault_domain)
    }
}

/// Whether a raw wide string is short enough to be copied.
pub fn string_fits(raw: &RawWideString) -> (b: bool)
    ensures
        b == raw_string_fits(*raw),
{
    match raw {
        Some(buffer) => buffer.len() <= 0xFFFF_FFFF,
        None => true,
    }
}

/// One node of the cluster.
#[derive(Debug)]
pub struct Node {
    pub name: HSTRING,
    pub ip_address_or_fqdn: HSTRING,
    pub node_type: HSTRING,
    pub code_version: HSTRING,
    pub config_version: HSTRING,
    pub node_up_time_in_seconds: i64,
    pub is_seed_node: bool,
    pub upgrade_domain: HSTRING,
    pub fault_domain: HSTRING,
    pub node_instance_id: u64,
}

impl Node {
    /// Whether this node holds what `raw` holds.
    pub open spec fn matches_raw(&self, raw: RawNodeItem) -> bool {
        &&& hstring_units(self.name) == raw_string_units(raw.node_name)
        &&& hstring_units(self.ip_address_or_fqdn) == raw_string_units(raw.ip_address_or_fqdn)
        &&& hstring_units(self.node_type) == raw_string_units(raw.node_type)
        &&& hstring_units(self.code_version) == raw_string_units(raw.code_version)
        &&& hstring_units(self.config_version) == raw_string_units(raw.config_version)
        &&& self.node_up_time_in_seconds == raw.node_up_time_in_seconds
        &&& self.is_seed_node == raw.is_seed_node
        &&& hstring_units(self.upgrade_domain) == raw_string_units(raw.upgrade_domain)
        &&& hstring_units(self.fault_domain) == raw_string_units(raw.fault_domain)
        &&& self.node_instance_id == raw.reserved->Some_0.reserved->Some_0.node_instance_id
    }

    /// Copies a raw node item; the instance id comes from its second
    /// extension.
    pub fn from_raw(value: &RawNodeItem) -> (node: Self)
        requires
            value.convertible(),
        ensures
            node.matches_raw(*value),
    {
        let node_instance_id = match &value.reserved {
            Some(ex1) => match &ex1.reserved {
                Some(ex2) => ex2.node_instance_id,
                None => 0,
            },
            None => 0,
        };
        Node {
            name: copy_raw_string(&value.node_name),
            ip_address_or_fqdn: copy_raw_string(&value.ip_address_or_fqdn),
            node_type: copy_raw_string(&value.node_type),
            code_version: copy_raw_string(&value.code_version),
            config_version: copy_raw_string(&value.config_version),
            node_up_time_in_seconds: value.node_up_time_in_seconds,
            is_seed_node: value.is_seed_node,
            upgrade_domain: copy_raw_string(&value.upgrade_domain),
            fault_domain: copy_raw_string(&value.fault_domain),
            node_instance_id,
        }
    }
}

/// Result of a node query as the foreign side holds it.
pub struct NodeList {
    items: Vec<RawNodeItem>,
    paging_status: Option<RawPagingStatus>,
}

impl NodeList {
    /// The raw items of the list.
    pub closed spec fn items(&self) -> Seq<RawNodeItem> {
        self.items@
    }

    /// The raw paging status, if the result has more pages.
    pub closed spec fn paging_status(&self) -> Option<RawPagingStatus> {
        self.paging_status
    }

    /// A list of the given items and paging status.
    pub fn new(items: Vec<RawNodeItem>, paging_status: Option<RawPagingStatus>) -> (list: Self)
        ensures
            list.items() == items@,
            list.paging_status() == paging_status,
    {
        NodeList { items, paging_status }
    }

    /// The number of items.
    pub fn get_count(&self) -> (count: usize)
        ensures
            count == self.items().len(),
    {
        self.items.len()
    }

    /// The nodes of the list, in order.
    pub fn iter(&self) -> (nodes: Vec<Node>)
        requires
            forall|i: int| 0 <= i < self.items().len() ==> (#[trigger] self.items()[i]).convertible(),
        ensures
            nodes@.len() == self.items().len(),
            forall|i: int| 0 <= i < nodes@.len() ==> (#[trigger] nodes@[i]).matches_raw(self.items()[i]),
    {
        let mut nodes: Vec<Node> = Vec::new();
        let mut i: usize = 0;
        while i < self.items.len()
            invariant
                i <= self.items@.len(),
                nodes@.len() == i,
                self.items() == self.items@,
                forall|k: int|
                    0 <= k < self.items().len() ==> (#[trigger] self.items()[k]).convertible(),
                forall|k: int| 0 <= k < i ==> (#[trigger] nodes@[k]).matches_raw(self.items()[k]),
            decreases self.items@.len() - i,
        {
            nodes.push(Node::from_raw(&self.items[i]));
            i += 1;
        }
        nodes
    }

    /// The paging status; there is none behind the last page.
    pub fn get_paging_status(&self) -> (status: Option<PagingStatus>)
        requires
            self.paging_status() matches Some(raw) ==> raw_string_fits(raw.continuation_token),
        ensures
            match self.paging_status() {
                Some(raw) => status matches Some(s) && hstring_units(s.continuation_token)
                    == raw_string_units(raw.continuation_token),
                None => status is None,
            },
    {
        match &self.paging_status {
            Some(raw) => Some(PagingStatus::from_raw(raw)),
            None => None,
        }
    }
}

/// Identity of a node: a number of 128 bits in two halves.
#[derive(Debug, Clone, Copy, PartialEq, Eq, Structural)]
pub struct NodeId {
    pub low: u64,
    pub high: u64,
}

impl NodeId {
    /// The id with the given halves.
    pub fn from_parts(low: u64, high: u64) -> (id: Self)
        ensures
            id.low == low,
            id.high == high,
    {
        NodeId { low, high }
    }
}

} // verus!
